//! Server-side request pipeline for unary Connect RPC over HTTP.
//!
//! The crate negotiates the wire encoding from the request headers, sequences
//! the context extractors, the payload decoding and the handler call, and
//! encodes the handler's result, or any failure, as a protocol response.
//! Everything here is synchronous and works on plain values; the surrounding
//! server performs the asynchronous work that the pipeline asks for.
//!
//! - [`error`]: the error codes, their HTTP status and the error value.
//! - [`headers`]: request headers read as text.
//! - [`media`]: the normal form of a content type.
//! - [`response`]: the response handed to the server.
//! - [`handler::codec`]: negotiation, the error document, the envelope.
//! - [`handler::handler_unary`]: the pipeline of one call as a state machine.
//! - [`handler::laws`]: what holds of every call.
//! - [`text`]: helpers for building and comparing text.

pub mod error;
pub mod handler;
pub mod headers;
pub mod media;
pub mod response;
pub mod text;
