//! Handling one unary call: the codec and the pipeline that sequences it.

pub mod codec;
pub mod handler_unary;
pub mod laws;
