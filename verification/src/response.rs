//! The response that the pipeline hands to the server.

use vstd::prelude::*;

verus! {

/// The media types that a response of the protocol declares.
#[derive(Clone, Copy, Debug, PartialEq, Eq, Hash, Structural)]
pub enum ContentType {
    Json,
    Proto,
    ConnectJson,
    ConnectProto,
}

impl ContentType {
    /// The value of the `content-type` header.
    pub open spec fn spec_as_str(self) -> &'static str {
        match self {
            ContentType::Json => "application/json",
            ContentType::Proto => "application/proto",
            ContentType::ConnectJson => "application/connect+json",
            ContentType::ConnectProto => "application/connect+proto",
        }
    }

    /// The value of the `content-type` header.
    pub fn as_str(self) -> (value: &'static str)
        ensures
            value == self.spec_as_str(),
    {
        match self {
            ContentType::Json => "application/json",
            ContentType::Proto => "application/proto",
            ContentType::ConnectJson => "application/connect+json",
            ContentType::ConnectProto => "application/connect+proto",
        }
    }
}

/// What a response holds: status, declared media type and the body's bytes.
pub ghost struct HttpResponseView {
    pub status: u16,
    pub content_type: ContentType,
    pub body: Seq<u8>,
}

/// A complete HTTP response: status line, `content-type` and body.
#[derive(Debug, PartialEq, Eq)]
pub struct HttpResponse {
    pub status: u16,
    pub content_type: ContentType,
    pub body: Vec<u8>,
}

impl View for HttpResponse {
    type V = HttpResponseView;

    open spec fn view(&self) -> HttpResponseView {
        HttpResponseView { status: self.status, content_type: self.content_type, body: self.body@ }
    }
}

impl Clone for HttpResponse {
    fn clone(&self) -> (copy: HttpResponse)
        ensures
            copy@ == self@,
    {
        HttpResponse {
            status: self.status,
            content_type: self.content_type,
            body: self.body.clone(),
        }
    }
}

} // verus!
