//! Canonical RPC error codes and the error value.

use vstd::prelude::*;

verus! {

/// The canonical status codes of the protocol.
#[derive(Clone, Copy, Debug, PartialEq, Eq, Hash, Structural)]
pub enum RpcErrorCode {
    Canceled,
    Unknown,
    InvalidArgument,
    DeadlineExceeded,
    NotFound,
    AlreadyExists,
    PermissionDenied,
    ResourceExhausted,
    FailedPrecondition,
    Aborted,
    OutOfRange,
    Unimplemented,
    Internal,
    Unavailable,
    DataLoss,
    Unauthenticated,
}

impl RpcErrorCode {
    /// The HTTP status that stands for this code on a response that carries
    /// the error in its status line.
    pub open spec fn spec_http_status(self) -> u16 {
        match self {
            RpcErrorCode::Canceled => 499,
            RpcErrorCode::Unknown => 500,
            RpcErrorCode::InvalidArgument => 400,
            RpcErrorCode::DeadlineExceeded => 504,
            RpcErrorCode::NotFound => 404,
            RpcErrorCode::AlreadyExists => 409,
            RpcErrorCode::PermissionDenied => 403,
            RpcErrorCode::ResourceExhausted => 429,
            RpcErrorCode::FailedPrecondition => 400,
            RpcErrorCode::Aborted => 409,
            RpcErrorCode::OutOfRange => 400,
            RpcErrorCode::Unimplemented => 501,
            RpcErrorCode::Internal => 500,
            RpcErrorCode::Unavailable => 503,
            RpcErrorCode::DataLoss => 500,
            RpcErrorCode::Unauthenticated => 401,
        }
    }

    /// The name of this code on the wire.
    pub open spec fn spec_as_str(self) -> &'static str {
        match self {
            RpcErrorCode::Canceled => "canceled",
            RpcErrorCode::Unknown => "unknown",
            RpcErrorCode::InvalidArgument => "invalid_argument",
            RpcErrorCode::DeadlineExceeded => "deadline_exceeded",
            RpcErrorCode::NotFound => "not_found",
            RpcErrorCode::AlreadyExists => "already_exists",
            RpcErrorCode::PermissionDenied => "permission_denied",
            RpcErrorCode::ResourceExhausted => "resource_exhausted",
            RpcErrorCode::FailedPrecondition => "failed_precondition",
            RpcErrorCode::Aborted => "aborted",
            RpcErrorCode::OutOfRange => "out_of_range",
            RpcErrorCode::Unimplemented => "unimplemented",
            RpcErrorCode::Internal => "internal",
            RpcErrorCode::Unavailable => "unavailable",
            RpcErrorCode::DataLoss => "data_loss",
            RpcErrorCode::Unauthenticated => "unauthenticated",
        }
    }

    /// The HTTP status of a response that reports this code outside a stream.
    pub fn http_status(self) -> (status: u16)
        ensures
            status == self.spec_http_status(),
    {
        match self {
            RpcErrorCode::Canceled => 499,
            RpcErrorCode::Unknown => 500,
            RpcErrorCode::InvalidArgument => 400,
            RpcErrorCode::DeadlineExceeded => 504,
            RpcErrorCode::NotFound => 404,
            RpcErrorCode::AlreadyExists => 409,
            RpcErrorCode::PermissionDenied => 403,
            RpcErrorCode::ResourceExhausted => 429,
            RpcErrorCode::FailedPrecondition => 400,
            RpcErrorCode::Aborted => 409,
            RpcErrorCode::OutOfRange => 400,
            RpcErrorCode::Unimplemented => 501,
            RpcErrorCode::Internal => 500,
            RpcErrorCode::Unavailable => 503,
            RpcErrorCode::DataLoss => 500,
            RpcErrorCode::Unauthenticated => 401,
        }
    }

    /// The name under which this code travels in an error document.
    pub fn as_str(self) -> (name: &'static str)
        ensures
            name == self.spec_as_str(),
    {
        match self {
            RpcErrorCode::Canceled => "canceled",
            RpcErrorCode::Unknown => "unknown",
            RpcErrorCode::InvalidArgument => "invalid_argument",
            RpcErrorCode::DeadlineExceeded => "deadline_exceeded",
            RpcErrorCode::NotFound => "not_found",
            RpcErrorCode::AlreadyExists => "already_exists",
            RpcErrorCode::PermissionDenied => "permission_denied",
            RpcErrorCode::ResourceExhausted => "resource_exhausted",
            RpcErrorCode::FailedPrecondition => "failed_precondition",
            RpcErrorCode::Aborted => "aborted",
            RpcErrorCode::OutOfRange => "out_of_range",
            RpcErrorCode::Unimplemented => "unimplemented",
            RpcErrorCode::Internal => "internal",
            RpcErrorCode::Unavailable => "unavailable",
            RpcErrorCode::DataLoss => "data_loss",
            RpcErrorCode::Unauthenticated => "unauthenticated",
        }
    }
}

/// Every code maps to a client or server error status.
pub proof fn lemma_status_is_an_error_status(code: RpcErrorCode)
    ensures
        400 <= code.spec_http_status() <= 599,
{
}

/// The name tells the code: no two codes travel under one name.
pub proof fn lemma_names_tell_codes_apart(a: RpcErrorCode, b: RpcErrorCode)
    requires
        a != b,
    ensures
        a.spec_as_str()@ != b.spec_as_str()@,
{
    reveal_strlit("canceled");
    reveal_strlit("unknown");
    reveal_strlit("invalid_argument");
    reveal_strlit("deadline_exceeded");
    reveal_strlit("not_found");
    reveal_strlit("already_exists");
    reveal_strlit("permission_denied");
    reveal_strlit("resource_exhausted");
    reveal_strlit("failed_precondition");
    reveal_strlit("aborted");
    reveal_strlit("out_of_range");
    reveal_strlit("unimplemented");
    reveal_strlit("internal");
    reveal_strlit("unavailable");
    reveal_strlit("data_loss");
    reveal_strlit("unauthenticated");
    let x = a.spec_as_str()@;
    let y = b.spec_as_str()@;
    if x.len() == y.len() {
        assert(x[0] != y[0] || x[1] != y[1] || x[2] != y[2]);
    }
}

/// What an error says: its code and its message as text.
pub ghost struct RpcErrorView {
    pub code: RpcErrorCode,
    pub message: Seq<char>,
}

/// A failure of the pipeline or of the handler, as the client is told of it.
#[derive(Debug, PartialEq, Eq)]
pub struct RpcError {
    pub code: RpcErrorCode,
    pub message: String,
}

impl View for RpcError {
    type V = RpcErrorView;

    open spec fn view(&self) -> RpcErrorView {
        RpcErrorView { code: self.code, message: self.message@ }
    }
}

impl RpcError {
    /// An error with this code and this message.
    pub fn new(code: RpcErrorCode, message: String) -> (error: RpcError)
        ensures
            error.code == code,
            error.message == message,
    {
        RpcError { code, message }
    }
}

impl Clone for RpcError {
    fn clone(&self) -> (copy: RpcError)
        ensures
            copy == *self,
    {
        RpcError { code: self.code, message: self.message.clone() }
    }
}

} // verus!
