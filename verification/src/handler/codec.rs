//! Wire formats: the error document, the envelope that frames it for
//! streaming clients, and the responses built from them.

use crate::error::{RpcError, RpcErrorCode, RpcErrorView};
use crate::headers::{header, spec_header};
use crate::media::{normalize, spec_normalize};
use crate::response::{ContentType, HttpResponse, HttpResponseView};
use crate::text::{text_is, text_joined, text_with};
use axum::http::{HeaderMap, HeaderValue};
use vstd::prelude::*;
use vstd::string::StringSliceAdditionalSpecFns;

verus! {

/// The serialization family of one request and its response.
#[derive(Clone, Copy, Debug, PartialEq, Eq, Hash, Structural)]
pub enum WireEncoding {
    Binary,
    Json,
}

/// What the headers of a request decide about its handling.
#[derive(Clone, Copy, Debug, PartialEq, Eq, Structural)]
pub struct ReqResInto {
    pub binary: bool,
}

impl ReqResInto {
    /// The encoding that the request was made in.
    pub fn encoding(&self) -> (encoding: WireEncoding)
        ensures
            encoding == spec_encoding(self.binary),
    {
        if self.binary {
            WireEncoding::Binary
        } else {
            WireEncoding::Json
        }
    }
}

/// The encoding that a flag for the binary family stands for.
pub open spec fn spec_encoding(binary: bool) -> WireEncoding {
    if binary {
        WireEncoding::Binary
    } else {
        WireEncoding::Json
    }
}

/// The flag byte of an envelope that carries the end of a stream.
pub const ENVELOPE_END_STREAM: u8 = 0x02;

/// A text as a JSON string: between quotes, escaped, in UTF-8.
pub uninterp spec fn json_string(text: Seq<char>) -> Seq<u8>;

/// `serde_json::to_vec` on a string slice. It writes the text as a JSON string
/// into a fresh byte vector; serialising a string asks for nothing that could
/// fail, and writing into a vector does not fail either.
#[verifier::external_body]
fn to_json_string(text: &str) -> (json: Vec<u8>)
    ensures
        json@ == json_string(text@),
{
    serde_json::to_vec(text).unwrap()
}

/// The error document around a message that is already a JSON string: a
/// JSON object with the code's name under `code` and the message under
/// `message`.
pub open spec fn spec_error_document(code: RpcErrorCode, message: Seq<u8>) -> Seq<u8> {
    "{\"code\":\"".spec_bytes() + code.spec_as_str().spec_bytes() + "\",\"message\":".spec_bytes()
        + message + "}".spec_bytes()
}

/// The error document of an error.
pub open spec fn spec_error_json(error: RpcErrorView) -> Seq<u8> {
    spec_error_document(error.code, json_string(error.message))
}

/// The four bytes of `n`, most significant first.
pub open spec fn spec_be_bytes(n: u32) -> Seq<u8> {
    seq![
        (n / 0x100_0000) as u8,
        (n / 0x1_0000 % 0x100) as u8,
        (n / 0x100 % 0x100) as u8,
        (n % 0x100) as u8,
    ]
}

/// The number that four bytes spell, most significant first.
pub open spec fn spec_be_value(bytes: Seq<u8>) -> int {
    bytes[0] * 0x100_0000 + bytes[1] * 0x1_0000 + bytes[2] * 0x100 + bytes[3]
}

/// The length field of an envelope: the payload's length in 32 bits.
pub open spec fn spec_length_field(len: nat) -> u32 {
    (len % 0x1_0000_0000) as u32
}

/// The envelope around a payload: the flag byte, the payload's length in four
/// bytes, most significant first, then the payload.
pub open spec fn spec_envelope(payload: Seq<u8>) -> Seq<u8> {
    seq![ENVELOPE_END_STREAM] + spec_be_bytes(spec_length_field(payload.len())) + payload
}

/// The body that reports an error: the bare document, or the document in an
/// envelope where the client expects a stream.
pub open spec fn spec_encode_error(error: RpcErrorView, for_streaming: bool) -> Seq<u8> {
    if for_streaming {
        spec_envelope(spec_error_json(error))
    } else {
        spec_error_json(error)
    }
}

/// The response that reports an error. To a streaming client the error
/// travels in the body of a 200 response whose media type follows the
/// request's encoding; otherwise the status line carries the code and the
/// body is the JSON document.
pub open spec fn spec_error_response(
    error: RpcErrorView,
    as_binary: bool,
    for_streaming: bool,
) -> HttpResponseView {
    if for_streaming {
        HttpResponseView {
            status: 200,
            content_type: if as_binary {
                ContentType::ConnectProto
            } else {
                ContentType::ConnectJson
            },
            body: spec_encode_error(error, true),
        }
    } else {
        HttpResponseView {
            status: error.code.spec_http_status(),
            content_type: ContentType::Json,
            body: spec_encode_error(error, false),
        }
    }
}

/// The response that carries an encoded message.
pub open spec fn spec_message_response(as_binary: bool, body: Seq<u8>) -> HttpResponseView {
    HttpResponseView {
        status: 200,
        content_type: if as_binary {
            ContentType::Proto
        } else {
            ContentType::Json
        },
        body,
    }
}

/// Four bytes, most significant first, spell the number they were made from.
pub proof fn lemma_be_bytes_spell_the_number(n: u32)
    ensures
        spec_be_bytes(n).len() == 4,
        spec_be_value(spec_be_bytes(n)) == n,
{
}

/// An envelope is five bytes longer than its payload, starts with the flag,
/// ends with the payload, and its length field holds the payload's length
/// wherever that fits in 32 bits.
pub proof fn lemma_envelope_frames_payload(payload: Seq<u8>)
    ensures
        spec_envelope(payload).len() == 5 + payload.len(),
        spec_envelope(payload)[0] == 0x02,
        spec_envelope(payload).skip(5) == payload,
        payload.len() <= u32::MAX ==> spec_be_value(spec_envelope(payload).subrange(1, 5))
            == payload.len(),
{
    let n = spec_length_field(payload.len());
    lemma_be_bytes_spell_the_number(n);
}

/// Whatever the error and the encoding, the response to a streaming client
/// has status 200 and a body that is one envelope around the error document.
pub proof fn lemma_streaming_error_is_enveloped(error: RpcErrorView, as_binary: bool)
    ensures
        ({
            let response = spec_error_response(error, as_binary, true);
            let document = spec_error_json(error);
            &&& response.status == 200
            &&& response.body.len() == 5 + document.len()
            &&& response.body[0] == 0x02
            &&& response.body.skip(5) == document
            &&& document.len() <= u32::MAX ==> spec_be_value(response.body.subrange(1, 5))
                == document.len()
        }),
{
    lemma_envelope_frames_payload(spec_error_json(error));
}

/// Outside a stream the status line reports the error's code and the body is
/// the bare error document.
pub proof fn lemma_unary_error_shows_status(error: RpcErrorView, as_binary: bool)
    ensures
        ({
            let response = spec_error_response(error, as_binary, false);
            &&& response.status == error.code.spec_http_status()
            &&& response.content_type == ContentType::Json
            &&& response.body == spec_error_json(error)
        }),
{
}

/// Appends the bytes to the vector.
fn push_bytes(out: &mut Vec<u8>, bytes: &[u8])
    ensures
        final(out)@ == old(out)@ + bytes@,
{
    let mut i: usize = 0;
    while i < bytes.len()
        invariant
            i <= bytes.len(),
            out@ == old(out)@ + bytes@.take(i as int),
        decreases bytes.len() - i,
    {
        out.push(bytes[i]);
        i += 1;
    }
}

/// Writes the error document around a message that is already a JSON string.
pub fn error_document(code: RpcErrorCode, message: &Vec<u8>) -> (json: Vec<u8>)
    ensures
        json@ == spec_error_document(code, message@),
{
    let mut json: Vec<u8> = Vec::new();
    push_bytes(&mut json, "{\"code\":\"".as_bytes());
    push_bytes(&mut json, code.as_str().as_bytes());
    push_bytes(&mut json, "\",\"message\":".as_bytes());
    push_bytes(&mut json, message.as_slice());
    push_bytes(&mut json, "}".as_bytes());
    json
}

/// Writes the error document of an error.
pub fn error_json(error: &RpcError) -> (json: Vec<u8>)
    ensures
        json@ == spec_error_json(error@),
{
    let message = to_json_string(error.message.as_str());
    error_document(error.code, &message)
}

/// The four bytes of `n`, most significant first.
pub fn be_bytes(n: u32) -> (bytes: [u8; 4])
    ensures
        bytes@ == spec_be_bytes(n),
{
    [(n / 0x100_0000) as u8, (n / 0x1_0000 % 0x100) as u8, (n / 0x100 % 0x100) as u8, (n % 0x100) as u8]
}

/// Frames a payload in an envelope.
pub fn envelope(payload: &Vec<u8>) -> (framed: Vec<u8>)
    ensures
        framed@ == spec_envelope(payload@),
{
    let len: u64 = payload.len() as u64;
    let field: u32 = (len % 0x1_0000_0000) as u32;
    let mut framed: Vec<u8> = Vec::new();
    framed.push(ENVELOPE_END_STREAM);
    let size = be_bytes(field);
    push_bytes(&mut framed, size.as_slice());
    push_bytes(&mut framed, payload.as_slice());
    framed
}

/// Encodes an error as the body of a response: the error document, in an
/// envelope where `for_streaming` is set.
pub fn encode_error(e: &RpcError, for_streaming: bool) -> (body: Vec<u8>)
    ensures
        body@ == spec_encode_error(e@, for_streaming),
{
    let json = error_json(e);
    if for_streaming {
        envelope(&json)
    } else {
        json
    }
}

/// Encodes an error into a response.
pub fn encode_error_response(e: &RpcError, as_binary: bool, for_streaming: bool) -> (response:
    HttpResponse)
    ensures
        response@ == spec_error_response(e@, as_binary, for_streaming),
{
    if for_streaming {
        HttpResponse {
            status: 200,
            content_type: if as_binary {
                ContentType::ConnectProto
            } else {
                ContentType::ConnectJson
            },
            body: encode_error(e, true),
        }
    } else {
        HttpResponse {
            status: e.code.http_status(),
            content_type: ContentType::Json,
            body: encode_error(e, false),
        }
    }
}

/// Wraps an encoded message into the response of a successful call.
pub fn encode_message_response(as_binary: bool, body: Vec<u8>) -> (response: HttpResponse)
    ensures
        response@ == spec_message_response(as_binary, body@),
{
    HttpResponse {
        status: 200,
        content_type: if as_binary {
            ContentType::Proto
        } else {
            ContentType::Json
        },
        body,
    }
}

/// What an optional text says.
pub open spec fn spec_text(text: Option<Vec<char>>) -> Option<Seq<char>> {
    match text {
        Some(chars) => Some(chars@),
        None => None,
    }
}

/// An argument error with the given message.
pub open spec fn spec_invalid_argument(message: Seq<char>) -> RpcErrorView {
    RpcErrorView { code: RpcErrorCode::InvalidArgument, message }
}

/// Whether a protocol version header, if there is one, names the supported
/// version.
pub open spec fn spec_version_supported(version: Option<Seq<char>>) -> bool {
    version matches Some(value) ==> value == "1"@
}

/// The encoding that a normalized media type selects for a unary or a
/// streaming call. Four pairs select one; every other pair selects none.
pub open spec fn spec_accepted(media_type: Seq<char>, for_streaming: bool) -> Option<WireEncoding> {
    if !for_streaming && media_type == "application/json"@ {
        Some(WireEncoding::Json)
    } else if !for_streaming && media_type == "application/proto"@ {
        Some(WireEncoding::Binary)
    } else if for_streaming && media_type == "application/connect+json"@ {
        Some(WireEncoding::Json)
    } else if for_streaming && media_type == "application/connect+proto"@ {
        Some(WireEncoding::Binary)
    } else {
        None
    }
}

/// The outcome of negotiation, from the text of the protocol version header
/// and of the content type header: the encoding, or the error that refuses
/// the request.
pub open spec fn spec_negotiate(
    version: Option<Seq<char>>,
    content_type: Option<Seq<char>>,
    for_streaming: bool,
) -> Result<WireEncoding, RpcErrorView> {
    if !spec_version_supported(version) {
        Err(spec_invalid_argument("Unsupported protocol version: "@ + version->0))
    } else {
        match content_type {
            None => Err(spec_invalid_argument("Missing Content-Type header"@)),
            Some(value) => match spec_accepted(spec_normalize(value), for_streaming) {
                Some(encoding) => Ok(encoding),
                None => Err(
                    spec_invalid_argument(
                        "Wrong or unknown Content-Type: "@ + spec_normalize(value),
                    ),
                ),
            },
        }
    }
}

/// Whether a refusal is framed for a streaming client. A request without a
/// content type has not said what it is, and is answered as a stream; any
/// other refusal is framed as the call was announced.
pub open spec fn spec_refusal_for_streaming(
    version: Option<Seq<char>>,
    content_type: Option<Seq<char>>,
    for_streaming: bool,
) -> bool {
    if spec_version_supported(version) && content_type is None {
        true
    } else {
        for_streaming
    }
}

/// The outcome of checking the headers: what they decide, or the response
/// that refuses the request. A refusal is sent in the binary family.
pub open spec fn spec_check_headers(
    version: Option<Seq<char>>,
    content_type: Option<Seq<char>>,
    for_streaming: bool,
) -> Result<ReqResInto, HttpResponseView> {
    match spec_negotiate(version, content_type, for_streaming) {
        Ok(encoding) => Ok(ReqResInto { binary: encoding == WireEncoding::Binary }),
        Err(error) => Err(
            spec_error_response(
                error,
                true,
                spec_refusal_for_streaming(version, content_type, for_streaming),
            ),
        ),
    }
}

/// Each of the four media types selects its encoding for its kind of call,
/// and none for the other kind.
pub proof fn lemma_four_pairs_are_accepted()
    ensures
        spec_accepted("application/json"@, false) == Some(WireEncoding::Json),
        spec_accepted("application/proto"@, false) == Some(WireEncoding::Binary),
        spec_accepted("application/connect+json"@, true) == Some(WireEncoding::Json),
        spec_accepted("application/connect+proto"@, true) == Some(WireEncoding::Binary),
        spec_accepted("application/json"@, true) is None,
        spec_accepted("application/proto"@, true) is None,
        spec_accepted("application/connect+json"@, false) is None,
        spec_accepted("application/connect+proto"@, false) is None,
{
    reveal_strlit("application/json");
    reveal_strlit("application/proto");
    reveal_strlit("application/connect+json");
    reveal_strlit("application/connect+proto");
    assert("application/json"@.len() == 16);
    assert("application/proto"@.len() == 17);
    assert("application/connect+json"@.len() == 24);
    assert("application/connect+proto"@.len() == 25);
}

/// A content type outside the four accepted pairs is refused as an invalid
/// argument, and a unary call learns of it by status 400.
pub proof fn lemma_unaccepted_content_type_is_refused(
    version: Option<Seq<char>>,
    content_type: Seq<char>,
    for_streaming: bool,
)
    requires
        spec_accepted(spec_normalize(content_type), for_streaming) is None,
    ensures
        spec_negotiate(version, Some(content_type), for_streaming) matches Err(error)
            && error.code == RpcErrorCode::InvalidArgument,
        spec_check_headers(version, Some(content_type), for_streaming) matches Err(response) && (
        !for_streaming ==> response.status == 400),
{
}

/// Negotiation succeeds exactly where the version is supported and the
/// content type, in normal form, is one of the four accepted pairs with the
/// kind of call.
pub proof fn lemma_negotiation_succeeds_on_accepted_pairs(
    version: Option<Seq<char>>,
    content_type: Option<Seq<char>>,
    for_streaming: bool,
)
    ensures
        spec_negotiate(version, content_type, for_streaming) is Ok <==> {
            &&& spec_version_supported(version)
            &&& content_type matches Some(value)
            &&& {
                let normal = spec_normalize(value);
                ||| (!for_streaming && normal == "application/json"@)
                ||| (!for_streaming && normal == "application/proto"@)
                ||| (for_streaming && normal == "application/connect+json"@)
                ||| (for_streaming && normal == "application/connect+proto"@)
            }
        },
        spec_negotiate(version, content_type, for_streaming) matches Err(error) ==> error.code
            == RpcErrorCode::InvalidArgument,
{
}

/// Builds an argument error whose message is `prefix` followed by `detail`.
fn invalid_argument(prefix: &str, detail: &Vec<char>) -> (error: RpcError)
    ensures
        error@ == spec_invalid_argument(prefix@ + detail@),
{
    RpcError::new(RpcErrorCode::InvalidArgument, text_with(prefix, detail))
}

/// Whether a protocol version header, if there is one, names the supported
/// version.
pub fn version_supported(version: &Option<Vec<char>>) -> (supported: bool)
    ensures
        supported == spec_version_supported(spec_text(*version)),
{
    match version {
        Some(value) => text_is(value, "1"),
        None => true,
    }
}

/// The encoding that a normalized media type selects for a unary or a
/// streaming call.
pub fn accepted(media_type: &Vec<char>, for_streaming: bool) -> (encoding: Option<WireEncoding>)
    ensures
        encoding == spec_accepted(media_type@, for_streaming),
{
    if !for_streaming && text_is(media_type, "application/json") {
        Some(WireEncoding::Json)
    } else if !for_streaming && text_is(media_type, "application/proto") {
        Some(WireEncoding::Binary)
    } else if for_streaming && text_is(media_type, "application/connect+json") {
        Some(WireEncoding::Json)
    } else if for_streaming && text_is(media_type, "application/connect+proto") {
        Some(WireEncoding::Binary)
    } else {
        None
    }
}

/// Negotiates the wire encoding from the text of the protocol version header
/// and of the content type header.
pub fn negotiate(
    version: &Option<Vec<char>>,
    content_type: &Option<Vec<char>>,
    for_streaming: bool,
) -> (outcome: Result<WireEncoding, RpcError>)
    ensures
        match spec_negotiate(spec_text(*version), spec_text(*content_type), for_streaming) {
            Ok(encoding) => outcome == Ok::<WireEncoding, RpcError>(encoding),
            Err(error) => outcome matches Err(e) && e@ == error,
        },
{
    if let Some(value) = version {
        if !text_is(value, "1") {
            return Err(invalid_argument("Unsupported protocol version: ", value));
        }
    }
    match content_type {
        None => Err(invalid_argument("Missing Content-Type header", &Vec::new())),
        Some(value) => {
            let normal = normalize(value);
            match accepted(&normal, for_streaming) {
                Some(encoding) => Ok(encoding),
                None => Err(invalid_argument("Wrong or unknown Content-Type: ", &normal)),
            }
        },
    }
}

/// Validates the protocol version and the content type of a request and
/// derives the wire encoding from them.
pub fn validate(headers: &HeaderMap<HeaderValue>, for_streaming: bool) -> (outcome: Result<
    WireEncoding,
    RpcError,
>)
    ensures
        match spec_negotiate(
            spec_header(*headers, "connect-protocol-version"@),
            spec_header(*headers, "content-type"@),
            for_streaming,
        ) {
            Ok(encoding) => outcome == Ok::<WireEncoding, RpcError>(encoding),
            Err(error) => outcome matches Err(e) && e@ == error,
        },
{
    let version = header(headers, "connect-protocol-version");
    let content_type = header(headers, "content-type");
    negotiate(&version, &content_type, for_streaming)
}

/// Checks the text of the protocol version header and of the content type
/// header: what they decide, or the response that refuses the request.
pub fn check_headers(
    version: &Option<Vec<char>>,
    content_type: &Option<Vec<char>>,
    for_streaming: bool,
) -> (outcome: Result<ReqResInto, HttpResponse>)
    ensures
        match spec_check_headers(spec_text(*version), spec_text(*content_type), for_streaming) {
            Ok(into) => outcome == Ok::<ReqResInto, HttpResponse>(into),
            Err(response) => outcome matches Err(r) && r@ == response,
        },
{
    match negotiate(version, content_type, for_streaming) {
        Ok(encoding) => Ok(ReqResInto { binary: encoding == WireEncoding::Binary }),
        Err(error) => {
            let streaming = if version_supported(version) && content_type.is_none() {
                true
            } else {
                for_streaming
            };
            Err(encode_error_response(&error, true, streaming))
        },
    }
}

/// Checks the headers of a request before its body is touched: the protocol
/// version, if given, and the content type, which decides the encoding. A
/// request that fails the check is answered by the response returned.
pub fn decode_check_headers(headers: &HeaderMap<HeaderValue>, for_streaming: bool) -> (outcome:
    Result<ReqResInto, HttpResponse>)
    ensures
        match spec_check_headers(
            spec_header(*headers, "connect-protocol-version"@),
            spec_header(*headers, "content-type"@),
            for_streaming,
        ) {
            Ok(into) => outcome == Ok::<ReqResInto, HttpResponse>(into),
            Err(response) => outcome matches Err(r) && r@ == response,
        },
{
    let version = header(headers, "connect-protocol-version");
    let content_type = header(headers, "content-type");
    check_headers(&version, &content_type, for_streaming)
}

/// How reading the body of a request and decoding it as a message ended.
#[derive(Debug)]
pub enum PayloadOutcome<M> {
    /// The body held a message.
    Decoded(M),
    /// The body could not be read; the text says why.
    Unreadable(String),
    /// The body was read and is no message; the text is the parser's.
    Malformed(String),
}

/// How reading and decoding ended, with the texts as plain values.
pub ghost enum PayloadView<M> {
    Decoded(M),
    Unreadable(Seq<char>),
    Malformed(Seq<char>),
}

impl<M> View for PayloadOutcome<M> {
    type V = PayloadView<M>;

    open spec fn view(&self) -> PayloadView<M> {
        match self {
            PayloadOutcome::Decoded(message) => PayloadView::Decoded(*message),
            PayloadOutcome::Unreadable(detail) => PayloadView::Unreadable(detail@),
            PayloadOutcome::Malformed(detail) => PayloadView::Malformed(detail@),
        }
    }
}

/// The error that reports a payload that was not read or not decoded; none
/// where a message was decoded.
pub open spec fn spec_payload_error<M>(outcome: PayloadView<M>, as_binary: bool) -> Option<
    RpcErrorView,
> {
    match outcome {
        PayloadView::Decoded(_) => None,
        PayloadView::Unreadable(detail) => Some(
            spec_invalid_argument("Failed to read request body. "@ + detail),
        ),
        PayloadView::Malformed(detail) => Some(
            spec_invalid_argument(
                if as_binary {
                    "Failed to decode binary protobuf. "@ + detail
                } else {
                    "Failed to decode JSON protobuf. "@ + detail
                },
            ),
        ),
    }
}

/// What reading and decoding the payload comes to: the message, or the
/// response that reports why there is none.
pub open spec fn spec_decode_request_payload<M>(
    outcome: PayloadView<M>,
    as_binary: bool,
    for_streaming: bool,
) -> Result<M, HttpResponseView> {
    match outcome {
        PayloadView::Decoded(message) => Ok(message),
        _ => Err(
            spec_error_response(
                spec_payload_error(outcome, as_binary)->0,
                as_binary,
                for_streaming,
            ),
        ),
    }
}

/// The error that reports a body that could not be read.
fn unreadable_payload(detail: &str) -> (error: RpcError)
    ensures
        error@ == spec_invalid_argument("Failed to read request body. "@ + detail@),
{
    RpcError::new(
        RpcErrorCode::InvalidArgument,
        text_joined("Failed to read request body. ", detail),
    )
}

/// The error that reports a body that is no message.
fn malformed_payload(detail: &str, as_binary: bool) -> (error: RpcError)
    ensures
        error@ == spec_invalid_argument(
            if as_binary {
                "Failed to decode binary protobuf. "@ + detail@
            } else {
                "Failed to decode JSON protobuf. "@ + detail@
            },
        ),
{
    let message = if as_binary {
        text_joined("Failed to decode binary protobuf. ", detail)
    } else {
        text_joined("Failed to decode JSON protobuf. ", detail)
    };
    RpcError::new(RpcErrorCode::InvalidArgument, message)
}

/// Turns the outcome of reading and decoding the payload into the message,
/// or into the response that reports why there is none.
pub fn decode_request_payload<M>(
    outcome: PayloadOutcome<M>,
    as_binary: bool,
    for_streaming: bool,
) -> (decoded: Result<M, HttpResponse>)
    ensures
        match spec_decode_request_payload(outcome@, as_binary, for_streaming) {
            Ok(message) => decoded == Ok::<M, HttpResponse>(message),
            Err(refusal) => decoded matches Err(response) && response@ == refusal,
        },
{
    match outcome {
        PayloadOutcome::Decoded(message) => Ok(message),
        PayloadOutcome::Unreadable(detail) => {
            let error = unreadable_payload(detail.as_str());
            Err(encode_error_response(&error, as_binary, for_streaming))
        },
        PayloadOutcome::Malformed(detail) => {
            let error = malformed_payload(detail.as_str(), as_binary);
            Err(encode_error_response(&error, as_binary, for_streaming))
        },
    }
}

} // verus!
