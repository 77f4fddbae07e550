//! The pipeline of one unary call.
//!
//! A call passes through negotiation, context extraction, payload decoding,
//! the handler and response encoding, in this order, and every failure ends
//! it with a response. The pipeline does none of the outside work itself: it
//! is a state machine that is told how each piece of work ended and answers
//! with the next piece of work to do, or with the response to send.
//!
//! The pipeline is generic in what it carries: `V` is an extracted value, `M`
//! the request message and `R` the response message. It never looks into
//! them.

use crate::error::{RpcError, RpcErrorCode, RpcErrorView};
use crate::handler::codec::{
    decode_check_headers, decode_request_payload, encode_error_response,
    encode_message_response, spec_check_headers, spec_decode_request_payload, spec_encoding,
    spec_error_response, spec_message_response, PayloadOutcome, PayloadView, ReqResInto,
    WireEncoding,
};
use crate::headers::spec_header;
use crate::response::{HttpResponse, HttpResponseView};
use crate::text::text_joined;
use axum::http::{HeaderMap, HeaderValue};
use std::marker::PhantomData;
use vstd::prelude::*;

verus! {

/// How far a call has come.
#[derive(Clone, Copy, Debug, PartialEq, Eq, Hash, Structural)]
pub enum Stage {
    /// Nothing has been looked at yet.
    Start,
    /// The headers were accepted; the extractors are running.
    HeadersValidated,
    /// Every extractor has given its value; the payload is being decoded.
    Extracted,
    /// The message was decoded; the handler is running.
    BodyDecoded,
    /// The handler has returned a message; it is being encoded.
    HandlerInvoked,
    /// The call ended with the handler's message.
    ResponseEncoded,
    /// The call ended with an error.
    ErrorShortCircuit,
}

/// What the caller reports to the pipeline: how a piece of work ended.
#[derive(Debug)]
pub enum Event<V, M, R> {
    /// The headers were checked.
    HeadersChecked(Result<ReqResInto, HttpResponse>),
    /// The extractor that was asked for has run.
    Extracted(Result<V, RpcError>),
    /// The body was read and decoded.
    Payload(PayloadOutcome<M>),
    /// The handler has run and its result was converted.
    Handled(Result<R, RpcError>),
    /// The handler's message was encoded, or the text says why it was not.
    Encoded(Result<Vec<u8>, String>),
}

/// What the pipeline asks of the caller.
#[derive(Debug)]
pub enum Action<V, M, R> {
    /// Run the extractor at this place of the chain.
    Extract(usize),
    /// Read the body and decode it in this encoding.
    DecodePayload(WireEncoding),
    /// Call the handler with the extracted values, in the order of the
    /// chain, and the message.
    Invoke(Vec<V>, M),
    /// Encode the handler's message in this encoding.
    Encode(WireEncoding, R),
    /// Send this response; the call is over.
    Respond(HttpResponse),
}

/// The state of a pipeline as plain values.
pub ghost struct PipelineView<V> {
    pub stage: Stage,
    pub encoding: WireEncoding,
    /// The length of the extractor chain.
    pub extractors: nat,
    /// The values extracted so far and not yet handed to the handler.
    pub context: Seq<V>,
}

/// An event as plain values.
pub ghost enum EventView<V, M, R> {
    HeadersChecked(Result<ReqResInto, HttpResponseView>),
    Extracted(Result<V, RpcErrorView>),
    Payload(PayloadView<M>),
    Handled(Result<R, RpcErrorView>),
    Encoded(Result<Seq<u8>, Seq<char>>),
}

/// An action as plain values.
pub ghost enum ActionView<V, M, R> {
    Extract(nat),
    DecodePayload(WireEncoding),
    Invoke(Seq<V>, M),
    Encode(WireEncoding, R),
    Respond(HttpResponseView),
}

impl<V, M, R> View for Event<V, M, R> {
    type V = EventView<V, M, R>;

    open spec fn view(&self) -> EventView<V, M, R> {
        match self {
            Event::HeadersChecked(Ok(into)) => EventView::HeadersChecked(Ok(*into)),
            Event::HeadersChecked(Err(response)) => EventView::HeadersChecked(Err(response@)),
            Event::Extracted(Ok(value)) => EventView::Extracted(Ok(*value)),
            Event::Extracted(Err(error)) => EventView::Extracted(Err(error@)),
            Event::Payload(outcome) => EventView::Payload(outcome@),
            Event::Handled(Ok(message)) => EventView::Handled(Ok(*message)),
            Event::Handled(Err(error)) => EventView::Handled(Err(error@)),
            Event::Encoded(Ok(bytes)) => EventView::Encoded(Ok(bytes@)),
            Event::Encoded(Err(detail)) => EventView::Encoded(Err(detail@)),
        }
    }
}

impl<V, M, R> View for Action<V, M, R> {
    type V = ActionView<V, M, R>;

    open spec fn view(&self) -> ActionView<V, M, R> {
        match self {
            Action::Extract(place) => ActionView::Extract(*place as nat),
            Action::DecodePayload(encoding) => ActionView::DecodePayload(*encoding),
            Action::Invoke(context, message) => ActionView::Invoke(context@, *message),
            Action::Encode(encoding, message) => ActionView::Encode(*encoding, *message),
            Action::Respond(response) => ActionView::Respond(response@),
        }
    }
}

/// What an optional action says.
pub open spec fn spec_asked<V, M, R>(action: Option<Action<V, M, R>>) -> Option<
    ActionView<V, M, R>,
> {
    match action {
        Some(asked) => Some(asked@),
        None => None,
    }
}

impl<V> PipelineView<V> {
    /// The context fits the stage: it grows by one value at a time while the
    /// extractors run, is complete when the payload is decoded, and is gone
    /// once the handler has it.
    pub open spec fn wf(self) -> bool {
        match self.stage {
            Stage::Start => self.context.len() == 0,
            Stage::HeadersValidated => self.context.len() < self.extractors,
            Stage::Extracted => self.context.len() == self.extractors,
            Stage::BodyDecoded
            | Stage::HandlerInvoked
            | Stage::ResponseEncoded
            | Stage::ErrorShortCircuit => self.context.len() == 0,
        }
    }

    /// The call is over.
    pub open spec fn terminal(self) -> bool {
        self.stage == Stage::ResponseEncoded || self.stage == Stage::ErrorShortCircuit
    }

    /// Whether the call runs in the binary encoding.
    pub open spec fn binary(self) -> bool {
        self.encoding == WireEncoding::Binary
    }

    /// The same call at a later stage, its context given away or dropped.
    pub open spec fn at(self, stage: Stage) -> PipelineView<V> {
        PipelineView { stage, context: Seq::empty(), ..self }
    }

    /// The call ended by this response.
    pub open spec fn refused<M, R>(self, response: HttpResponseView) -> (
        PipelineView<V>,
        Option<ActionView<V, M, R>>,
    ) {
        (self.at(Stage::ErrorShortCircuit), Some(ActionView::Respond(response)))
    }

    /// The call ended by this error, reported in the call's encoding.
    pub open spec fn failed<M, R>(self, error: RpcErrorView) -> (
        PipelineView<V>,
        Option<ActionView<V, M, R>>,
    ) {
        self.refused(spec_error_response(error, self.binary(), false))
    }
}

/// A call that has not begun, with this many extractors in its chain.
pub open spec fn spec_new<V>(extractors: nat) -> PipelineView<V> {
    PipelineView {
        stage: Stage::Start,
        encoding: WireEncoding::Binary,
        extractors,
        context: Seq::empty(),
    }
}

/// The error that reports a message that could not be encoded.
pub open spec fn spec_encode_failure(detail: Seq<char>) -> RpcErrorView {
    RpcErrorView {
        code: RpcErrorCode::Internal,
        message: "Failed to serialize response: "@ + detail,
    }
}

/// One step of a call: the state after the event, and what the pipeline asks
/// for next. An event that the stage does not wait for changes nothing and
/// asks for nothing.
pub open spec fn spec_step<V, M, R>(p: PipelineView<V>, event: EventView<V, M, R>) -> (
    PipelineView<V>,
    Option<ActionView<V, M, R>>,
) {
    match (p.stage, event) {
        (Stage::Start, EventView::HeadersChecked(Err(response))) => p.refused(response),
        (Stage::Start, EventView::HeadersChecked(Ok(into))) => {
            let encoding = spec_encoding(into.binary);
            if p.extractors == 0 {
                (
                    PipelineView { stage: Stage::Extracted, encoding, ..p },
                    Some(ActionView::DecodePayload(encoding)),
                )
            } else {
                (
                    PipelineView { stage: Stage::HeadersValidated, encoding, ..p },
                    Some(ActionView::Extract(0)),
                )
            }
        },
        (Stage::HeadersValidated, EventView::Extracted(Err(error))) => p.failed(error),
        (Stage::HeadersValidated, EventView::Extracted(Ok(value))) => {
            let context = p.context.push(value);
            if context.len() >= p.extractors {
                (
                    PipelineView { stage: Stage::Extracted, context, ..p },
                    Some(ActionView::DecodePayload(p.encoding)),
                )
            } else {
                (PipelineView { context, ..p }, Some(ActionView::Extract(context.len())))
            }
        },
        (Stage::Extracted, EventView::Payload(outcome)) => {
            match spec_decode_request_payload(outcome, p.binary(), false) {
                Ok(message) => (
                    p.at(Stage::BodyDecoded),
                    Some(ActionView::Invoke(p.context, message)),
                ),
                Err(response) => p.refused(response),
            }
        },
        (Stage::BodyDecoded, EventView::Handled(Err(error))) => p.failed(error),
        (Stage::BodyDecoded, EventView::Handled(Ok(message))) => (
            p.at(Stage::HandlerInvoked),
            Some(ActionView::Encode(p.encoding, message)),
        ),
        (Stage::HandlerInvoked, EventView::Encoded(Err(detail))) => p.failed(
            spec_encode_failure(detail),
        ),
        (Stage::HandlerInvoked, EventView::Encoded(Ok(bytes))) => (
            p.at(Stage::ResponseEncoded),
            Some(ActionView::Respond(spec_message_response(p.binary(), bytes))),
        ),
        _ => (p, None),
    }
}

/// The pipeline of one call, whose extractors give values of type `V`, whose
/// request message is an `M` and whose response message is an `R`.
#[derive(Debug)]
pub struct Pipeline<V, M, R> {
    stage: Stage,
    encoding: WireEncoding,
    extractors: usize,
    context: Vec<V>,
    messages: PhantomData<(M, R)>,
}

impl<V, M, R> View for Pipeline<V, M, R> {
    type V = PipelineView<V>;

    closed spec fn view(&self) -> PipelineView<V> {
        PipelineView {
            stage: self.stage,
            encoding: self.encoding,
            extractors: self.extractors as nat,
            context: self.context@,
        }
    }
}

impl<V, M, R> Pipeline<V, M, R> {
    #[verifier::type_invariant]
    spec fn well_formed(self) -> bool {
        self@.wf()
    }

    /// A pipeline for a call whose handler takes the values of this many
    /// extractors before the message.
    pub fn new(extractors: usize) -> (pipeline: Pipeline<V, M, R>)
        ensures
            pipeline@ == spec_new::<V>(extractors as nat),
    {
        Pipeline::assemble(Stage::Start, WireEncoding::Binary, extractors, Vec::new())
    }

    /// How far the call has come.
    pub fn stage(&self) -> (stage: Stage)
        ensures
            stage == self@.stage,
            self@.wf(),
    {
        proof {
            use_type_invariant(self);
        }
        self.stage
    }

    /// The encoding of the call. It is negotiated when the headers are
    /// accepted and says nothing before.
    pub fn encoding(&self) -> (encoding: WireEncoding)
        ensures
            encoding == self@.encoding,
    {
        self.encoding
    }

    /// The number of extracted values that wait for the handler.
    pub fn extracted(&self) -> (extracted: usize)
        ensures
            extracted == self@.context.len(),
    {
        self.context.len()
    }

    /// Whether the call is over.
    pub fn is_terminal(&self) -> (terminal: bool)
        ensures
            terminal == self@.terminal(),
    {
        self.stage == Stage::ResponseEncoded || self.stage == Stage::ErrorShortCircuit
    }

    /// A pipeline of these parts.
    fn assemble(stage: Stage, encoding: WireEncoding, extractors: usize, context: Vec<V>) -> (made:
        Pipeline<V, M, R>)
        requires
            (PipelineView { stage, encoding, extractors: extractors as nat, context: context@ }).wf(),
        ensures
            made@ == (PipelineView {
                stage,
                encoding,
                extractors: extractors as nat,
                context: context@,
            }),
    {
        Pipeline { stage, encoding, extractors, context, messages: PhantomData }
    }

    /// The same call at a later stage, without its context.
    fn at(self, stage: Stage) -> (next: Pipeline<V, M, R>)
        requires
            stage != Stage::Start,
            stage != Stage::HeadersValidated,
            stage == Stage::Extracted ==> self@.extractors == 0,
        ensures
            next@ == self@.at(stage),
    {
        Pipeline::assemble(stage, self.encoding, self.extractors, Vec::new())
    }

    /// Ends the call with this response.
    fn refuse(self, response: HttpResponse) -> (outcome: (
        Pipeline<V, M, R>,
        Option<Action<V, M, R>>,
    ))
        ensures
            (outcome.0@, spec_asked(outcome.1)) == self@.refused::<M, R>(response@),
    {
        (self.at(Stage::ErrorShortCircuit), Some(Action::Respond(response)))
    }

    /// Ends the call with an error, reported in the call's encoding.
    fn fail(self, error: &RpcError) -> (outcome: (Pipeline<V, M, R>, Option<Action<V, M, R>>))
        ensures
            (outcome.0@, spec_asked(outcome.1)) == self@.failed::<M, R>(error@),
    {
        let response = encode_error_response(error, self.encoding == WireEncoding::Binary, false);
        self.refuse(response)
    }

    /// Takes one event and says what to do next: `None` where the stage does
    /// not wait for such an event, and then nothing has changed.
    pub fn step(self, event: Event<V, M, R>) -> (outcome: (
        Pipeline<V, M, R>,
        Option<Action<V, M, R>>,
    ))
        ensures
            (outcome.0@, spec_asked(outcome.1)) == spec_step(self@, event@),
    {
        proof {
            use_type_invariant(&self);
        }
        let binary = self.encoding == WireEncoding::Binary;
        let encoding = self.encoding;
        let extractors = self.extractors;
        match self.stage {
            Stage::Start => match event {
                Event::HeadersChecked(Err(response)) => self.refuse(response),
                Event::HeadersChecked(Ok(into)) => {
                    let encoding = into.encoding();
                    if extractors == 0 {
                        (
                            Pipeline::assemble(Stage::Extracted, encoding, extractors, self.context),
                            Some(Action::DecodePayload(encoding)),
                        )
                    } else {
                        (
                            Pipeline::assemble(
                                Stage::HeadersValidated,
                                encoding,
                                extractors,
                                self.context,
                            ),
                            Some(Action::Extract(0)),
                        )
                    }
                },
                _ => (self, None),
            },
            Stage::HeadersValidated => match event {
                Event::Extracted(Err(error)) => self.fail(&error),
                Event::Extracted(Ok(value)) => {
                    let mut context = self.context;
                    context.push(value);
                    let extracted = context.len();
                    if extracted >= extractors {
                        (
                            Pipeline::assemble(Stage::Extracted, encoding, extractors, context),
                            Some(Action::DecodePayload(encoding)),
                        )
                    } else {
                        (
                            Pipeline::assemble(
                                Stage::HeadersValidated,
                                encoding,
                                extractors,
                                context,
                            ),
                            Some(Action::Extract(extracted)),
                        )
                    }
                },
                _ => (self, None),
            },
            Stage::Extracted => match event {
                Event::Payload(outcome) => match decode_request_payload(outcome, binary, false) {
                    Ok(message) => (
                        Pipeline::assemble(Stage::BodyDecoded, encoding, extractors, Vec::new()),
                        Some(Action::Invoke(self.context, message)),
                    ),
                    Err(response) => self.refuse(response),
                },
                _ => (self, None),
            },
            Stage::BodyDecoded => match event {
                Event::Handled(Err(error)) => self.fail(&error),
                Event::Handled(Ok(message)) => (
                    self.at(Stage::HandlerInvoked),
                    Some(Action::Encode(encoding, message)),
                ),
                _ => (self, None),
            },
            Stage::HandlerInvoked => match event {
                Event::Encoded(Err(detail)) => {
                    let error = RpcError::new(
                        RpcErrorCode::Internal,
                        text_joined("Failed to serialize response: ", detail.as_str()),
                    );
                    self.fail(&error)
                },
                Event::Encoded(Ok(bytes)) => (
                    self.at(Stage::ResponseEncoded),
                    Some(Action::Respond(encode_message_response(binary, bytes))),
                ),
                _ => (self, None),
            },
            Stage::ResponseEncoded => (self, None),
            Stage::ErrorShortCircuit => (self, None),
        }
    }

    /// Begins the call: checks the headers of the request, as those of a
    /// unary call, and takes the outcome as the first event.
    pub fn begin(self, headers: &HeaderMap<HeaderValue>) -> (outcome: (
        Pipeline<V, M, R>,
        Option<Action<V, M, R>>,
    ))
        ensures
            (outcome.0@, spec_asked(outcome.1)) == spec_step::<V, M, R>(
                self@,
                EventView::HeadersChecked(
                    spec_check_headers(
                        spec_header(*headers, "connect-protocol-version"@),
                        spec_header(*headers, "content-type"@),
                        false,
                    ),
                ),
            ),
    {
        let checked = decode_check_headers(headers, false);
        self.step(Event::HeadersChecked(checked))
    }
}

} // verus!
