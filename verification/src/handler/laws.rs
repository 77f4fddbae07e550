//! What holds of every call: the laws of the pipeline, stated over runs of
//! events and proved from the step of the state machine.

use crate::error::RpcErrorView;
use crate::handler::codec::{
    spec_encoding, spec_error_response, spec_message_response, PayloadView, ReqResInto,
};
use crate::handler::handler_unary::{spec_new, spec_step, ActionView, EventView, PipelineView, Stage};
use crate::response::ContentType;
use vstd::prelude::*;

verus! {

/// What the pipeline asks for, event by event, over a run of events.
pub open spec fn spec_run<V, M, R>(p: PipelineView<V>, events: Seq<EventView<V, M, R>>) -> Seq<
    Option<ActionView<V, M, R>>,
>
    decreases events.len(),
{
    if events.len() == 0 {
        Seq::empty()
    } else {
        let (next, asked) = spec_step(p, events[0]);
        seq![asked] + spec_run(next, events.drop_first())
    }
}

/// The state that a run of events leaves the pipeline in.
pub open spec fn spec_reached<V, M, R>(
    p: PipelineView<V>,
    events: Seq<EventView<V, M, R>>,
) -> PipelineView<V>
    decreases events.len(),
{
    if events.len() == 0 {
        p
    } else {
        spec_reached(spec_step(p, events[0]).0, events.drop_first())
    }
}

/// How much of a call lies behind: every piece of work asked for adds one.
pub open spec fn spec_progress<V>(p: PipelineView<V>) -> nat {
    match p.stage {
        Stage::Start => 0,
        Stage::HeadersValidated => 1 + p.context.len(),
        Stage::Extracted => 1 + p.extractors,
        Stage::BodyDecoded => 2 + p.extractors,
        Stage::HandlerInvoked => 3 + p.extractors,
        Stage::ResponseEncoded | Stage::ErrorShortCircuit => 4 + p.extractors,
    }
}

/// The events of a call in which the headers are accepted, every extractor
/// gives its value and the payload decodes.
pub open spec fn spec_events_up_to_handler<V, M, R>(
    into: ReqResInto,
    values: Seq<V>,
    message: M,
) -> Seq<EventView<V, M, R>> {
    seq![EventView::HeadersChecked(Ok(into))] + spec_extractions(values)
        + seq![EventView::Payload(PayloadView::Decoded(message))]
}

/// One successful extraction for each value, in order.
pub open spec fn spec_extractions<V, M, R>(values: Seq<V>) -> Seq<EventView<V, M, R>> {
    Seq::new(values.len(), |i: int| EventView::Extracted(Ok(values[i])))
}

/// A step keeps the context fitting the stage and never changes the length
/// of the chain.
pub proof fn lemma_step_keeps_well_formed<V, M, R>(p: PipelineView<V>, event: EventView<V, M, R>)
    requires
        p.wf(),
    ensures
        spec_step(p, event).0.wf(),
        spec_step(p, event).0.extractors == p.extractors,
{
}

/// Nothing happens before the headers are checked: a call that has not begun
/// takes no other event, and a refusal of the headers ends it.
pub proof fn lemma_negotiation_comes_first<V, M, R>(p: PipelineView<V>, event: EventView<V, M, R>)
    requires
        p.stage == Stage::Start,
    ensures
        !(event is HeadersChecked) ==> spec_step(p, event) == (p, None::<ActionView<V, M, R>>),
        event matches EventView::HeadersChecked(Err(response)) ==> spec_step(p, event)
            == p.refused::<M, R>(response),
        event matches EventView::HeadersChecked(Ok(into)) ==> spec_step(p, event).0.encoding
            == spec_encoding(into.binary),
{
}

/// Once the headers are accepted the encoding stays what it is, and the
/// payload and the response message are handled in it.
pub proof fn lemma_encoding_is_fixed<V, M, R>(p: PipelineView<V>, event: EventView<V, M, R>)
    requires
        p.stage != Stage::Start,
    ensures
        spec_step(p, event).0.encoding == p.encoding,
        spec_step(p, event).1 matches Some(ActionView::DecodePayload(encoding)) ==> encoding
            == p.encoding,
        spec_step(p, event).1 matches Some(ActionView::Encode(encoding, _)) ==> encoding
            == p.encoding,
{
}

/// Past negotiation a call is answered in one of two ways: with the handler's
/// message, under status 200 and the media type of the call's encoding, or
/// with an error document, under the status of its code and as JSON.
pub proof fn lemma_responses_follow_the_encoding<V, M, R>(
    p: PipelineView<V>,
    event: EventView<V, M, R>,
)
    requires
        p.stage != Stage::Start,
    ensures
        spec_step(p, event).1 matches Some(ActionView::Respond(response)) ==> {
            if spec_step(p, event).0.stage == Stage::ResponseEncoded {
                &&& event matches EventView::Encoded(Ok(bytes))
                &&& response == spec_message_response(p.binary(), bytes)
                &&& response.status == 200
                &&& response.content_type == if p.binary() {
                    ContentType::Proto
                } else {
                    ContentType::Json
                }
            } else {
                &&& response.content_type == ContentType::Json
                &&& 400 <= response.status <= 599
            }
        },
{
}

/// Extractors run in the order of the chain, one at a time, and the payload is
/// touched only when each of them has given its value: the pipeline asks for
/// the extractor at place `k` exactly when `k` values have been gathered and
/// the chain is longer than `k`, and for the payload exactly when the chain
/// is exhausted.
pub proof fn lemma_extraction_comes_in_order<V, M, R>(
    p: PipelineView<V>,
    event: EventView<V, M, R>,
)
    requires
        p.wf(),
    ensures
        spec_step(p, event).1 matches Some(ActionView::Extract(place)) ==> {
            let next = spec_step(p, event).0;
            &&& next.stage == Stage::HeadersValidated
            &&& place == next.context.len()
            &&& place < next.extractors
            &&& (p.stage == Stage::Start && place == 0) || (p.stage == Stage::HeadersValidated
                && place == p.context.len() + 1)
        },
        spec_step(p, event).1 matches Some(ActionView::DecodePayload(_)) ==> {
            let next = spec_step(p, event).0;
            &&& next.stage == Stage::Extracted
            &&& next.context.len() == next.extractors
            &&& p.stage == Stage::Start || p.stage == Stage::HeadersValidated
        },
        p.stage == Stage::HeadersValidated ==> (event matches EventView::Extracted(Ok(value))
            ==> spec_step(p, event).0.context == p.context.push(value)),
{
}

/// The pipeline hands on what it is given and alters nothing: the handler is
/// called with the whole context and the message that was decoded, only when
/// the payload has decoded, and the message that goes to the encoder is the
/// one that the handler returned.
pub proof fn lemma_values_and_messages_pass_unchanged<V, M, R>(
    p: PipelineView<V>,
    event: EventView<V, M, R>,
)
    requires
        p.wf(),
    ensures
        spec_step(p, event).1 matches Some(ActionView::Invoke(context, message)) ==> {
            &&& p.stage == Stage::Extracted
            &&& event == EventView::<V, M, R>::Payload(PayloadView::Decoded(message))
            &&& context == p.context
            &&& context.len() == p.extractors
        },
        spec_step(p, event).1 matches Some(ActionView::Encode(_, message)) ==> {
            &&& p.stage == Stage::BodyDecoded
            &&& event == EventView::<V, M, R>::Handled(Ok(message))
        },
{
}

/// A response is what ends a call: the pipeline hands one out exactly on the
/// step that takes it to a final stage, and a failure always comes with one.
pub proof fn lemma_response_ends_the_call<V, M, R>(p: PipelineView<V>, event: EventView<V, M, R>)
    ensures
        spec_step(p, event).1 matches Some(ActionView::Respond(_)) <==> !p.terminal() && spec_step(
            p,
            event,
        ).0.terminal(),
        p.terminal() ==> spec_step(p, event) == (p, None::<ActionView<V, M, R>>),
{
}

/// Every piece of work that the pipeline asks for brings the call forward, so
/// a call of `n` extractors is over after at most `n + 4` of them.
pub proof fn lemma_call_makes_progress<V, M, R>(p: PipelineView<V>, event: EventView<V, M, R>)
    requires
        p.wf(),
    ensures
        spec_progress(p) <= 4 + p.extractors,
        spec_step(p, event).1 is Some ==> spec_progress(spec_step(p, event).0) > spec_progress(p),
        spec_step(p, event).1 is None ==> spec_step(p, event).0 == p,
        spec_progress(p) == 4 + p.extractors <==> p.terminal(),
{
}

/// A run answers every event, with a piece of work or with nothing.
pub proof fn lemma_run_answers_every_event<V, M, R>(
    p: PipelineView<V>,
    events: Seq<EventView<V, M, R>>,
)
    ensures
        spec_run(p, events).len() == events.len(),
    decreases events.len(),
{
    if events.len() > 0 {
        lemma_run_answers_every_event(spec_step(p, events[0]).0, events.drop_first());
    }
}

/// A run of one event is one step.
pub proof fn lemma_run_of_one_event<V, M, R>(p: PipelineView<V>, event: EventView<V, M, R>)
    ensures
        spec_run(p, seq![event]) == seq![spec_step(p, event).1],
        spec_reached(p, seq![event]) == spec_step(p, event).0,
{
    let next = spec_step(p, event).0;
    let rest = seq![event].drop_first();
    assert(spec_run(next, rest) == Seq::<Option<ActionView<V, M, R>>>::empty());
    assert(spec_reached(next, rest) == next);
}

/// A run over two runs of events is the first run, then the second from
/// where the first has left the pipeline.
pub proof fn lemma_run_in_two_parts<V, M, R>(
    p: PipelineView<V>,
    first: Seq<EventView<V, M, R>>,
    second: Seq<EventView<V, M, R>>,
)
    ensures
        spec_run(p, first + second) == spec_run(p, first) + spec_run(
            spec_reached(p, first),
            second,
        ),
        spec_reached(p, first + second) == spec_reached(spec_reached(p, first), second),
    decreases first.len(),
{
    if first.len() > 0 {
        assert((first + second).drop_first() == first.drop_first() + second);
        lemma_run_in_two_parts(spec_step(p, first[0]).0, first.drop_first(), second);
    }
}

/// A call that is over asks for nothing more, whatever it is told.
pub proof fn lemma_terminal_asks_nothing<V, M, R>(
    p: PipelineView<V>,
    events: Seq<EventView<V, M, R>>,
)
    requires
        p.terminal(),
    ensures
        spec_run(p, events).len() == events.len(),
        forall|i: int| 0 <= i < events.len() ==> spec_run(p, events)[i] is None,
        spec_reached(p, events) == p,
    decreases events.len(),
{
    if events.len() > 0 {
        lemma_terminal_asks_nothing(p, events.drop_first());
    }
}

/// A call is answered once: after the step that hands out a response, the
/// pipeline asks for nothing, whatever it is told.
pub proof fn lemma_nothing_follows_a_response<V, M, R>(
    p: PipelineView<V>,
    events: Seq<EventView<V, M, R>>,
    i: int,
    j: int,
)
    requires
        0 <= i < j < events.len(),
        spec_run(p, events)[i] matches Some(ActionView::Respond(_)),
    ensures
        spec_run(p, events)[j] is None,
    decreases i,
{
    lemma_run_answers_every_event(p, events);
    let next = spec_step(p, events[0]).0;
    let rest = events.drop_first();
    lemma_run_answers_every_event(next, rest);
    if i == 0 {
        lemma_response_ends_the_call(p, events[0]);
        lemma_terminal_asks_nothing(next, rest);
    } else {
        lemma_nothing_follows_a_response(next, rest, i - 1, j - 1);
    }
}

/// When an extractor fails, the call ends with the response that reports its
/// error, in the call's encoding and outside a stream; whatever the pipeline
/// is told afterwards, it asks for no further extractor, does not have the
/// body read, and stays as it is.
pub proof fn lemma_failed_extractor_ends_the_call<V, M, R>(
    p: PipelineView<V>,
    error: RpcErrorView,
    later: Seq<EventView<V, M, R>>,
)
    requires
        p.stage == Stage::HeadersValidated,
    ensures
        ({
            let (next, asked) = spec_step::<V, M, R>(p, EventView::Extracted(Err(error)));
            &&& next == p.at(Stage::ErrorShortCircuit)
            &&& asked == Some(
                ActionView::<V, M, R>::Respond(spec_error_response(error, p.binary(), false)),
            )
            &&& spec_run(next, later).len() == later.len()
            &&& forall|i: int| 0 <= i < later.len() ==> spec_run(next, later)[i] is None
            &&& spec_reached(next, later) == next
        }),
{
    lemma_terminal_asks_nothing(p.at(Stage::ErrorShortCircuit), later);
}

/// What the pipeline asks for when the extractor at `place` has given its
/// value: the next extractor, or the payload after the last one.
pub open spec fn spec_asked_after<V, M, R>(p: PipelineView<V>, place: nat) -> Option<
    ActionView<V, M, R>,
> {
    if place + 1 >= p.extractors {
        Some(ActionView::DecodePayload(p.encoding))
    } else {
        Some(ActionView::Extract(place + 1))
    }
}

/// While the extractors succeed, the context takes their values in the order
/// in which they come, and the pipeline asks for the extractors one after
/// the other, in the order of the chain, and for the payload after the last.
pub proof fn lemma_extractions_fill_the_context<V, M, R>(p: PipelineView<V>, values: Seq<V>)
    requires
        p.stage == Stage::HeadersValidated,
        p.context.len() + values.len() <= p.extractors,
    ensures
        spec_reached(p, spec_extractions::<V, M, R>(values)) == (PipelineView {
            stage: if values.len() > 0 && p.context.len() + values.len() == p.extractors {
                Stage::Extracted
            } else {
                Stage::HeadersValidated
            },
            context: p.context + values,
            ..p
        }),
        spec_run(p, spec_extractions::<V, M, R>(values)).len() == values.len(),
        forall|i: int|
            0 <= i < values.len() ==> #[trigger] spec_run(
                p,
                spec_extractions::<V, M, R>(values),
            )[i] == spec_asked_after::<V, M, R>(p, (p.context.len() + i) as nat),
    decreases values.len(),
{
    let events = spec_extractions::<V, M, R>(values);
    lemma_run_answers_every_event(p, events);
    if values.len() > 0 {
        let next = spec_step(p, events[0]).0;
        let rest = values.drop_first();
        assert(events.drop_first() == spec_extractions::<V, M, R>(rest));
        assert(p.context.push(values[0]) + rest == p.context + values);
        if next.stage == Stage::HeadersValidated {
            lemma_extractions_fill_the_context::<V, M, R>(next, rest);
        } else {
            assert(spec_reached(next, events.drop_first()) == next);
        }
    }
}

/// In a call where the headers are accepted, every extractor gives its value
/// and the payload decodes, the handler is called with exactly the extracted
/// values, in the order of the chain, and the decoded message.
pub proof fn lemma_handler_is_called_with_values_in_order<V, M, R>(
    into: ReqResInto,
    values: Seq<V>,
    message: M,
)
    ensures
        ({
            let events = spec_events_up_to_handler::<V, M, R>(into, values, message);
            let fresh = spec_new::<V>(values.len());
            &&& spec_run(fresh, events).len() == values.len() + 2
            &&& spec_run(fresh, events).last() == Some(
                ActionView::<V, M, R>::Invoke(values, message),
            )
            &&& spec_reached(fresh, events).stage == Stage::BodyDecoded
        }),
{
    let fresh = spec_new::<V>(values.len());
    let head = seq![EventView::<V, M, R>::HeadersChecked(Ok(into))];
    let middle = spec_extractions::<V, M, R>(values);
    let last = seq![EventView::<V, M, R>::Payload(PayloadView::Decoded(message))];
    let events = spec_events_up_to_handler::<V, M, R>(into, values, message);
    let begun = spec_step(fresh, head[0]).0;
    lemma_run_of_one_event(fresh, head[0]);
    assert(head == seq![head[0]]);
    lemma_run_in_two_parts(fresh, head, middle);
    lemma_run_in_two_parts(fresh, head + middle, last);
    lemma_run_answers_every_event(fresh, events);
    if values.len() > 0 {
        lemma_extractions_fill_the_context::<V, M, R>(begun, values);
    }
    lemma_run_of_one_event(spec_reached(fresh, head + middle), last[0]);
}

/// The events of a call in which the headers are accepted, the first
/// extractors give these values and the next one fails, and whatever the
/// pipeline is told after that.
pub open spec fn spec_events_with_failure<V, M, R>(
    into: ReqResInto,
    values: Seq<V>,
    error: RpcErrorView,
    later: Seq<EventView<V, M, R>>,
) -> Seq<EventView<V, M, R>> {
    seq![EventView::HeadersChecked(Ok(into))] + spec_extractions(values)
        + seq![EventView::Extracted(Err(error))] + later
}

/// In a call whose extractor at place `k` fails after `k` extractors have
/// given their values, the extractors at the places up to `k` are asked for,
/// in order and once each; then comes the response that reports the error;
/// then nothing. No extractor behind `k` runs and the payload is never asked
/// for.
pub proof fn lemma_nothing_runs_behind_a_failed_extractor<V, M, R>(
    extractors: nat,
    into: ReqResInto,
    values: Seq<V>,
    error: RpcErrorView,
    later: Seq<EventView<V, M, R>>,
)
    requires
        values.len() < extractors,
    ensures
        ({
            let events = spec_events_with_failure(into, values, error, later);
            let run = spec_run(spec_new::<V>(extractors), events);
            let k = values.len() as int;
            &&& run.len() == k + 2 + later.len()
            &&& forall|i: int| 0 <= i <= k ==> #[trigger] run[i] == Some(
                ActionView::<V, M, R>::Extract(i as nat),
            )
            &&& run[k + 1] == Some(
                ActionView::<V, M, R>::Respond(spec_error_response(error, into.binary, false)),
            )
            &&& forall|i: int| k + 2 <= i < run.len() ==> #[trigger] run[i] is None
        }),
{
    let fresh = spec_new::<V>(extractors);
    let head = seq![EventView::<V, M, R>::HeadersChecked(Ok(into))];
    let middle = spec_extractions::<V, M, R>(values);
    let failure = seq![EventView::<V, M, R>::Extracted(Err(error))];
    let begun = spec_step(fresh, head[0]).0;
    lemma_run_of_one_event(fresh, head[0]);
    lemma_extractions_fill_the_context::<V, M, R>(begun, values);
    let gathered = spec_reached(begun, middle);
    let ended = spec_step(gathered, failure[0]).0;
    lemma_run_of_one_event(gathered, failure[0]);
    lemma_terminal_asks_nothing(ended, later);
    lemma_run_in_two_parts(fresh, head, middle);
    lemma_run_in_two_parts(fresh, head + middle, failure);
    lemma_run_in_two_parts(fresh, head + middle + failure, later);
}

/// A call holds no state of its own before it begins: two calls with chains
/// of one length that are told the same things ask for the same work and give
/// the same response, byte for byte.
pub proof fn lemma_same_events_same_answers<V, M, R>(
    first: PipelineView<V>,
    second: PipelineView<V>,
    events: Seq<EventView<V, M, R>>,
)
    requires
        first.stage == Stage::Start,
        second.stage == Stage::Start,
        first.wf(),
        second.wf(),
        first.extractors == second.extractors,
    ensures
        spec_run(first, events) == spec_run(second, events),
    decreases events.len(),
{
    if events.len() > 0 {
        let (next_first, asked_first) = spec_step(first, events[0]);
        let next_second = spec_step(second, events[0]).0;
        if asked_first is Some && !next_first.terminal() {
            assert(first.context == second.context);
        } else if asked_first is Some {
            lemma_terminal_asks_nothing(next_first, events.drop_first());
            lemma_terminal_asks_nothing(next_second, events.drop_first());
        } else {
            lemma_same_events_same_answers(next_first, next_second, events.drop_first());
        }
    }
}

} // verus!
