//! What a consumer behind the tee can and cannot notice.
//!
//! The statements here are about whole streams. A stream is modelled by the
//! events it causes: one `Element` per item, then `Exhausted`, then, where a
//! capture was asked for, `CaptureFinished` with however the write ended. A
//! run pairs such events with the tee's answers.

use vstd::prelude::*;
use crate::chunk::chunk_bytes;
use crate::json::member_text;
use crate::payload::KEY_RESPONSE_TEXT;
use crate::tee::{
    after_events, answers, element_bytes, is_capture_of, is_run, started, TeeAction, TeeEvent,
    TeeView,
};
use crate::text::utf8_lossy;
use crate::writer::WriteOutcome;

verus! {

/// The item that an event brings, if it brings one.
pub open spec fn element_of<E>(event: TeeEvent<E>) -> Option<Result<bytes::Bytes, E>> {
    match event {
        TeeEvent::Element(item) => Some(item),
        _ => None,
    }
}

/// The item that an action hands to the consumer, if it hands one on.
pub open spec fn forwarded_by<E>(action: TeeAction<E>) -> Option<Result<bytes::Bytes, E>> {
    match action {
        TeeAction::Forward(item) => Some(item),
        _ => None,
    }
}

/// The items that the wrapped stream produced, in order.
pub open spec fn elements<E>(events: Seq<TeeEvent<E>>) -> Seq<Result<bytes::Bytes, E>> {
    events.filter_map(|event: TeeEvent<E>| element_of(event))
}

/// The items that the consumer receives, in order.
pub open spec fn forwarded<E>(actions: Seq<TeeAction<E>>) -> Seq<Result<bytes::Bytes, E>> {
    actions.filter_map(|action: TeeAction<E>| forwarded_by(action))
}

/// The events of a stream that produces `items` and nothing else.
pub open spec fn element_events<E>(items: Seq<Result<bytes::Bytes, E>>) -> Seq<TeeEvent<E>> {
    items.map_values(|item: Result<bytes::Bytes, E>| TeeEvent::Element(item))
}

/// The events of a stream that produces `items` and then ends.
pub open spec fn stream_events<E>(items: Seq<Result<bytes::Bytes, E>>) -> Seq<TeeEvent<E>> {
    element_events(items).push(TeeEvent::Exhausted)
}

/// The bytes of the chunks among `items`, in order. Errors add nothing.
pub open spec fn collected_bytes<E>(items: Seq<Result<bytes::Bytes, E>>) -> Seq<u8> {
    items.flat_map(|item: Result<bytes::Bytes, E>| element_bytes(item))
}

/// The stream in which every chunk of `chunks` arrives as a success.
pub open spec fn successes<E>(chunks: Seq<bytes::Bytes>) -> Seq<Result<bytes::Bytes, E>> {
    chunks.map_values(|chunk: bytes::Bytes| Ok::<bytes::Bytes, E>(chunk))
}

/// The bytes of all of `chunks`, one chunk after the other.
pub open spec fn joined(chunks: Seq<bytes::Bytes>) -> Seq<u8> {
    chunks.flat_map(|chunk: bytes::Bytes| chunk_bytes(chunk))
}

/// A run stays a run when its last event and answer are left off.
proof fn lemma_run_without_last<E>(
    tee: TeeView,
    events: Seq<TeeEvent<E>>,
    actions: Seq<TeeAction<E>>,
)
    requires
        is_run(tee, events, actions),
        events.len() > 0,
    ensures
        is_run(tee, events.drop_last(), actions.drop_last()),
        answers(after_events(tee, events.drop_last()), events.last(), actions.last()),
{
    let shorter = events.drop_last();
    assert forall|i: int| 0 <= i < shorter.len() implies answers(
        after_events(tee, shorter.take(i)),
        #[trigger] shorter[i],
        actions.drop_last()[i],
    ) by {
        assert(shorter.take(i) == events.take(i));
        assert(shorter[i] == events[i]);
    }
    let n = events.len() - 1;
    assert(events.take(n) == shorter);
    assert(events[n] == events.last());
}

/// A tee that passes through stays that way, whatever happens.
pub proof fn lemma_pass_through_stays<E>(events: Seq<TeeEvent<E>>)
    ensures
        after_events(TeeView::PassThrough, events) == TeeView::PassThrough,
    decreases events.len(),
{
    if events.len() > 0 {
        lemma_pass_through_stays(events.drop_last());
    }
}

/// A collecting tee holds, after a run of elements, what it held before and
/// the bytes of every chunk among them, in the order of arrival.
pub proof fn lemma_collecting_grows<E>(
    collected: Seq<u8>,
    trace_id: Seq<char>,
    prefix: Seq<char>,
    meta: serde_json::Value,
    items: Seq<Result<bytes::Bytes, E>>,
)
    ensures
        after_events(
            TeeView::Collecting { collected, trace_id, prefix, meta },
            element_events(items),
        ) == (TeeView::Collecting {
            collected: collected + collected_bytes(items),
            trace_id,
            prefix,
            meta,
        }),
    decreases items.len(),
{
    let start = TeeView::Collecting { collected, trace_id, prefix, meta };
    let events = element_events(items);
    if items.len() == 0 {
        assert(collected_bytes(items) =~= Seq::<u8>::empty());
        assert(collected + collected_bytes(items) =~= collected);
    } else {
        let earlier = items.drop_last();
        lemma_collecting_grows(collected, trace_id, prefix, meta, earlier);
        assert(events.drop_last() == element_events(earlier));
        assert(events.last() == TeeEvent::Element(items.last()));
        assert(collected_bytes(items) == collected_bytes(earlier) + element_bytes(items.last()))
            by {
            earlier.lemma_flat_map_push(
                |item: Result<bytes::Bytes, E>| element_bytes(item),
                items.last(),
            );
            assert(earlier.push(items.last()) == items);
        }
        assert(collected + collected_bytes(earlier) + element_bytes(items.last()) =~= collected
            + collected_bytes(items));
    }
}

/// A stream of successes adds up to its chunks joined.
pub proof fn lemma_successes_join<E>(chunks: Seq<bytes::Bytes>)
    ensures
        collected_bytes(successes::<E>(chunks)) == joined(chunks),
    decreases chunks.len(),
{
    let items = successes::<E>(chunks);
    if chunks.len() == 0 {
        assert(collected_bytes(items) =~= Seq::<u8>::empty());
        assert(joined(chunks) =~= Seq::<u8>::empty());
    } else {
        let earlier = chunks.drop_last();
        lemma_successes_join::<E>(earlier);
        assert(items.drop_last() == successes::<E>(earlier));
        assert(items.last() == Ok::<bytes::Bytes, E>(chunks.last()));
        items.drop_last().lemma_flat_map_push(
            |item: Result<bytes::Bytes, E>| element_bytes(item),
            items.last(),
        );
        assert(items.drop_last().push(items.last()) == items);
        earlier.lemma_flat_map_push(|chunk: bytes::Bytes| chunk_bytes(chunk), chunks.last());
        assert(earlier.push(chunks.last()) == chunks);
    }
}

/// The items of a stream's events are the stream's items, also when the
/// outcome of a write follows them.
pub proof fn lemma_elements_of_stream<E>(items: Seq<Result<bytes::Bytes, E>>)
    ensures
        elements(element_events(items)) == items,
        elements(stream_events(items)) == items,
        forall|outcome: WriteOutcome|
            elements(#[trigger] stream_events(items).push(TeeEvent::CaptureFinished(outcome)))
                == items,
    decreases items.len(),
{
    let events = element_events(items);
    if items.len() == 0 {
        assert(elements(events) =~= items);
    } else {
        let earlier = items.drop_last();
        lemma_elements_of_stream(earlier);
        assert(events.drop_last() == element_events(earlier));
        assert(events.last() == TeeEvent::Element(items.last()));
        assert(elements(events) =~= items);
    }
    let ended = stream_events(items);
    assert(ended.drop_last() == events);
    assert(element_of(ended.last()) is None);
    assert(elements(ended) == items);
    assert forall|outcome: WriteOutcome|
        elements(#[trigger] ended.push(TeeEvent::CaptureFinished(outcome))) == items by {
        let reported = ended.push(TeeEvent::CaptureFinished(outcome));
        assert(reported.drop_last() == ended);
        assert(element_of(reported.last()) is None);
    }
}

/// The consumer receives exactly the items that the wrapped stream produced,
/// each as it came and in the order it came. This holds of every run: of a
/// collecting tee and of one that passes through, of any mix of chunks and
/// errors, and of whatever else happens in between.
pub proof fn lemma_forwards_what_came<E>(
    tee: TeeView,
    events: Seq<TeeEvent<E>>,
    actions: Seq<TeeAction<E>>,
)
    requires
        is_run(tee, events, actions),
    ensures
        forwarded(actions) == elements(events),
    decreases events.len(),
{
    if events.len() == 0 {
        assert(forwarded(actions) =~= elements(events));
    } else {
        lemma_run_without_last(tee, events, actions);
        lemma_forwards_what_came(tee, events.drop_last(), actions.drop_last());
    }
}

/// An element is always answered by handing it on: an error in the middle of
/// a stream does not end the stream, and what follows it still gets through.
pub proof fn lemma_errors_do_not_end_the_stream<E>(
    tee: TeeView,
    events: Seq<TeeEvent<E>>,
    actions: Seq<TeeAction<E>>,
    i: int,
)
    requires
        is_run(tee, events, actions),
        0 <= i < events.len(),
        events[i] is Element,
    ensures
        actions[i] == TeeAction::Forward(events[i]->Element_0),
{
}

/// With captures switched off the tee changes nothing and asks for nothing:
/// the consumer receives the stream's items as they came, no capture is ever
/// requested, and the tee keeps no bytes.
pub proof fn lemma_disabled_tee_is_transparent<E>(
    trace_id: Seq<char>,
    prefix: Seq<char>,
    meta: serde_json::Value,
    events: Seq<TeeEvent<E>>,
    actions: Seq<TeeAction<E>>,
)
    requires
        is_run(started(false, trace_id, prefix, meta), events, actions),
    ensures
        forwarded(actions) == elements(events),
        forall|i: int| 0 <= i < actions.len() ==> !(#[trigger] actions[i] is Capture),
        after_events(started(false, trace_id, prefix, meta), events) == TeeView::PassThrough,
{
    let tee = started(false, trace_id, prefix, meta);
    lemma_forwards_what_came(tee, events, actions);
    lemma_pass_through_stays(events);
    assert forall|i: int| 0 <= i < actions.len() implies !(#[trigger] actions[i] is Capture) by {
        lemma_pass_through_stays(events.take(i));
        assert(answers(after_events(tee, events.take(i)), events[i], actions[i]));
    }
}

/// With captures switched on, the end of the stream is answered by a capture
/// of everything that went through: its body is the text of the bytes of all
/// chunks, in the order of arrival, and errors in between leave no trace in
/// it.
pub proof fn lemma_capture_is_complete<E>(
    trace_id: Seq<char>,
    prefix: Seq<char>,
    meta: serde_json::Value,
    items: Seq<Result<bytes::Bytes, E>>,
    actions: Seq<TeeAction<E>>,
)
    requires
        is_run(started(true, trace_id, prefix, meta), stream_events(items), actions),
    ensures
        forwarded(actions) == items,
        actions.last() matches TeeAction::Capture(job) && is_capture_of(
            job@,
            collected_bytes(items),
            trace_id,
            prefix,
            meta,
        ) && member_text(job.payload, KEY_RESPONSE_TEXT@) == Some(
            utf8_lossy(collected_bytes(items)),
        ),
{
    let tee = started(true, trace_id, prefix, meta);
    let events = stream_events(items);
    lemma_forwards_what_came(tee, events, actions);
    lemma_elements_of_stream(items);
    lemma_run_without_last(tee, events, actions);
    assert(events.drop_last() == element_events(items));
    lemma_collecting_grows(Seq::<u8>::empty(), trace_id, prefix, meta, items);
    assert(Seq::<u8>::empty() + collected_bytes(items) =~= collected_bytes(items));
}

/// Of a stream of chunks alone, the capture's body is the text of the chunks
/// joined.
pub proof fn lemma_capture_of_chunks<E>(
    trace_id: Seq<char>,
    prefix: Seq<char>,
    meta: serde_json::Value,
    chunks: Seq<bytes::Bytes>,
    actions: Seq<TeeAction<E>>,
)
    requires
        is_run(
            started(true, trace_id, prefix, meta),
            stream_events(successes::<E>(chunks)),
            actions,
        ),
    ensures
        actions.last() matches TeeAction::Capture(job) && member_text(
            job.payload,
            KEY_RESPONSE_TEXT@,
        ) == Some(utf8_lossy(joined(chunks))),
{
    lemma_capture_is_complete(trace_id, prefix, meta, successes::<E>(chunks), actions);
    lemma_successes_join::<E>(chunks);
}

/// However the write of a capture ends, the consumer notices nothing of it:
/// the items it receives are the stream's items, no more and no other, and the
/// report of the outcome is answered by the end of the stream.
pub proof fn lemma_write_outcome_stays_inside<E>(
    tee: TeeView,
    items: Seq<Result<bytes::Bytes, E>>,
    outcome: WriteOutcome,
    actions: Seq<TeeAction<E>>,
)
    requires
        is_run(tee, stream_events(items).push(TeeEvent::CaptureFinished(outcome)), actions),
    ensures
        forwarded(actions) == items,
        actions.last() is EndOfStream,
{
    let events = stream_events(items).push(TeeEvent::CaptureFinished(outcome));
    lemma_forwards_what_came(tee, events, actions);
    lemma_elements_of_stream(items);
    lemma_run_without_last(tee, events, actions);
}

} // verus!
