//! The stream tee: hands every element of a stream on unchanged and keeps a
//! copy of the bytes that went through.
//!
//! The tee never pulls from the stream itself and never writes. It is told of
//! each thing that happens (an element arrived, the stream is exhausted, the
//! capture has been dealt with) and says what to do about it: hand the element
//! on, store the capture, or end the stream. With captures switched off it
//! only ever hands on.

use vstd::prelude::*;
use crate::chunk::{chunk_bytes, chunk_slice};
use crate::config::{is_enabled, DebugLoggingConfig};
use crate::payload::{capture_document, is_capture_document, trace_id_of};
use crate::text::{decode_lossy, utf8_lossy};
use crate::writer::{WriteJob, WriteJobView, WriteOutcome};

verus! {

/// The tee between two events.
pub enum StreamTee {
    /// Elements go through and nothing is kept.
    PassThrough,
    /// Elements go through and `collected` holds the bytes of every chunk seen
    /// so far. The other fields are what the capture will be filed under.
    Collecting { collected: Vec<u8>, trace_id: String, prefix: String, meta: serde_json::Value },
}

/// The mathematical content of a `StreamTee`.
pub enum TeeView {
    PassThrough,
    Collecting {
        collected: Seq<u8>,
        trace_id: Seq<char>,
        prefix: Seq<char>,
        meta: serde_json::Value,
    },
}

impl View for StreamTee {
    type V = TeeView;

    open spec fn view(&self) -> TeeView {
        match self {
            StreamTee::PassThrough => TeeView::PassThrough,
            StreamTee::Collecting { collected, trace_id, prefix, meta } => TeeView::Collecting {
                collected: collected@,
                trace_id: trace_id@,
                prefix: prefix@,
                meta: *meta,
            },
        }
    }
}

/// What the tee is told. `E` is the transport's error type, which the tee
/// never looks into.
pub enum TeeEvent<E> {
    /// The wrapped stream produced an element.
    Element(Result<bytes::Bytes, E>),
    /// The wrapped stream has no more elements.
    Exhausted,
    /// The capture that the tee asked for has been dealt with.
    CaptureFinished(WriteOutcome),
}

/// What the tee wants done.
pub enum TeeAction<E> {
    /// Hand this element to the consumer.
    Forward(Result<bytes::Bytes, E>),
    /// Store this capture, then report `TeeEvent::CaptureFinished`.
    Capture(WriteJob),
    /// Tell the consumer that the stream has ended.
    EndOfStream,
}

/// The bytes that an element adds to a capture: those of a chunk, none for an
/// error.
pub open spec fn element_bytes<E>(item: Result<bytes::Bytes, E>) -> Seq<u8> {
    match item {
        Ok(chunk) => chunk_bytes(chunk),
        Err(_) => Seq::empty(),
    }
}

/// The tee as it starts out under the given settings.
pub open spec fn started(
    enabled: bool,
    trace_id: Seq<char>,
    prefix: Seq<char>,
    meta: serde_json::Value,
) -> TeeView {
    if enabled {
        TeeView::Collecting { collected: Seq::empty(), trace_id, prefix, meta }
    } else {
        TeeView::PassThrough
    }
}

/// The tee after an event. A collecting tee grows by each element's bytes and
/// stops collecting when the stream is exhausted.
pub open spec fn after<E>(tee: TeeView, event: TeeEvent<E>) -> TeeView {
    match (tee, event) {
        (
            TeeView::Collecting { collected, trace_id, prefix, meta },
            TeeEvent::Element(item),
        ) => TeeView::Collecting {
            collected: collected + element_bytes(item),
            trace_id,
            prefix,
            meta,
        },
        _ => TeeView::PassThrough,
    }
}

/// `job` files what was collected: the capture document of the collected
/// bytes read as text, under the tee's category and correlation id.
pub open spec fn is_capture_of(
    job: WriteJobView,
    collected: Seq<u8>,
    trace_id: Seq<char>,
    prefix: Seq<char>,
    meta: serde_json::Value,
) -> bool {
    &&& job.trace_id == Some(trace_id)
    &&& job.prefix == prefix
    &&& is_capture_document(job.payload, trace_id, meta, utf8_lossy(collected))
}

/// `action` is the tee's answer to `event`.
pub open spec fn answers<E>(tee: TeeView, event: TeeEvent<E>, action: TeeAction<E>) -> bool {
    match event {
        TeeEvent::Element(item) => action == TeeAction::Forward(item),
        TeeEvent::Exhausted => match tee {
            TeeView::Collecting { collected, trace_id, prefix, meta } => {
                &&& action matches TeeAction::Capture(job)
                &&& is_capture_of(job@, collected, trace_id, prefix, meta)
            },
            TeeView::PassThrough => action is EndOfStream,
        },
        TeeEvent::CaptureFinished(_) => action is EndOfStream,
    }
}

/// The tee after a sequence of events, taken one after the other.
pub open spec fn after_events<E>(tee: TeeView, events: Seq<TeeEvent<E>>) -> TeeView
    decreases events.len(),
{
    if events.len() == 0 {
        tee
    } else {
        after(after_events(tee, events.drop_last()), events.last())
    }
}

/// `actions` are the tee's answers to `events`, one for each and in their
/// order, when the tee starts out as `tee`.
pub open spec fn is_run<E>(
    tee: TeeView,
    events: Seq<TeeEvent<E>>,
    actions: Seq<TeeAction<E>>,
) -> bool {
    &&& actions.len() == events.len()
    &&& forall|i: int|
        0 <= i < events.len() ==> answers(
            after_events(tee, events.take(i)),
            #[trigger] events[i],
            actions[i],
        )
}

impl StreamTee {
    /// A tee for one stream: collecting if captures are switched on, a plain
    /// pass-through if not.
    pub fn new(
        cfg: &DebugLoggingConfig,
        trace_id: String,
        prefix: String,
        meta: serde_json::Value,
    ) -> (tee: StreamTee)
        ensures
            tee@ == started(cfg.enabled, trace_id@, prefix@, meta),
    {
        if is_enabled(cfg) {
            StreamTee::Collecting { collected: Vec::new(), trace_id, prefix, meta }
        } else {
            StreamTee::PassThrough
        }
    }

    /// Takes one event and says what to do about it.
    pub fn step<E>(self, event: TeeEvent<E>) -> (next: (StreamTee, TeeAction<E>))
        ensures
            next.0@ == after(self@, event),
            answers(self@, event, next.1),
    {
        match (self, event) {
            (
                StreamTee::Collecting { mut collected, trace_id, prefix, meta },
                TeeEvent::Element(item),
            ) => {
                if let Ok(chunk) = &item {
                    let ghost before = collected@;
                    let bytes = chunk_slice(chunk);
                    collected.extend_from_slice(bytes);
                    assert(collected@ =~= before + chunk_bytes(*chunk));
                }
                assert(collected@ =~= self@->collected + element_bytes(item));
                (
                    StreamTee::Collecting { collected, trace_id, prefix, meta },
                    TeeAction::Forward(item),
                )
            },
            (StreamTee::PassThrough, TeeEvent::Element(item)) => (
                StreamTee::PassThrough,
                TeeAction::Forward(item),
            ),
            (StreamTee::Collecting { collected, trace_id, prefix, meta }, TeeEvent::Exhausted) => {
                let response_text = decode_lossy(collected.as_slice());
                let payload = capture_document(trace_id.as_str(), meta, response_text.as_str());
                let filed_under = trace_id_of(&payload);
                let job = WriteJob { trace_id: Some(filed_under), prefix, payload };
                (StreamTee::PassThrough, TeeAction::Capture(job))
            },
            (_, _) => (StreamTee::PassThrough, TeeAction::EndOfStream),
        }
    }
    /// Takes a whole sequence of events, one after the other, and gives the
    /// answer to each.
    pub fn run<E>(self, events: Vec<TeeEvent<E>>) -> (out: (StreamTee, Vec<TeeAction<E>>))
        ensures
            out.0@ == after_events(self@, events@),
            is_run(self@, events@, out.1@),
    {
        let ghost start = self@;
        let ghost all = events@;
        let mut tee = self;
        let mut actions: Vec<TeeAction<E>> = Vec::new();
        for event in it: events
            invariant
                it.seq() == all,
                tee@ == after_events(start, all.take(it.index())),
                actions@.len() == it.index(),
                forall|i: int|
                    0 <= i < it.index() ==> answers(
                        after_events(start, all.take(i)),
                        #[trigger] all[i],
                        actions@[i],
                    ),
        {
            proof {
                let k = it.index();
                assert(all.take(k + 1).drop_last() == all.take(k));
                assert(all.take(k + 1).last() == all[k]);
            }
            let (next, action) = tee.step(event);
            tee = next;
            actions.push(action);
        }
        proof {
            assert(all.take(all.len() as int) == all);
        }
        (tee, actions)
    }
}

} // verus!
