use vstd::prelude::*;

use crate::error::Error;

verus! {

/// One read of a streamed command's channel, as the helper execution context
/// sees it.
#[derive(Debug, Clone, PartialEq, Eq)]
pub enum ReadEvent {
    /// A read of more than zero bytes: one chunk of output.
    Data(String),
    /// A zero-length read: the channel reached end of file.
    Eof,
    /// The read failed.
    Failed(Error),
}

/// One item of the finite, single-pass sequence a streamed command yields.
#[derive(Debug, Clone, PartialEq, Eq)]
pub enum StreamItem {
    /// One non-empty chunk of output, in read order.
    Chunk(String),
    /// The explicit end marker, after the final chunk.
    End,
    /// The terminal outcome of a failed read.
    Failure(Error),
}

/// Whether a stream is still producing items.
#[derive(Debug, Clone, Copy, PartialEq, Eq, Structural)]
pub enum StreamState {
    /// The stream has not yet seen end of file or a failed read.
    Open,
    /// A terminal read was seen; nothing more is ever emitted.
    Ended,
}

/// What one read event does to a stream: the next state and the item, if any,
/// it emits.
pub open spec fn stream_step_spec(state: StreamState, event: ReadEvent) -> (StreamState, Option<
    StreamItem,
>) {
    match state {
        StreamState::Open => match event {
            ReadEvent::Data(chunk) => (StreamState::Open, Some(StreamItem::Chunk(chunk))),
            ReadEvent::Eof => (StreamState::Ended, Some(StreamItem::End)),
            ReadEvent::Failed(e) => (StreamState::Ended, Some(StreamItem::Failure(e))),
        },
        StreamState::Ended => (StreamState::Ended, None),
    }
}

/// Advances a stream by one read: an open stream emits each chunk as it
/// comes, turns end of file into the explicit end marker, and a failed read
/// into the terminal failure; an ended stream emits nothing, whatever is
/// read.
pub fn stream_step(state: StreamState, event: ReadEvent) -> (r: (StreamState, Option<StreamItem>))
    ensures
        r == stream_step_spec(state, event),
{
    match state {
        StreamState::Open => match event {
            ReadEvent::Data(chunk) => (StreamState::Open, Some(StreamItem::Chunk(chunk))),
            ReadEvent::Eof => (StreamState::Ended, Some(StreamItem::End)),
            ReadEvent::Failed(e) => (StreamState::Ended, Some(StreamItem::Failure(e))),
        },
        StreamState::Ended => (StreamState::Ended, None),
    }
}

/// The items a stream in the given state yields over a sequence of reads.
pub open spec fn emits_from(state: StreamState, events: Seq<ReadEvent>) -> Seq<StreamItem>
    decreases events.len(),
{
    if events.len() == 0 {
        Seq::empty()
    } else {
        let (next, item) = stream_step_spec(state, events[0]);
        let head: Seq<StreamItem> = match item {
            Some(it) => seq![it],
            None => Seq::empty(),
        };
        head + emits_from(next, events.drop_first())
    }
}

/// The items a fresh stream yields over a sequence of reads.
pub open spec fn stream_emits(events: Seq<ReadEvent>) -> Seq<StreamItem> {
    emits_from(StreamState::Open, events)
}

/// An ended stream yields nothing, however many reads follow.
pub proof fn lemma_ended_emits_nothing(events: Seq<ReadEvent>)
    ensures
        emits_from(StreamState::Ended, events) == Seq::<StreamItem>::empty(),
    decreases events.len(),
{
    if events.len() > 0 {
        lemma_ended_emits_nothing(events.drop_first());
        assert(emits_from(StreamState::Ended, events) =~= Seq::<StreamItem>::empty());
    }
}

/// A stream that has seen only chunk reads so far has emitted exactly those
/// chunks, in read order, and is still open for more.
pub proof fn lemma_stream_all_chunks(events: Seq<ReadEvent>)
    requires
        forall|i: int| 0 <= i < events.len() ==> #[trigger] events[i] is Data,
    ensures
        stream_emits(events).len() == events.len(),
        forall|i: int|
            0 <= i < events.len() ==> #[trigger] stream_emits(events)[i] == StreamItem::Chunk(
                events[i]->Data_0,
            ),
    decreases events.len(),
{
    if events.len() > 0 {
        let rest = events.drop_first();
        lemma_stream_all_chunks(rest);
        assert(stream_emits(events) =~= seq![StreamItem::Chunk(events[0]->Data_0)] + stream_emits(
            rest,
        ));
        assert forall|i: int| 0 <= i < events.len() implies #[trigger] stream_emits(events)[i]
            == StreamItem::Chunk(events[i]->Data_0) by {
            if i > 0 {
                assert(stream_emits(events)[i] == stream_emits(rest)[i - 1]);
                assert(rest[i - 1] == events[i]);
            }
        }
    }
}

/// A streamed command whose reads hold k chunks and then a terminal read
/// yields exactly those k chunks in order, then the end marker (after end of
/// file) or the failure (after a failed read) — and nothing after that
/// terminal item, whatever reads follow.
pub proof fn lemma_stream_terminates(events: Seq<ReadEvent>, k: int)
    requires
        0 <= k < events.len(),
        forall|i: int| 0 <= i < k ==> #[trigger] events[i] is Data,
        !(events[k] is Data),
    ensures
        stream_emits(events).len() == k + 1,
        forall|i: int|
            0 <= i < k ==> #[trigger] stream_emits(events)[i] == StreamItem::Chunk(
                events[i]->Data_0,
            ),
        events[k] is Eof ==> stream_emits(events)[k] == StreamItem::End,
        events[k] matches ReadEvent::Failed(e) ==> stream_emits(events)[k] == StreamItem::Failure(
            e,
        ),
    decreases k,
{
    if k == 0 {
        lemma_ended_emits_nothing(events.drop_first());
        assert(stream_emits(events) =~= seq![
            match events[0] {
                ReadEvent::Eof => StreamItem::End,
                ReadEvent::Failed(e) => StreamItem::Failure(e),
                ReadEvent::Data(c) => StreamItem::Chunk(c),
            },
        ]);
    } else {
        let rest = events.drop_first();
        lemma_stream_terminates(rest, k - 1);
        assert(stream_emits(events) =~= seq![StreamItem::Chunk(events[0]->Data_0)] + stream_emits(
            rest,
        ));
        assert forall|i: int| 0 <= i < k implies #[trigger] stream_emits(events)[i]
            == StreamItem::Chunk(events[i]->Data_0) by {
            if i > 0 {
                assert(stream_emits(events)[i] == stream_emits(rest)[i - 1]);
                assert(rest[i - 1] == events[i]);
            }
        }
    }
}

} // verus!
