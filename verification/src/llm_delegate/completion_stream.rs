//! Normalisation of a backend's native event sequence into the canonical
//! chunk sequence.
//!
//! Each native chunk becomes exactly one canonical chunk, in the order of
//! arrival; nothing is buffered or merged. A native error ends the sequence
//! with one terminal error item, and the end marker ends it without an item.
//! The sequence is single-pass: once it has ended, every further event is
//! dropped.
//!
//! The normaliser is generic in the chunk: the caller has turned the native
//! payload into the canonical chunk before it hands the event in.

use crate::llm_delegate::ProviderError;
use vstd::prelude::*;

verus! {

/// One event of a backend's native stream.
pub enum NativeEvent<T> {
    /// A chunk of the completion.
    Chunk(T),
    /// The backend failed; holds its message.
    Error(String),
    /// The end marker.
    End,
}

/// One item of the canonical stream.
pub enum StreamItem<T> {
    /// A chunk of the completion.
    Chunk(T),
    /// The terminal error; no item follows it.
    Error(ProviderError),
}

/// The state of one canonical stream.
pub struct CompletionStream {
    finished: bool,
}

/// What one event does to a stream: whether the stream has ended after it,
/// and the item that it yields, if any.
pub open spec fn step<T>(finished: bool, event: NativeEvent<T>) -> (bool, Option<StreamItem<T>>) {
    if finished {
        (true, None)
    } else {
        match event {
            NativeEvent::Chunk(chunk) => (false, Some(StreamItem::Chunk(chunk))),
            NativeEvent::Error(message) => (
                true,
                Some(StreamItem::Error(ProviderError::Upstream(message))),
            ),
            NativeEvent::End => (true, None),
        }
    }
}

/// The canonical stream of a native event sequence, from the first event on.
pub open spec fn normalized<T>(events: Seq<NativeEvent<T>>) -> Seq<StreamItem<T>>
    decreases events.len(),
{
    if events.len() == 0 {
        Seq::empty()
    } else {
        match step(false, events[0]) {
            (false, Some(item)) => seq![item] + normalized(events.skip(1)),
            (_, Some(item)) => seq![item],
            (_, None) => Seq::empty(),
        }
    }
}

/// The native events that deliver `chunks`, in order.
pub open spec fn chunk_events<T>(chunks: Seq<T>) -> Seq<NativeEvent<T>> {
    Seq::new(chunks.len(), |i: int| NativeEvent::Chunk(chunks[i]))
}

/// The canonical items that deliver `chunks`, in order.
pub open spec fn chunk_items<T>(chunks: Seq<T>) -> Seq<StreamItem<T>> {
    Seq::new(chunks.len(), |i: int| StreamItem::Chunk(chunks[i]))
}

impl CompletionStream {
    /// Whether the stream has ended.
    pub closed spec fn finished(&self) -> bool {
        self.finished
    }

    /// A stream that has yielded nothing yet.
    pub fn new() -> (stream: Self)
        ensures
            !stream.finished(),
    {
        CompletionStream { finished: false }
    }

    /// Whether the stream has ended.
    pub fn is_finished(&self) -> (r: bool)
        ensures
            r == self.finished(),
    {
        self.finished
    }

    /// Takes the next native event and yields the canonical item for it, if
    /// it has one.
    pub fn next<T>(&mut self, event: NativeEvent<T>) -> (item: Option<StreamItem<T>>)
        ensures
            (final(self).finished(), item) == step(old(self).finished(), event),
    {
        if self.finished {
            return None;
        }
        match event {
            NativeEvent::Chunk(chunk) => Some(StreamItem::Chunk(chunk)),
            NativeEvent::Error(message) => {
                self.finished = true;
                Some(StreamItem::Error(ProviderError::Upstream(message)))
            },
            NativeEvent::End => {
                self.finished = true;
                None
            },
        }
    }
}

/// Normalises a whole native event sequence at once.
pub fn normalize<T>(events: Vec<NativeEvent<T>>) -> (items: Vec<StreamItem<T>>)
    ensures
        items@ == normalized(events@),
{
    let ghost all = events@;
    let mut stream = CompletionStream::new();
    let mut items: Vec<StreamItem<T>> = Vec::new();
    proof {
        assert(all.skip(0) =~= all);
    }
    for event in it: events
        invariant
            all == it.seq(),
            normalized(all) == items@ + if stream.finished() {
                Seq::<StreamItem<T>>::empty()
            } else {
                normalized(all.skip(it.index() as int))
            },
    {
        proof {
            let rest = all.skip(it.index() as int);
            assert(rest.skip(1) =~= all.skip(it.index() + 1));
        }
        match stream.next(event) {
            Some(item) => {
                items.push(item);
            },
            None => {},
        }
    }
    items
}

/// Every item of the canonical stream stands for the native event in the
/// same position: no event is skipped, merged or reordered, and the stream is
/// never longer than the event sequence.
pub proof fn lemma_items_follow_events<T>(events: Seq<NativeEvent<T>>, position: int)
    requires
        0 <= position < normalized(events).len(),
    ensures
        position < events.len(),
        step(false, events[position]).1 == Some(normalized(events)[position]),
    decreases events.len(),
{
    if position > 0 {
        lemma_items_follow_events(events.skip(1), position - 1);
    }
}

/// A sequence of chunks followed by the end marker yields exactly those
/// chunks, in order, and nothing after them, whatever follows the marker.
pub proof fn lemma_chunks_then_end<T>(chunks: Seq<T>, after: Seq<NativeEvent<T>>)
    ensures
        normalized(chunk_events(chunks) + seq![NativeEvent::End] + after) == chunk_items(chunks),
    decreases chunks.len(),
{
    if chunks.len() > 0 {
        let events = chunk_events(chunks) + seq![NativeEvent::End] + after;
        let rest = chunks.skip(1);
        lemma_chunks_then_end(rest, after);
        assert(events.skip(1) =~= chunk_events(rest) + seq![NativeEvent::End] + after);
    }
}

/// A sequence of chunks followed by an error yields those chunks and then
/// the error as the last item, whatever follows the error.
pub proof fn lemma_chunks_then_error<T>(
    chunks: Seq<T>,
    message: String,
    after: Seq<NativeEvent<T>>,
)
    ensures
        normalized(chunk_events(chunks) + seq![NativeEvent::Error(message)] + after)
            == chunk_items(chunks).push(StreamItem::Error(ProviderError::Upstream(message))),
    decreases chunks.len(),
{
    if chunks.len() > 0 {
        let events = chunk_events(chunks) + seq![NativeEvent::Error(message)] + after;
        let rest = chunks.skip(1);
        lemma_chunks_then_error(rest, message, after);
        assert(events.skip(1) =~= chunk_events(rest) + seq![NativeEvent::Error(message)] + after);
    }
}

} // verus!
