//! The incoming body stream, modelled as the finite script of read results
//! the transport hands back: data chunks (an empty chunk means "not yet
//! ready", never end-of-stream), a graceful close, or an operation failure.

use vstd::prelude::*;
use vstd::utf8::encode_utf8;
use crate::transcript::lossy_decode;

verus! {

/// One result of asking the stream for a bounded chunk.  An empty `Chunk` is
/// a "not yet ready" read: the reader waits and retries, it never treats it
/// as termination.  `Closed` is normal end-of-stream; `Failed` is fatal.
pub enum ReadResult {
    Chunk(Vec<u8>),
    Closed,
    Failed,
}

/// A consumable handle over the body: the reads it will yield, in order.
/// It is not seekable and is consumed at most once (reading takes ownership).
pub struct BodyStream {
    pub events: Vec<ReadResult>,
}

pub open spec fn is_terminal(e: ReadResult) -> bool {
    !(e is Chunk)
}

/// Whether the stream reports an operation failure before it closes.
pub open spec fn stream_fails(events: Seq<ReadResult>) -> bool
    decreases events.len(),
{
    if events.len() == 0 {
        false
    } else {
        match events[0] {
            ReadResult::Chunk(_) => stream_fails(events.drop_first()),
            ReadResult::Closed => false,
            ReadResult::Failed => true,
        }
    }
}

/// Whether any non-empty chunk arrives before the stream terminates.
pub open spec fn has_data(events: Seq<ReadResult>) -> bool
    decreases events.len(),
{
    if events.len() == 0 {
        false
    } else {
        match events[0] {
            ReadResult::Chunk(b) => b@.len() > 0 || has_data(events.drop_first()),
            _ => false,
        }
    }
}

/// The decoded text of the body: each non-empty chunk delivered before the
/// stream terminates is decoded on its own and the results are concatenated
/// in delivery order.  Empty "not yet ready" reads contribute nothing.
pub open spec fn body_text(events: Seq<ReadResult>) -> Seq<u8>
    decreases events.len(),
{
    if events.len() == 0 {
        Seq::<u8>::empty()
    } else {
        match events[0] {
            ReadResult::Chunk(b) => if b@.len() == 0 {
                body_text(events.drop_first())
            } else {
                encode_utf8(lossy_decode(b@)) + body_text(events.drop_first())
            },
            _ => Seq::<u8>::empty(),
        }
    }
}

/// What the body contributes to the transcript: nothing at all when no data
/// ever arrives, and otherwise a section marker followed by the body text.
pub open spec fn body_section(events: Seq<ReadResult>) -> Seq<u8> {
    if has_data(events) {
        encode_utf8("\n[Request Data]\n"@) + body_text(events)
    } else {
        Seq::<u8>::empty()
    }
}

/// A "not yet ready" read (an empty chunk) inserted anywhere in the script
/// changes nothing: not the captured body section, not whether data arrived,
/// and not whether the stream fails.  Empty reads can therefore never
/// truncate the body or terminate collection early.
pub proof fn lemma_empty_read_ignored(events: Seq<ReadResult>, i: int, b: Vec<u8>)
    requires
        0 <= i <= events.len(),
        b@.len() == 0,
    ensures
        body_section(events.insert(i, ReadResult::Chunk(b))) == body_section(events),
        body_text(events.insert(i, ReadResult::Chunk(b))) == body_text(events),
        has_data(events.insert(i, ReadResult::Chunk(b))) == has_data(events),
        stream_fails(events.insert(i, ReadResult::Chunk(b))) == stream_fails(events),
    decreases events.len(),
{
    let inserted = events.insert(i, ReadResult::Chunk(b));
    if i == 0 {
        assert(inserted[0] == ReadResult::Chunk(b));
        assert(inserted.drop_first() =~= events);
    } else {
        assert(inserted[0] == events[0]);
        assert(inserted.drop_first() =~= events.drop_first().insert(i - 1, ReadResult::Chunk(b)));
        match events[0] {
            ReadResult::Chunk(_) => {
                lemma_empty_read_ignored(events.drop_first(), i - 1, b);
            },
            _ => {},
        }
    }
}

} // verus!
