//! The payload guard: a ceiling on the body's size, held against the size
//! that the transport declares and again against the bytes as they arrive.

use crate::response::ErrorKind;
use vstd::prelude::*;

verus! {

/// The largest body that is accepted, in bytes.
pub const PAYLOAD_CEILING: usize = 65536;

/// The guard's verdict on a declared body size.
#[derive(Clone, Debug, PartialEq, Eq)]
pub struct PayloadDecision {
    pub accept: bool,
    /// Why the payload was refused; `None` where it was accepted.
    pub reason: Option<String>,
}

/// Whether a declared body size passes the guard. A size that the transport
/// did not declare passes for now: the bound then falls to the body's reading.
pub open spec fn size_accepted(declared: Option<u64>) -> bool {
    match declared {
        Some(size) => size <= PAYLOAD_CEILING,
        None => true,
    }
}

/// Judges a declared body size, before any of the body is read.
pub fn check(declared: Option<u64>) -> (decision: PayloadDecision)
    ensures
        decision.accept == size_accepted(declared),
        decision.accept ==> decision.reason is None,
        !decision.accept ==> decision.reason is Some && decision.reason->Some_0@
            == ErrorKind::PayloadTooLarge.message_text(),
{
    let accept = match declared {
        Some(size) => size <= PAYLOAD_CEILING as u64,
        None => true,
    };
    if accept {
        PayloadDecision { accept: true, reason: None }
    } else {
        PayloadDecision {
            accept: false,
            reason: Some(ErrorKind::PayloadTooLarge.message().to_string()),
        }
    }
}

/// What a body buffer holds: the bytes taken so far, or the mark that the
/// body went over the ceiling.
pub struct BufferView {
    pub bytes: Seq<u8>,
    pub overflowed: bool,
}

/// The buffer before anything arrived.
pub open spec fn empty_buffer() -> BufferView {
    BufferView { bytes: Seq::empty(), overflowed: false }
}

/// The buffer after one more chunk: the chunk is appended while the whole
/// stays within the ceiling; otherwise the buffer is dropped and marked, and
/// stays so.
pub open spec fn after_chunk(state: BufferView, chunk: Seq<u8>) -> BufferView {
    if !state.overflowed && state.bytes.len() + chunk.len() <= PAYLOAD_CEILING {
        BufferView { bytes: state.bytes + chunk, overflowed: false }
    } else {
        BufferView { bytes: Seq::empty(), overflowed: true }
    }
}

/// The buffer after a run of chunks, first to last.
pub open spec fn after_chunks(chunks: Seq<Seq<u8>>) -> BufferView
    decreases chunks.len(),
{
    if chunks.len() == 0 {
        empty_buffer()
    } else {
        after_chunk(after_chunks(chunks.drop_last()), chunks.last())
    }
}

/// The bytes of a run of chunks, joined in order.
pub open spec fn joined(chunks: Seq<Seq<u8>>) -> Seq<u8>
    decreases chunks.len(),
{
    if chunks.len() == 0 {
        Seq::empty()
    } else {
        joined(chunks.drop_last()) + chunks.last()
    }
}

/// Takes a body chunk by chunk and never holds more than the ceiling.
#[derive(Clone, Debug, PartialEq, Eq)]
pub struct BodyBuffer {
    bytes: Vec<u8>,
    overflowed: bool,
}

impl View for BodyBuffer {
    type V = BufferView;

    closed spec fn view(&self) -> BufferView {
        BufferView { bytes: self.bytes@, overflowed: self.overflowed }
    }
}

impl BodyBuffer {
    /// The buffer's invariant: it holds no more than the ceiling, and nothing
    /// once the body went over it.
    pub open spec fn wf(&self) -> bool {
        &&& self@.bytes.len() <= PAYLOAD_CEILING
        &&& self@.overflowed ==> self@.bytes.len() == 0
    }

    /// A buffer that has taken nothing yet.
    pub fn new() -> (buffer: BodyBuffer)
        ensures
            buffer@ == empty_buffer(),
            buffer.wf(),
    {
        BodyBuffer { bytes: Vec::new(), overflowed: false }
    }

    /// Takes one chunk. Returns whether reading may go on: `false` says that
    /// the body is over the ceiling and the read is to be given up.
    pub fn push(&mut self, chunk: &[u8]) -> (go_on: bool)
        ensures
            final(self)@ == after_chunk(old(self)@, chunk@),
            final(self).wf(),
            go_on == !final(self)@.overflowed,
    {
        if !self.overflowed && self.bytes.len() <= PAYLOAD_CEILING && chunk.len()
            <= PAYLOAD_CEILING - self.bytes.len() {
            let mut i: usize = 0;
            while i < chunk.len()
                invariant
                    !self.overflowed,
                    i <= chunk@.len(),
                    self.bytes@ == old(self).bytes@ + chunk@.subrange(0, i as int),
                decreases chunk@.len() - i,
            {
                self.bytes.push(chunk[i]);
                i = i + 1;
                assert(chunk@.subrange(0, i as int) == chunk@.subrange(0, i - 1).push(
                    chunk@[i - 1],
                ));
            }
            assert(chunk@.subrange(0, i as int) == chunk@);
            true
        } else {
            self.bytes = Vec::new();
            self.overflowed = true;
            false
        }
    }

    /// Whether the body went over the ceiling.
    pub fn is_overflowed(&self) -> (over: bool)
        ensures
            over == self@.overflowed,
    {
        self.overflowed
    }

    /// The number of bytes held.
    pub fn len(&self) -> (n: usize)
        ensures
            n == self@.bytes.len(),
    {
        self.bytes.len()
    }

    /// Ends the reading: the whole body, or `None` where it went over the
    /// ceiling.
    pub fn finish(self) -> (body: Option<Vec<u8>>)
        ensures
            body is Some <==> !self@.overflowed,
            body is Some ==> body->Some_0@ == self@.bytes,
    {
        if self.overflowed {
            None
        } else {
            Some(self.bytes)
        }
    }
}

/// A body buffer never holds more than the ceiling, whatever arrives.
pub proof fn lemma_buffer_bounded(chunks: Seq<Seq<u8>>)
    ensures
        after_chunks(chunks).bytes.len() <= PAYLOAD_CEILING,
        after_chunks(chunks).overflowed ==> after_chunks(chunks).bytes.len() == 0,
    decreases chunks.len(),
{
    if chunks.len() > 0 {
        lemma_buffer_bounded(chunks.drop_last());
    }
}

/// A body within the ceiling is taken whole, in order; a body over it is
/// refused, however it is cut into chunks.
pub proof fn lemma_buffer_holds_body(chunks: Seq<Seq<u8>>)
    ensures
        after_chunks(chunks).overflowed <==> joined(chunks).len() > PAYLOAD_CEILING,
        !after_chunks(chunks).overflowed ==> after_chunks(chunks).bytes == joined(chunks),
    decreases chunks.len(),
{
    if chunks.len() > 0 {
        lemma_buffer_holds_body(chunks.drop_last());
    }
}

/// The first chunks of a body join to no more bytes than the whole body.
pub proof fn lemma_joined_grows(chunks: Seq<Seq<u8>>, count: int)
    requires
        0 <= count <= chunks.len(),
    ensures
        joined(chunks.take(count)).len() <= joined(chunks).len(),
    decreases chunks.len() - count,
{
    if count < chunks.len() {
        lemma_joined_grows(chunks, count + 1);
        assert(chunks.take(count + 1).drop_last() =~= chunks.take(count));
    } else {
        assert(chunks.take(count) =~= chunks);
    }
}

} // verus!
