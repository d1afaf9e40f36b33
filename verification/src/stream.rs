//! An in-memory byte stream with a read cursor.

use vstd::prelude::*;

verus! {

/// The ways in which a [`ByteStream`] can fail to deliver the bytes asked of it.
#[derive(Debug, Clone, Copy, PartialEq, Eq, Structural)]
pub enum StreamError {
    /// The stream ended before the requested number of bytes had been read.
    UnexpectedEof,
}

impl StreamError {
    /// The text that reports this failure, as description and as message.
    pub open spec fn text(self) -> Seq<char> {
        match self {
            StreamError::UnexpectedEof => "failed to fill whole buffer"@,
        }
    }

    /// A short description of the failure.
    pub fn description(&self) -> (text: &'static str)
        ensures
            text@ == self.text(),
    {
        match self {
            StreamError::UnexpectedEof => "failed to fill whole buffer",
        }
    }

    /// The failure's message, as an owned string.
    pub fn message(&self) -> (text: String)
        ensures
            text@ == self.text(),
    {
        String::from_str(self.description())
    }
}

/// What a stream is to its reader: the bytes it has handed out so far and the
/// bytes that are still to come, both in stream order.
pub struct StreamState {
    pub consumed: Seq<u8>,
    pub remaining: Seq<u8>,
}

impl StreamState {
    /// True where at least `count` bytes are still to come.
    pub open spec fn has_next(self, count: nat) -> bool {
        count <= self.remaining.len()
    }

    /// The next `count` bytes of the stream, where it has that many.
    pub open spec fn next(self, count: nat) -> Seq<u8>
        recommends
            self.has_next(count),
    {
        self.remaining.take(count as int)
    }

    /// The number of bytes that a read of `count` bytes moves the cursor by:
    /// `count`, or all that remains where the stream is shorter.
    pub open spec fn step(self, count: nat) -> nat {
        if self.has_next(count) {
            count
        } else {
            self.remaining.len()
        }
    }

    /// The state after an attempt to read `count` bytes. The cursor moves by
    /// [`Self::step`], whether or not the attempt succeeds.
    pub open spec fn advance(self, count: nat) -> StreamState {
        StreamState {
            consumed: self.consumed + self.remaining.take(self.step(count) as int),
            remaining: self.remaining.skip(self.step(count) as int),
        }
    }

    /// The stream position: how many bytes have been consumed.
    pub open spec fn position(self) -> nat {
        self.consumed.len()
    }

    /// All bytes of the stream, read or not, in stream order.
    pub open spec fn contents(self) -> Seq<u8> {
        self.consumed + self.remaining
    }
}

/// Reading moves the cursor and nothing else: an attempt to read `count`
/// bytes leaves the bytes of the stream as they were, and a second attempt
/// continues where the first one stopped.
pub proof fn lemma_advance_moves_only_the_cursor(state: StreamState, count: nat, next: nat)
    ensures
        state.advance(count).contents() == state.contents(),
        state.advance(count).position() == state.position() + state.step(count),
        state.advance(count).advance(next) == state.advance(count + next),
        state.advance(0) == state,
{
    let first = state.advance(count);
    let both = state.advance(count + next);
    assert(first.advance(next).consumed =~= both.consumed);
    assert(first.advance(next).remaining =~= both.remaining);
    assert(state.advance(0).remaining =~= state.remaining);
}

/// A readable stream over bytes held in memory.
///
/// Reading never changes the bytes, it only moves the cursor forward.
#[derive(Debug)]
pub struct ByteStream {
    bytes: Vec<u8>,
    position: usize,
}

impl View for ByteStream {
    type V = StreamState;

    closed spec fn view(&self) -> StreamState {
        StreamState {
            consumed: self.bytes@.take(self.position as int),
            remaining: self.bytes@.skip(self.position as int),
        }
    }
}

impl ByteStream {
    #[verifier::type_invariant]
    spec fn cursor_in_bounds(&self) -> bool {
        self.position <= self.bytes@.len()
    }

    /// A stream positioned at the first of `bytes`.
    pub fn new(bytes: Vec<u8>) -> (stream: ByteStream)
        ensures
            stream@.consumed == Seq::<u8>::empty(),
            stream@.remaining == bytes@,
    {
        ByteStream { bytes, position: 0 }
    }

    /// How many bytes have been read from the stream so far.
    pub fn position(&self) -> (position: usize)
        ensures
            position == self@.position(),
    {
        proof {
            use_type_invariant(self);
        }
        self.position
    }

    /// Reads exactly `count` bytes.
    ///
    /// Where at least `count` bytes remain, they are returned in order and
    /// the cursor moves past them. Where fewer remain, the read fails with
    /// [`StreamError::UnexpectedEof`] and the cursor moves to the end of the
    /// stream: the attempt consumes what was there.
    pub fn read_exact(&mut self, count: usize) -> (outcome: Result<Vec<u8>, StreamError>)
        ensures
            final(self)@ == old(self)@.advance(count as nat),
            final(self)@.contents() == old(self)@.contents(),
            outcome is Ok <==> old(self)@.has_next(count as nat),
            outcome matches Ok(bytes) ==> bytes@ == old(self)@.next(count as nat),
            outcome matches Err(error) ==> error == StreamError::UnexpectedEof,
    {
        proof {
            use_type_invariant(&*self);
            lemma_advance_moves_only_the_cursor(self@, count as nat, 0);
        }
        let available: usize = self.bytes.len() - self.position;
        if count > available {
            self.position = self.bytes.len();
            proof {
                let before = old(self)@;
                assert(self@.consumed =~= before.consumed + before.remaining.take(
                    before.step(count as nat) as int,
                ));
                assert(self@.remaining =~= before.remaining.skip(before.step(count as nat) as int));
            }
            return Err(StreamError::UnexpectedEof);
        }
        let start: usize = self.position;
        let end: usize = start + count;
        let mut bytes: Vec<u8> = Vec::with_capacity(count);
        let mut index: usize = start;
        while index < end
            invariant
                start <= index <= end <= self.bytes@.len(),
                bytes@ == self.bytes@.subrange(start as int, index as int),
            decreases end - index,
        {
            bytes.push(self.bytes[index]);
            index += 1;
        }
        self.position = end;
        proof {
            let before = old(self)@;
            assert(self@.consumed =~= before.consumed + before.remaining.take(count as int));
            assert(self@.remaining =~= before.remaining.skip(count as int));
        }
        Ok(bytes)
    }
}

} // verus!
