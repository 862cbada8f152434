//! The byte channel that connects the machine to its console.
//!
//! The machine core never touches a real device. It consumes bytes from
//! `input` (the keyboard side) and appends bytes to `output` (the display
//! side); an embedding binary moves bytes between these queues and whatever
//! devices it owns. A blocking read is represented by the embedder filling
//! `input` before the core runs: an empty `input` on a blocking read means
//! the keyboard stream has ended.

use vstd::prelude::*;

verus! {

/// In-memory byte queues standing for the keyboard and display streams.
pub struct ByteChannel {
    /// Bytes not yet consumed by the machine, oldest first.
    pub input: Vec<u8>,
    /// Bytes emitted by the machine, oldest first.
    pub output: Vec<u8>,
}

impl ByteChannel {
    /// A channel with no pending input and no produced output.
    pub fn new() -> (c: ByteChannel)
        ensures
            c.input@ == Seq::<u8>::empty(),
            c.output@ == Seq::<u8>::empty(),
    {
        ByteChannel { input: Vec::new(), output: Vec::new() }
    }

    /// Non-blocking poll of the keyboard side: takes the oldest pending
    /// byte if one is available.
    pub fn try_read_byte(&mut self) -> (r: Option<u8>)
        ensures
            final(self).output@ == old(self).output@,
            old(self).input@.len() == 0 ==> r is None && final(self).input@ == old(self).input@,
            old(self).input@.len() > 0 ==> r == Some(old(self).input@[0])
                && final(self).input@ == old(self).input@.skip(1),
    {
        if self.input.len() > 0 {
            let b = self.input.remove(0);
            proof {
                assert(old(self).input@.remove(0) =~= old(self).input@.skip(1));
            }
            Some(b)
        } else {
            None
        }
    }

    /// Blocking read of one keyboard byte. Over the queue model it is the
    /// same step as [`Self::try_read_byte`]: `None` means the input stream
    /// is exhausted, which callers treat as a fatal condition rather than
    /// as "no data yet".
    pub fn read_byte(&mut self) -> (r: Option<u8>)
        ensures
            final(self).output@ == old(self).output@,
            old(self).input@.len() == 0 ==> r is None && final(self).input@ == old(self).input@,
            old(self).input@.len() > 0 ==> r == Some(old(self).input@[0])
                && final(self).input@ == old(self).input@.skip(1),
    {
        self.try_read_byte()
    }

    /// Appends one byte to the display side.
    pub fn write_byte(&mut self, b: u8)
        ensures
            final(self).input@ == old(self).input@,
            final(self).output@ == old(self).output@.push(b),
    {
        self.output.push(b);
    }
}

} // verus!
