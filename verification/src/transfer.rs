//! The decisions of a bidirectional copy between two streams `a` and `b`:
//! where the bytes of each read go, how many bytes went each way, and when
//! and how the copy ends.
use vstd::prelude::*;

verus! {

/// The size of each of the two read buffers, in bytes: a read takes at most
/// this many bytes.
pub const BUFFER_SIZE: usize = 16384;

/// One of the two streams.
#[derive(Clone, Copy, Debug, PartialEq, Eq, Structural)]
pub enum Side {
    A,
    B,
}

/// The stream that receives what is read from `side`.
pub open spec fn spec_other(side: Side) -> Side {
    match side {
        Side::A => Side::B,
        Side::B => Side::A,
    }
}

/// What follows an event of the copy.
#[derive(Debug)]
pub enum CopyAction<'a, E> {
    /// Write all of `bytes` to the stream `to`, then report the result.
    Write { to: Side, bytes: &'a [u8] },
    /// Read on from both streams.
    Read,
    /// The copy is over, cleanly (`None`) or with the error that ended it.
    Stop(Option<E>),
}

/// The numbers of bytes read from `a` (and written to `b`) and read from `b`
/// (and written to `a`). Each count wraps around at `usize::MAX`.
#[derive(Clone, Copy, Debug, PartialEq, Eq, Structural)]
pub struct Transfer {
    pub a_to_b: usize,
    pub b_to_a: usize,
}

/// A count after `n` more bytes, wrapping around at `usize::MAX`.
pub open spec fn spec_count(count: usize, n: usize) -> usize {
    vstd::wrapping::usize_specs::wrapping_add(count, n)
}

impl Transfer {
    /// Nothing copied yet.
    pub fn new() -> (r: Transfer)
        ensures
            r.a_to_b == 0,
            r.b_to_a == 0,
    {
        Transfer { a_to_b: 0, b_to_a: 0 }
    }

    /// Records the result of a read from `from`. A failed read ends the copy
    /// with its error; a read of no bytes is the end of that stream and ends
    /// the copy cleanly; any other read is counted, and its bytes are all to
    /// be written, unchanged, to the other stream.
    pub fn on_read<'a, E>(&mut self, from: Side, result: Result<&'a [u8], E>) -> (r: CopyAction<'a, E>)
        ensures
            match result {
                Err(e) => r == CopyAction::<'a, E>::Stop(Some(e)) && *final(self) == *old(self),
                Ok(bytes) => if bytes@.len() == 0 {
                    r == CopyAction::<'a, E>::Stop(None) && *final(self) == *old(self)
                } else {
                    &&& (r matches CopyAction::Write { to, bytes: written } && to == spec_other(from) && written == bytes)
                    &&& from == Side::A ==> *final(self) == (Transfer {
                        a_to_b: spec_count(old(self).a_to_b, bytes@.len() as usize),
                        b_to_a: old(self).b_to_a,
                    })
                    &&& from == Side::B ==> *final(self) == (Transfer {
                        a_to_b: old(self).a_to_b,
                        b_to_a: spec_count(old(self).b_to_a, bytes@.len() as usize),
                    })
                },
            },
    {
        match result {
            Err(e) => CopyAction::Stop(Some(e)),
            Ok(bytes) => {
                let n = bytes.len();
                if n == 0 {
                    return CopyAction::Stop(None);
                }
                match from {
                    Side::A => {
                        self.a_to_b = self.a_to_b.wrapping_add(n);
                        CopyAction::Write { to: Side::B, bytes }
                    },
                    Side::B => {
                        self.b_to_a = self.b_to_a.wrapping_add(n);
                        CopyAction::Write { to: Side::A, bytes }
                    },
                }
            },
        }
    }

    /// Records the result of writing a read's bytes to the other stream: the
    /// copy reads on, or ends with the write's error.
    pub fn on_write<'a, E>(&mut self, result: Result<(), E>) -> (r: CopyAction<'a, E>)
        ensures
            *final(self) == *old(self),
            match result {
                Ok(()) => r == CopyAction::<'a, E>::Read,
                Err(e) => r == CopyAction::<'a, E>::Stop(Some(e)),
            },
    {
        match result {
            Ok(()) => CopyAction::Read,
            Err(e) => CopyAction::Stop(Some(e)),
        }
    }
}

} // verus!
