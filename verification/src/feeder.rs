//! Input feeder: owns the supplied input bytes and tracks the consumed
//! prefix (the unconsumed suffix is the bitstream cursor).

use vstd::prelude::*;
use crate::error::JxlError;

verus! {

/// Tracks caller-supplied input bytes and how far the stream has consumed
/// them.  Supplied bytes are cumulative; the feeder never drops unconsumed
/// bytes.
pub struct InputFeeder {
    data: Vec<u8>,
    consumed: usize,
    closed: bool,
}

impl InputFeeder {
    /// All bytes ever supplied.
    pub closed spec fn data_spec(&self) -> Seq<u8> {
        self.data@
    }

    /// How many leading bytes have been consumed.
    pub closed spec fn consumed_spec(&self) -> int {
        self.consumed as int
    }

    /// Whether end-of-input has been signaled.
    pub closed spec fn closed_spec(&self) -> bool {
        self.closed
    }

    /// The consumed prefix never exceeds what was supplied.
    pub closed spec fn wf(&self) -> bool {
        self.consumed <= self.data@.len()
    }

    /// The bitstream cursor: the unconsumed suffix of the supplied bytes.
    pub open spec fn cursor_spec(&self) -> Seq<u8> {
        self.data_spec().subrange(self.consumed_spec(), self.data_spec().len() as int)
    }

    /// Number of unconsumed bytes.
    pub open spec fn remaining_spec(&self) -> int {
        self.data_spec().len() - self.consumed_spec()
    }

    /// Creates a feeder with no bytes and input still open.
    pub fn new() -> (r: InputFeeder)
        ensures
            r.wf(),
            r.data_spec() == Seq::<u8>::empty(),
            r.consumed_spec() == 0,
            !r.closed_spec(),
    {
        InputFeeder { data: Vec::new(), consumed: 0, closed: false }
    }

    /// Supplies more input bytes.
    ///
    /// Fails with `AlreadyClosed` exactly when end-of-input was already
    /// signaled; the feeder is then unchanged.  Otherwise the bytes are
    /// appended after everything supplied before.
    pub fn supply(&mut self, bytes: &[u8]) -> (r: Result<(), JxlError>)
        requires
            old(self).wf(),
        ensures
            final(self).wf(),
            old(self).closed_spec() ==> ({
                &&& r == Err::<(), JxlError>(JxlError::AlreadyClosed)
                &&& final(self).data_spec() == old(self).data_spec()
            }),
            !old(self).closed_spec() ==> ({
                &&& r == Ok::<(), JxlError>(())
                &&& final(self).data_spec() == old(self).data_spec() + bytes@
            }),
            final(self).consumed_spec() == old(self).consumed_spec(),
            final(self).closed_spec() == old(self).closed_spec(),
    {
        if self.closed {
            return Err(JxlError::AlreadyClosed);
        }
        let mut i: usize = 0;
        while i < bytes.len()
            invariant
                i <= bytes@.len(),
                self.data@ == old(self).data@ + bytes@.subrange(0, i as int),
                self.consumed == old(self).consumed,
                self.closed == old(self).closed,
                old(self).consumed <= old(self).data@.len(),
            decreases bytes@.len() - i,
        {
            self.data.push(bytes[i]);
            i = i + 1;
            assert(self.data@ =~= old(self).data@ + bytes@.subrange(0, i as int));
        }
        assert(self.data@ =~= old(self).data@ + bytes@);
        Ok(())
    }

    /// Marks that no further bytes will arrive.
    pub fn close(&mut self)
        requires
            old(self).wf(),
        ensures
            final(self).wf(),
            final(self).closed_spec(),
            final(self).data_spec() == old(self).data_spec(),
            final(self).consumed_spec() == old(self).consumed_spec(),
    {
        self.closed = true;
    }

    /// How many leading bytes are no longer needed.
    pub fn consumed_count(&self) -> (r: usize)
        requires
            self.wf(),
        ensures
            r == self.consumed_spec(),
    {
        self.consumed
    }

    /// How many supplied bytes have not been consumed yet.
    pub fn remaining(&self) -> (r: usize)
        requires
            self.wf(),
        ensures
            r == self.remaining_spec(),
    {
        self.data.len() - self.consumed
    }

    /// Total number of bytes ever supplied.
    pub fn supplied_len(&self) -> (r: usize)
        ensures
            r == self.data_spec().len(),
    {
        self.data.len()
    }

    /// Whether end-of-input has been signaled.
    pub fn is_closed(&self) -> (r: bool)
        ensures
            r == self.closed_spec(),
    {
        self.closed
    }

    /// Advances the consumed prefix by `n` bytes (the stream never reads
    /// past the cursor's declared length).
    pub fn consume(&mut self, n: usize) -> (r: Result<(), JxlError>)
        requires
            old(self).wf(),
        ensures
            final(self).wf(),
            n <= old(self).remaining_spec() ==> ({
                &&& r == Ok::<(), JxlError>(())
                &&& final(self).consumed_spec() == old(self).consumed_spec() + n
            }),
            n > old(self).remaining_spec() ==> ({
                &&& r == Err::<(), JxlError>(JxlError::InvalidInput)
                &&& final(self).consumed_spec() == old(self).consumed_spec()
            }),
            final(self).data_spec() == old(self).data_spec(),
            final(self).closed_spec() == old(self).closed_spec(),
    {
        if n > self.data.len() - self.consumed {
            return Err(JxlError::InvalidInput);
        }
        self.consumed = self.consumed + n;
        Ok(())
    }

    /// Resets the feeder to its initial state: no bytes, input open.
    pub fn reset(&mut self)
        ensures
            final(self).wf(),
            final(self).data_spec() == Seq::<u8>::empty(),
            final(self).consumed_spec() == 0,
            !final(self).closed_spec(),
    {
        self.data = Vec::new();
        self.consumed = 0;
        self.closed = false;
    }
}

} // verus!
