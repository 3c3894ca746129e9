//! Output accumulator: turns the encoder backend's chunked output into one
//! contiguous byte stream with a geometrically growing scratch buffer.
//!
//! The caller repeatedly offers the backend a scratch buffer of
//! `capacity()` bytes, then reports the backend's status and the bytes it
//! wrote.  Committed bytes are only ever appended, never truncated; the
//! scratch capacity never shrinks, and every growth exactly doubles it.

use vstd::prelude::*;
use crate::encoder_enum::JxlEncoderStatus;
use crate::error::JxlError;

verus! {

/// What the caller must do after one accumulation step.
#[derive(Debug, Clone, Copy, PartialEq, Eq, Structural)]
pub enum AccumulatorStep {
    /// Offer the backend another scratch buffer of the current capacity.
    Continue,
    /// The backend is done; the committed bytes are the final stream.
    Finished,
}

/// Accumulates encoder output across processing rounds.
pub struct OutputAccumulator {
    committed: Vec<u8>,
    capacity: usize,
}

impl OutputAccumulator {
    /// Bytes committed to the result stream so far.
    pub closed spec fn committed_spec(&self) -> Seq<u8> {
        self.committed@
    }

    /// Size of the scratch buffer the caller should offer the backend.
    pub closed spec fn capacity_spec(&self) -> int {
        self.capacity as int
    }

    /// The scratch capacity is never zero.
    pub closed spec fn wf(&self) -> bool {
        self.capacity >= 1
    }

    /// Creates an accumulator with the given initial scratch capacity.
    pub fn new(initial_capacity: usize) -> (r: OutputAccumulator)
        requires
            initial_capacity >= 1,
        ensures
            r.wf(),
            r.committed_spec() == Seq::<u8>::empty(),
            r.capacity_spec() == initial_capacity,
    {
        OutputAccumulator { committed: Vec::new(), capacity: initial_capacity }
    }

    /// Current scratch capacity.
    pub fn capacity(&self) -> (r: usize)
        ensures
            r == self.capacity_spec(),
    {
        self.capacity
    }

    /// Number of committed bytes.
    pub fn committed_len(&self) -> (r: usize)
        ensures
            r == self.committed_spec().len(),
    {
        self.committed.len()
    }

    /// Records the outcome of one backend round: the status it returned and
    /// the bytes it wrote into the offered scratch buffer.
    ///
    /// The written bytes are appended to the committed stream whatever the
    /// status, so already-produced output survives a failure.  `Finished`
    /// is returned exactly on `Success`; `Error` is surfaced as
    /// `EncodingFailed`.  On `NeedMoreOutput` the capacity doubles, and the
    /// step fails with `NotEnoughOutput` only if the doubled capacity would
    /// not fit the address space.
    pub fn step(&mut self, status: JxlEncoderStatus, chunk: &[u8]) -> (r: Result<
        AccumulatorStep,
        JxlError,
    >)
        requires
            old(self).wf(),
            chunk@.len() <= old(self).capacity_spec(),
        ensures
            final(self).wf(),
            final(self).committed_spec() == old(self).committed_spec() + chunk@,
            final(self).capacity_spec() >= old(self).capacity_spec(),
            status == JxlEncoderStatus::Success ==> ({
                &&& r == Ok::<AccumulatorStep, JxlError>(AccumulatorStep::Finished)
                &&& final(self).capacity_spec() == old(self).capacity_spec()
            }),
            status == JxlEncoderStatus::Error ==> ({
                &&& r == Err::<AccumulatorStep, JxlError>(
                    JxlError::EncodingFailed(JxlEncoderStatus::Error),
                )
                &&& final(self).capacity_spec() == old(self).capacity_spec()
            }),
            status == JxlEncoderStatus::NeedMoreOutput ==> ({
                &&& (2 * old(self).capacity_spec() <= usize::MAX ==> ({
                    &&& r == Ok::<AccumulatorStep, JxlError>(AccumulatorStep::Continue)
                    &&& final(self).capacity_spec() == 2 * old(self).capacity_spec()
                }))
                &&& (2 * old(self).capacity_spec() > usize::MAX ==> ({
                    &&& r == Err::<AccumulatorStep, JxlError>(JxlError::NotEnoughOutput)
                    &&& final(self).capacity_spec() == old(self).capacity_spec()
                }))
            }),
    {
        let mut i: usize = 0;
        while i < chunk.len()
            invariant
                i <= chunk@.len(),
                self.committed@ == old(self).committed@ + chunk@.subrange(0, i as int),
                self.capacity == old(self).capacity,
            decreases chunk@.len() - i,
        {
            self.committed.push(chunk[i]);
            i = i + 1;
            assert(self.committed@ =~= old(self).committed@ + chunk@.subrange(0, i as int));
        }
        assert(self.committed@ =~= old(self).committed@ + chunk@);
        match status {
            JxlEncoderStatus::Success => Ok(AccumulatorStep::Finished),
            JxlEncoderStatus::Error => Err(JxlError::EncodingFailed(JxlEncoderStatus::Error)),
            JxlEncoderStatus::NeedMoreOutput => {
                if self.capacity > usize::MAX / 2 {
                    return Err(JxlError::NotEnoughOutput);
                }
                self.capacity = self.capacity * 2;
                Ok(AccumulatorStep::Continue)
            },
        }
    }

    /// Hands out the committed byte stream, leaving the accumulator empty
    /// with its capacity intact.
    pub fn take_output(&mut self) -> (r: Vec<u8>)
        requires
            old(self).wf(),
        ensures
            final(self).wf(),
            r@ == old(self).committed_spec(),
            final(self).committed_spec() == Seq::<u8>::empty(),
            final(self).capacity_spec() == old(self).capacity_spec(),
    {
        let mut out: Vec<u8> = Vec::new();
        core::mem::swap(&mut out, &mut self.committed);
        out
    }
}

} // verus!
