//! Callback dispatcher: a context registry for multi-threaded pixel
//! delivery.
//!
//! Instead of smuggling callback state through opaque pointers, the
//! dispatcher owns a table mapping a frame id to the number of per-thread
//! contexts allocated for it.  Registration happens once per frame, and
//! completion releases the entry exactly once; a second completion or a
//! duplicate registration is a caller-sequence error, which rules out
//! double-release by construction.

use vstd::prelude::*;
use crate::error::JxlError;

verus! {

/// Registry of per-frame callback contexts.
pub struct CallbackDispatcher {
    frames: Vec<(u64, usize)>,
}

/// Whether `id` is registered in the table.
pub open spec fn spec_table_contains(s: Seq<(u64, usize)>, id: u64) -> bool {
    exists|i: int| 0 <= i < s.len() && s[i].0 == id
}

impl CallbackDispatcher {
    /// The registry table: frame id and context count, in registration
    /// order.
    pub closed spec fn table_spec(&self) -> Seq<(u64, usize)> {
        self.frames@
    }

    /// Frame ids are unique.
    pub closed spec fn wf(&self) -> bool {
        forall|i: int, j: int|
            0 <= i < j < self.frames@.len() ==> self.frames@[i].0 != self.frames@[j].0
    }

    /// Creates an empty registry.
    pub fn new() -> (r: CallbackDispatcher)
        ensures
            r.wf(),
            r.table_spec() == Seq::<(u64, usize)>::empty(),
    {
        CallbackDispatcher { frames: Vec::new() }
    }

    /// Number of frames with live contexts.
    pub fn active_frames(&self) -> (r: usize)
        ensures
            r == self.table_spec().len(),
    {
        self.frames.len()
    }

    /// Whether contexts for `frame_id` are currently registered.
    pub fn has_frame(&self, frame_id: u64) -> (r: bool)
        ensures
            r == spec_table_contains(self.table_spec(), frame_id),
    {
        let mut i: usize = 0;
        while i < self.frames.len()
            invariant
                i <= self.frames@.len(),
                forall|k: int| 0 <= k < i ==> self.frames@[k].0 != frame_id,
            decreases self.frames@.len() - i,
        {
            if self.frames[i].0 == frame_id {
                return true;
            }
            i = i + 1;
        }
        false
    }

    /// Registers `num_contexts` per-thread contexts for a frame.
    ///
    /// Fails with `ApiSequenceError` exactly when the frame already has
    /// live contexts (a callback registered twice); the registry is then
    /// unchanged, so a failed registration leaks nothing.
    pub fn register_frame(&mut self, frame_id: u64, num_contexts: usize) -> (r: Result<
        (),
        JxlError,
    >)
        requires
            old(self).wf(),
        ensures
            final(self).wf(),
            spec_table_contains(old(self).table_spec(), frame_id) ==> ({
                &&& r == Err::<(), JxlError>(JxlError::ApiSequenceError)
                &&& final(self).table_spec() == old(self).table_spec()
            }),
            !spec_table_contains(old(self).table_spec(), frame_id) ==> ({
                &&& r == Ok::<(), JxlError>(())
                &&& final(self).table_spec() == old(self).table_spec().push(
                    (frame_id, num_contexts),
                )
            }),
    {
        if self.has_frame(frame_id) {
            return Err(JxlError::ApiSequenceError);
        }
        self.frames.push((frame_id, num_contexts));
        Ok(())
    }

    /// Releases the contexts of a frame after all its callback runs have
    /// finished, returning how many contexts were released.
    ///
    /// Fails with `ApiSequenceError` exactly when the frame has no live
    /// contexts — in particular on a second release of the same frame —
    /// leaving the registry unchanged.
    pub fn complete_frame(&mut self, frame_id: u64) -> (r: Result<usize, JxlError>)
        requires
            old(self).wf(),
        ensures
            final(self).wf(),
            !spec_table_contains(old(self).table_spec(), frame_id) ==> ({
                &&& r == Err::<usize, JxlError>(JxlError::ApiSequenceError)
                &&& final(self).table_spec() == old(self).table_spec()
            }),
            spec_table_contains(old(self).table_spec(), frame_id) ==> (exists|i: int|
                {
                    &&& 0 <= i < old(self).table_spec().len()
                    &&& old(self).table_spec()[i].0 == frame_id
                    &&& r == Ok::<usize, JxlError>(old(self).table_spec()[i].1)
                    &&& final(self).table_spec() == old(self).table_spec().remove(i)
                }),
            !spec_table_contains(final(self).table_spec(), frame_id),
    {
        let mut i: usize = 0;
        while i < self.frames.len()
            invariant
                i <= self.frames@.len(),
                forall|k: int| 0 <= k < i ==> self.frames@[k].0 != frame_id,
                self.frames@ == old(self).frames@,
                old(self).wf(),
            decreases self.frames@.len() - i,
        {
            if self.frames[i].0 == frame_id {
                let n = self.frames[i].1;
                self.frames.remove(i);
                proof {
                    assert(final(self).table_spec() == old(self).table_spec().remove(i as int));
                    assert forall|k: int|
                        0 <= k < self.frames@.len() implies self.frames@[k].0 != frame_id by {
                        if k < i {
                            assert(self.frames@[k] == old(self).frames@[k]);
                        } else {
                            assert(self.frames@[k] == old(self).frames@[k + 1]);
                        }
                    }
                }
                return Ok(n);
            }
            i = i + 1;
        }
        Err(JxlError::ApiSequenceError)
    }
}

} // verus!
