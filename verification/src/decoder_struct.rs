//! Small record types of the decoder protocol.

use vstd::prelude::*;

verus! {

/// Stored size of a box in the container, and whether its contents are
/// compressed.
#[derive(Debug, Clone, Copy, PartialEq, Eq, Structural)]
pub struct JxlBoxContentSizeRaw {
    pub size: u64,
    pub compressed: bool,
}

/// Offset and size of one frame in the codestream, as a frame-index entry
/// records it.
#[derive(Debug, Clone, Copy, PartialEq, Eq, Structural)]
pub struct JxlFrameIndex {
    pub offset: u64,
    pub size: u64,
}

impl Default for JxlFrameIndex {
    fn default() -> (r: Self)
        ensures
            r.offset == 0 && r.size == 0,
    {
        JxlFrameIndex { offset: 0, size: 0 }
    }
}

} // verus!
