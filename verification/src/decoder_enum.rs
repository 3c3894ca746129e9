//! Status codes of the decoder protocol and their wire encoding.
//!
//! The protocol logic never depends on the numeric value of a status; the
//! mapping between a status and its wire integer lives only in the
//! [`JxlDecoderStatus::bits`] / [`JxlDecoderStatus::from_bits`] table.

use vstd::prelude::*;
use crate::error::JxlError;

verus! {

/// Result of checking a byte prefix for a codestream or container signature.
#[derive(Debug, Clone, Copy, PartialEq, Eq, Structural)]
pub enum JxlSignature {
    /// The prefix is too short to decide; it may still become valid.
    NotEnoughBytes,
    /// The prefix can never start a valid stream.
    Invalid,
    /// The prefix starts a bare codestream.
    Codestream,
    /// The prefix starts a boxed container.
    Container,
}

/// The tagged outcome of one decoder processing step, and the event space
/// callers subscribe to.
#[derive(Debug, Clone, Copy, PartialEq, Eq, Structural)]
pub enum JxlDecoderStatus {
    /// Processing finished; nothing is left to do.
    Success,
    /// The stream is in a fatal error state.
    Error,
    /// More input bytes are needed before the next step can run.
    NeedMoreInput,
    /// A preview output buffer must be supplied before the next step.
    NeedPreviewOutBuffer,
    /// A full-image output buffer must be supplied before the next step.
    NeedImageOutBuffer,
    /// The JPEG reconstruction buffer is full; a larger one is needed.
    JpegNeedMoreOutput,
    /// The box contents buffer is full; a larger one is needed.
    BoxNeedMoreOutput,
    /// Basic image metadata is available.
    BasicInfo,
    /// The color encoding or ICC profile is available.
    ColorEncoding,
    /// The preview image has been decoded.
    PreviewImage,
    /// A frame header has been read; per-frame metadata is available.
    Frame,
    /// The full image of the current frame has been decoded.
    FullImage,
    /// JPEG reconstruction metadata is available.
    JpegReconstruction,
    /// A container box has been found; its tag and size are available.
    Box,
    /// A progressive pass of the current frame completed.
    FrameProgression,
    /// The current box's contents have been fully delivered.
    BoxComplete,
}

/// Wire integer of a status, as the bitmask-compatible code space defines it.
pub open spec fn spec_status_bits(s: JxlDecoderStatus) -> i32 {
    match s {
        JxlDecoderStatus::Success => 0,
        JxlDecoderStatus::Error => 1,
        JxlDecoderStatus::NeedMoreInput => 2,
        JxlDecoderStatus::NeedPreviewOutBuffer => 3,
        JxlDecoderStatus::NeedImageOutBuffer => 5,
        JxlDecoderStatus::JpegNeedMoreOutput => 6,
        JxlDecoderStatus::BoxNeedMoreOutput => 7,
        JxlDecoderStatus::BasicInfo => 0x40,
        JxlDecoderStatus::ColorEncoding => 0x100,
        JxlDecoderStatus::PreviewImage => 0x200,
        JxlDecoderStatus::Frame => 0x400,
        JxlDecoderStatus::FullImage => 0x1000,
        JxlDecoderStatus::JpegReconstruction => 0x2000,
        JxlDecoderStatus::Box => 0x4000,
        JxlDecoderStatus::FrameProgression => 0x8000,
        JxlDecoderStatus::BoxComplete => 0x10000,
    }
}

impl JxlDecoderStatus {
    /// Wire integer of this status.
    pub fn bits(&self) -> (r: i32)
        ensures
            r == spec_status_bits(*self),
    {
        match self {
            JxlDecoderStatus::Success => 0,
            JxlDecoderStatus::Error => 1,
            JxlDecoderStatus::NeedMoreInput => 2,
            JxlDecoderStatus::NeedPreviewOutBuffer => 3,
            JxlDecoderStatus::NeedImageOutBuffer => 5,
            JxlDecoderStatus::JpegNeedMoreOutput => 6,
            JxlDecoderStatus::BoxNeedMoreOutput => 7,
            JxlDecoderStatus::BasicInfo => 0x40,
            JxlDecoderStatus::ColorEncoding => 0x100,
            JxlDecoderStatus::PreviewImage => 0x200,
            JxlDecoderStatus::Frame => 0x400,
            JxlDecoderStatus::FullImage => 0x1000,
            JxlDecoderStatus::JpegReconstruction => 0x2000,
            JxlDecoderStatus::Box => 0x4000,
            JxlDecoderStatus::FrameProgression => 0x8000,
            JxlDecoderStatus::BoxComplete => 0x10000,
        }
    }

    /// Decodes a wire integer back to a status.
    ///
    /// Returns `Ok` exactly for the sixteen integers of the wire-code table,
    /// and the unique status with those bits; every other integer is rejected
    /// with [`JxlError::InvalidDecoderStatus`].
    pub fn from_bits(bits: i32) -> (r: Result<Self, JxlError>)
        ensures
            forall|s: JxlDecoderStatus| spec_status_bits(s) == bits ==> r == Ok::<
                JxlDecoderStatus,
                JxlError,
            >(s),
            r matches Ok(s) ==> spec_status_bits(s) == bits,
            r matches Err(e) ==> e == JxlError::InvalidDecoderStatus(bits) && forall|
                s: JxlDecoderStatus,
            | spec_status_bits(s) != bits,
    {
        match bits {
            0 => Ok(JxlDecoderStatus::Success),
            1 => Ok(JxlDecoderStatus::Error),
            2 => Ok(JxlDecoderStatus::NeedMoreInput),
            3 => Ok(JxlDecoderStatus::NeedPreviewOutBuffer),
            5 => Ok(JxlDecoderStatus::NeedImageOutBuffer),
            6 => Ok(JxlDecoderStatus::JpegNeedMoreOutput),
            7 => Ok(JxlDecoderStatus::BoxNeedMoreOutput),
            0x40 => Ok(JxlDecoderStatus::BasicInfo),
            0x100 => Ok(JxlDecoderStatus::ColorEncoding),
            0x200 => Ok(JxlDecoderStatus::PreviewImage),
            0x400 => Ok(JxlDecoderStatus::Frame),
            0x1000 => Ok(JxlDecoderStatus::FullImage),
            0x2000 => Ok(JxlDecoderStatus::JpegReconstruction),
            0x4000 => Ok(JxlDecoderStatus::Box),
            0x8000 => Ok(JxlDecoderStatus::FrameProgression),
            0x10000 => Ok(JxlDecoderStatus::BoxComplete),
            _ => Err(JxlError::InvalidDecoderStatus(bits)),
        }
    }
}

/// Granularity of progressive decoding steps.
#[derive(Debug, Clone, Copy, PartialEq, Eq, Structural)]
pub enum JxlProgressiveDetail {
    KFrames,
    KDc,
    KLastPasses,
    KPasses,
    KDcprogressive,
    KDcgroups,
    KGroups,
}

/// Which color profile a query refers to.
#[derive(Debug, Clone, Copy, PartialEq, Eq, Structural)]
pub enum JxlColorProfileTarget {
    /// The original color profile from the metadata.
    Original,
    /// The color profile of the decoded pixels.
    Data,
}

} // verus!
