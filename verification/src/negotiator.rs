//! Buffer negotiator: computes the exact byte count an output buffer must
//! have for a pixel-output target, from the image metadata and the caller's
//! pixel format.

use vstd::prelude::*;
use crate::common::spec_sample_bytes;
use crate::common::sample_bytes;
use crate::common::JxlPixelFormat;
use crate::error::JxlError;
use crate::metadata::JxlBasicInfo;

verus! {

/// A pixel-output target: what the negotiated buffer will hold.
#[derive(Debug, Clone, Copy, PartialEq, Eq, Structural)]
pub enum OutputTarget {
    /// The full-resolution image, with the format's channel count.
    FullImage,
    /// The preview image, with the format's channel count.
    Preview,
    /// One extra channel: a single channel per pixel.
    ExtraChannel,
}

/// Length in bytes of one row: width x channels x sample width, rounded up
/// to the row alignment (0 and 1 mean no padding).
pub open spec fn spec_row_bytes(width: int, channels: int, sample: int, align: int) -> int {
    let raw = width * channels * sample;
    if align <= 1 {
        raw
    } else {
        ((raw + align - 1) / align) * align
    }
}

/// Width, height and channel count that a target selects.
pub open spec fn spec_target_dims(info: JxlBasicInfo, format: JxlPixelFormat, target: OutputTarget)
    -> (int, int, int) {
    match target {
        OutputTarget::FullImage => (info.xsize as int, info.ysize as int, format.num_channels as int),
        OutputTarget::Preview => (
            info.preview.xsize as int,
            info.preview.ysize as int,
            format.num_channels as int,
        ),
        OutputTarget::ExtraChannel => (info.xsize as int, info.ysize as int, 1),
    }
}

/// Exact byte count of the output buffer for a target: rows x row bytes.
pub open spec fn spec_required_size(
    info: JxlBasicInfo,
    format: JxlPixelFormat,
    target: OutputTarget,
) -> int {
    let (width, height, channels) = spec_target_dims(info, format, target);
    height * spec_row_bytes(width, channels, spec_sample_bytes(format.data_type) as int, format.align as int)
}

/// The required size is a pure function of its arguments: two queries with
/// the same metadata, format and target always agree.
pub proof fn lemma_required_size_idempotent(
    info: JxlBasicInfo,
    format: JxlPixelFormat,
    target: OutputTarget,
    r1: int,
    r2: int,
)
    requires
        r1 == spec_required_size(info, format, target),
        r2 == spec_required_size(info, format, target),
    ensures
        r1 == r2,
{
}

/// Computes [`spec_required_size`] exactly.
///
/// Returns `Ok` exactly when the size fits the address space; an overflow
/// is reported as the target's buffer error.  The metadata-availability
/// check lives in the decoder, which owns the metadata.
pub fn required_size(info: &JxlBasicInfo, format: &JxlPixelFormat, target: OutputTarget) -> (r:
    Result<usize, JxlError>)
    ensures
        spec_required_size(*info, *format, target) <= usize::MAX ==> (r matches Ok(n) && n
            == spec_required_size(*info, *format, target)),
        spec_required_size(*info, *format, target) > usize::MAX ==> r == Err::<usize, JxlError>(
            JxlError::OutputBufferError,
        ),
{
    let (width, height, channels): (u64, u64, u64) = match target {
        OutputTarget::FullImage => (info.xsize as u64, info.ysize as u64, format.num_channels as u64),
        OutputTarget::Preview => (
            info.preview.xsize as u64,
            info.preview.ysize as u64,
            format.num_channels as u64,
        ),
        OutputTarget::ExtraChannel => (info.xsize as u64, info.ysize as u64, 1u64),
    };
    let sample = sample_bytes(format.data_type) as u64;
    proof {
        assert(width * channels * sample < 0x400_0000_0000_0000_0000) by (nonlinear_arith)
            requires
                0 <= width < 0x1_0000_0000,
                0 <= channels < 0x1_0000_0000,
                0 <= sample <= 4,
        ;
    }
    let raw: u128 = (width as u128) * (channels as u128) * (sample as u128);
    let align: u128 = format.align as u128;
    proof {
        let rawi = raw as int;
        let aligni = align as int;
        if align > 1 {
            assert(((rawi + aligni - 1) / aligni) * aligni <= rawi + aligni - 1 && ((rawi + aligni
                - 1) / aligni) * aligni >= 0) by (nonlinear_arith)
                requires
                    aligni > 1,
                    rawi >= 0,
            ;
        }
    }
    let row: u128 = if align <= 1 {
        raw
    } else {
        ((raw + align - 1) / align) * align
    };
    proof {
        assert(row == spec_row_bytes(width as int, channels as int, sample as int, align as int));
        assert(height * row <= 0xFFFF_FFFF * row) by (nonlinear_arith)
            requires
                0 <= height < 0x1_0000_0000,
                row >= 0,
        ;
        assert(0xFFFF_FFFF * row < 0x1_0000_0000 * 0x800_0000_0000_0000_0000) by (nonlinear_arith)
            requires
                0 <= row < 0x800_0000_0000_0000_0000,
        ;
    }
    let total: u128 = (height as u128) * row;
    proof {
        assert(total == spec_required_size(*info, *format, target));
    }
    if total > usize::MAX as u128 {
        return Err(JxlError::OutputBufferError);
    }
    Ok(total as usize)
}

} // verus!
