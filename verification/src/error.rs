//! Error taxonomy for the streaming protocol.
//!
//! Retryable protocol conditions (`NeedMoreInput`, `NeedOutputBuffer`) are
//! not errors and are surfaced as status values instead.  Everything here is
//! either a caller-sequence error, a data-corruption error or a resource
//! error, and is surfaced synchronously from the call that detected it.

use vstd::prelude::*;
use crate::encoder_enum::JxlEncoderError;
use crate::encoder_enum::JxlEncoderStatus;

verus! {

/// Errors surfaced by the decoding and encoding protocol core.
#[derive(Debug, Clone, Copy, PartialEq, Eq, Structural)]
pub enum JxlError {
    /// Input was supplied after end-of-input had been signaled.
    AlreadyClosed,
    /// The stream ended (input closed) while the decoder still needed bytes.
    TruncatedStream,
    /// A call was made that the protocol does not allow in the current state.
    ApiSequenceError,
    /// Image metadata was queried before the stream produced it.
    MetadataNotReady,
    /// A submitted output buffer is shorter than the negotiated size.
    UndersizedBuffer,
    /// The bitstream is malformed; the stream is dead.
    DecodingFailed,
    /// A caller-supplied value is outside what the protocol accepts.
    InvalidInput,
    /// The requested operation is not available.
    UnsupportedOperation,
    /// A full-image output buffer operation failed.
    OutputBufferError,
    /// A preview output buffer operation failed.
    PreviewBufferError,
    /// An extra-channel buffer operation failed.
    ExtraChannelBufferError,
    /// An extra-channel query failed.
    ExtraChannelError,
    /// A color-profile operation failed.
    ColorProfileError,
    /// A frame metadata operation failed.
    FrameError,
    /// A box metadata operation failed.
    BoxError,
    /// A box buffer operation failed.
    BoxBufferError,
    /// A JPEG reconstruction buffer operation failed.
    JpegReconstructionError,
    /// A pixel-format or bit-depth operation failed.
    PixelFormatError,
    /// The decoder still needs input before it can answer.
    NotEnoughInput,
    /// Growing the output accumulator would exceed the address space.
    NotEnoughOutput,
    /// The encoder backend reported a failure.
    EncodingFailed(JxlEncoderStatus),
    /// A wire status code did not correspond to any known status.
    InvalidDecoderStatus(i32),
    /// A gain-map bundle does not satisfy the wire-format size limits.
    GainMapBundleInvalidSize,
    /// A byte buffer could not be parsed as a gain-map bundle.
    GainMapBundleInvalidData,
}

impl JxlError {
    /// Maps a failing encoder status (plus the backend's refined error code)
    /// to a protocol error, as the encoder's callers surface it.
    pub fn from_encoder_status(status: JxlEncoderStatus, encoder_error: Option<JxlEncoderError>) -> (r:
        JxlError)
        requires
            status != JxlEncoderStatus::Success,
        ensures
            status == JxlEncoderStatus::NeedMoreOutput ==> r == JxlError::NotEnoughOutput,
            status == JxlEncoderStatus::Error ==> r == (match encoder_error {
                Some(JxlEncoderError::BadInput) => JxlError::InvalidInput,
                Some(JxlEncoderError::NotSupported) => JxlError::UnsupportedOperation,
                Some(JxlEncoderError::ApiUsage) => JxlError::InvalidInput,
                _ => JxlError::EncodingFailed(status),
            }),
    {
        match status {
            JxlEncoderStatus::Success => JxlError::EncodingFailed(status),
            JxlEncoderStatus::Error => match encoder_error {
                Some(JxlEncoderError::BadInput) => JxlError::InvalidInput,
                Some(JxlEncoderError::NotSupported) => JxlError::UnsupportedOperation,
                Some(JxlEncoderError::ApiUsage) => JxlError::InvalidInput,
                _ => JxlError::EncodingFailed(status),
            },
            JxlEncoderStatus::NeedMoreOutput => JxlError::NotEnoughOutput,
        }
    }
}

} // verus!
