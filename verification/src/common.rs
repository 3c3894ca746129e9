//! Shared value types: the wire boolean, sample data types, pixel formats
//! and bit-depth descriptors used across the decoder and encoder protocols.

use vstd::prelude::*;

verus! {

/// Boolean as carried on the codec wire interface.
#[derive(Debug, Clone, Copy, PartialEq, Eq, Structural)]
pub enum JxlBool {
    False,
    True,
}

impl Default for JxlBool {
    fn default() -> (r: Self)
        ensures
            r == JxlBool::False,
    {
        JxlBool::False
    }
}

/// Converts a Rust `bool` to the wire boolean.
pub fn to_jxl_bool(value: bool) -> (r: JxlBool)
    ensures
        r == (if value {
            JxlBool::True
        } else {
            JxlBool::False
        }),
{
    if value {
        JxlBool::True
    } else {
        JxlBool::False
    }
}

/// Converts the wire boolean back to a Rust `bool`.
pub fn from_jxl_bool(value: JxlBool) -> (r: bool)
    ensures
        r == (value != JxlBool::False),
{
    value != JxlBool::False
}

/// Data type of one sample (one channel of one pixel).
#[derive(Debug, Clone, Copy, PartialEq, Eq, Structural)]
pub enum JxlDataType {
    Float,
    Uint8,
    Uint16,
    Float16,
}

/// Byte order for multi-byte sample types.
#[derive(Debug, Clone, Copy, PartialEq, Eq, Structural)]
pub enum JxlEndianness {
    NativeEndian,
    LittleEndian,
    BigEndian,
}

/// How the bit depth of output samples is chosen.
#[derive(Debug, Clone, Copy, PartialEq, Eq, Structural)]
pub enum JxlBitDepthType {
    FromPixelFormat,
    FromCodestream,
    Custom,
}

/// Caller-chosen description of how samples are laid out in memory.
///
/// `align` rounds each row up to a multiple of that many bytes; 0 and 1 both
/// mean "no padding".
#[derive(Debug, Clone, Copy, PartialEq, Eq, Structural)]
pub struct JxlPixelFormat {
    pub num_channels: u32,
    pub data_type: JxlDataType,
    pub endianness: JxlEndianness,
    pub align: usize,
}

impl Default for JxlPixelFormat {
    fn default() -> (r: Self)
        ensures
            r.num_channels == 3,
            r.data_type == JxlDataType::Uint8,
            r.endianness == JxlEndianness::NativeEndian,
            r.align == 0,
    {
        JxlPixelFormat {
            num_channels: 3,
            data_type: JxlDataType::Uint8,
            endianness: JxlEndianness::NativeEndian,
            align: 0,
        }
    }
}

/// Interpretation of the value range of input and output buffers.
#[derive(Debug, Clone, Copy, PartialEq, Eq, Structural)]
pub struct JxlBitDepth {
    pub type_: JxlBitDepthType,
    pub bits_per_sample: u32,
    pub exponent_bits_per_sample: u32,
}

impl Default for JxlBitDepth {
    fn default() -> (r: Self)
        ensures
            r.type_ == JxlBitDepthType::FromPixelFormat,
            r.bits_per_sample == 8,
            r.exponent_bits_per_sample == 0,
    {
        JxlBitDepth {
            type_: JxlBitDepthType::FromPixelFormat,
            bits_per_sample: 8,
            exponent_bits_per_sample: 0,
        }
    }
}

/// Color layout of a source image handed to the encoder: grayscale or RGB,
/// 8- or 16-bit samples, with or without alpha.
#[derive(Debug, Clone, Copy, PartialEq, Eq, Structural)]
pub enum SourceColorType {
    L8,
    La8,
    Rgb8,
    Rgba8,
    L16,
    La16,
    Rgb16,
    Rgba16,
}

/// Number of color channels of a source color type (alpha not counted).
pub open spec fn spec_source_color_channels(t: SourceColorType) -> u32 {
    match t {
        SourceColorType::L8 => 1,
        SourceColorType::La8 => 1,
        SourceColorType::Rgb8 => 3,
        SourceColorType::Rgba8 => 3,
        SourceColorType::L16 => 1,
        SourceColorType::La16 => 1,
        SourceColorType::Rgb16 => 3,
        SourceColorType::Rgba16 => 3,
    }
}

/// Bits per sample of a source color type.
pub open spec fn spec_source_bits_per_sample(t: SourceColorType) -> u32 {
    match t {
        SourceColorType::L8 => 8,
        SourceColorType::La8 => 8,
        SourceColorType::Rgb8 => 8,
        SourceColorType::Rgba8 => 8,
        SourceColorType::L16 => 16,
        SourceColorType::La16 => 16,
        SourceColorType::Rgb16 => 16,
        SourceColorType::Rgba16 => 16,
    }
}

/// Whether a source color type carries an alpha channel.
pub open spec fn spec_source_has_alpha(t: SourceColorType) -> bool {
    match t {
        SourceColorType::La8 => true,
        SourceColorType::Rgba8 => true,
        SourceColorType::La16 => true,
        SourceColorType::Rgba16 => true,
        _ => false,
    }
}

/// The `(num_color_channels, bits_per_sample, alpha_bits)` triple the
/// encoder's basic info needs for a source color type: alpha, when
/// present, has the sample width of the color channels.
pub fn source_color_layout(t: SourceColorType) -> (r: (u32, u32, u32))
    ensures
        r.0 == spec_source_color_channels(t),
        r.1 == spec_source_bits_per_sample(t),
        r.2 == (if spec_source_has_alpha(t) {
            spec_source_bits_per_sample(t)
        } else {
            0u32
        }),
{
    match t {
        SourceColorType::L8 => (1, 8, 0),
        SourceColorType::La8 => (1, 8, 8),
        SourceColorType::Rgb8 => (3, 8, 0),
        SourceColorType::Rgba8 => (3, 8, 8),
        SourceColorType::L16 => (1, 16, 0),
        SourceColorType::La16 => (1, 16, 16),
        SourceColorType::Rgb16 => (3, 16, 0),
        SourceColorType::Rgba16 => (3, 16, 16),
    }
}

/// Total channels per pixel a source color type stores (alpha counted),
/// and so the channel count of its interleaved pixel buffer.
pub fn source_total_channels(t: SourceColorType) -> (r: u32)
    ensures
        r == spec_source_color_channels(t) + (if spec_source_has_alpha(t) {
            1u32
        } else {
            0u32
        }),
{
    match t {
        SourceColorType::L8 => 1,
        SourceColorType::La8 => 2,
        SourceColorType::Rgb8 => 3,
        SourceColorType::Rgba8 => 4,
        SourceColorType::L16 => 1,
        SourceColorType::La16 => 2,
        SourceColorType::Rgb16 => 3,
        SourceColorType::Rgba16 => 4,
    }
}

/// Sample data type of a source color type's pixel buffer.
pub fn source_data_type(t: SourceColorType) -> (r: JxlDataType)
    ensures
        r == (if spec_source_bits_per_sample(t) == 8 {
            JxlDataType::Uint8
        } else {
            JxlDataType::Uint16
        }),
{
    match t {
        SourceColorType::L8 => JxlDataType::Uint8,
        SourceColorType::La8 => JxlDataType::Uint8,
        SourceColorType::Rgb8 => JxlDataType::Uint8,
        SourceColorType::Rgba8 => JxlDataType::Uint8,
        SourceColorType::L16 => JxlDataType::Uint16,
        SourceColorType::La16 => JxlDataType::Uint16,
        SourceColorType::Rgb16 => JxlDataType::Uint16,
        SourceColorType::Rgba16 => JxlDataType::Uint16,
    }
}

/// Width in bytes of one sample of the given data type.
pub open spec fn spec_sample_bytes(dt: JxlDataType) -> nat {
    match dt {
        JxlDataType::Float => 4,
        JxlDataType::Uint8 => 1,
        JxlDataType::Uint16 => 2,
        JxlDataType::Float16 => 2,
    }
}

/// Executable counterpart of [`spec_sample_bytes`].
pub fn sample_bytes(dt: JxlDataType) -> (r: usize)
    ensures
        r == spec_sample_bytes(dt),
{
    match dt {
        JxlDataType::Float => 4,
        JxlDataType::Uint8 => 1,
        JxlDataType::Uint16 => 2,
        JxlDataType::Float16 => 2,
    }
}

} // verus!
