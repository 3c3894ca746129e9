//! Image, frame and box metadata records.
//!
//! Real-valued fields are held as IEEE-754 bit patterns (`u32` for 32-bit
//! values), so the records stay exact plain data; callers convert at the
//! boundary.

use vstd::prelude::*;
use crate::color::JxlColorEncoding;
use crate::common::JxlBool;

verus! {

/// Image orientation, matching the eight EXIF operations.
#[derive(Debug, Clone, Copy, PartialEq, Eq, Structural)]
pub enum JxlOrientation {
    Identity,
    FlipHorizontal,
    Rotate180,
    FlipVertical,
    Transpose,
    Rotate90CW,
    AntiTranspose,
    Rotate90CCW,
}

impl Default for JxlOrientation {
    fn default() -> (r: Self)
        ensures
            r == JxlOrientation::Identity,
    {
        JxlOrientation::Identity
    }
}

/// Kind of an extra channel.
#[derive(Debug, Clone, Copy, PartialEq, Eq, Structural)]
pub enum JxlExtraChannelType {
    Alpha,
    Depth,
    SpotColor,
    SelectionMask,
    Black,
    Cfa,
    Thermal,
    Reserved0,
    Reserved1,
    Reserved2,
    Reserved3,
    Reserved4,
    Reserved5,
    Reserved6,
    Reserved7,
    Unknown,
    Optional,
}

impl Default for JxlExtraChannelType {
    fn default() -> (r: Self)
        ensures
            r == JxlExtraChannelType::Alpha,
    {
        JxlExtraChannelType::Alpha
    }
}

/// Frame blend modes.
#[derive(Debug, Clone, Copy, PartialEq, Eq, Structural)]
pub enum JxlBlendMode {
    Replace,
    Add,
    Blend,
    Muladd,
    Mul,
}

impl Default for JxlBlendMode {
    fn default() -> (r: Self)
        ensures
            r == JxlBlendMode::Replace,
    {
        JxlBlendMode::Replace
    }
}

/// Dimensions of the preview image.
#[derive(Debug, Clone, Copy, PartialEq, Eq, Structural)]
pub struct JxlPreviewHeader {
    pub xsize: u32,
    pub ysize: u32,
}

impl Default for JxlPreviewHeader {
    fn default() -> (r: Self)
        ensures
            r.xsize == 0 && r.ysize == 0,
    {
        JxlPreviewHeader { xsize: 0, ysize: 0 }
    }
}

/// Animation parameters of the stream.
#[derive(Debug, Clone, Copy, PartialEq, Eq, Structural)]
pub struct JxlAnimationHeader {
    pub tps_numerator: u32,
    pub tps_denominator: u32,
    pub num_loops: u32,
    pub have_timecodes: JxlBool,
}

impl Default for JxlAnimationHeader {
    fn default() -> (r: Self)
        ensures
            r.tps_numerator == 0 && r.tps_denominator == 0 && r.num_loops == 0
                && r.have_timecodes == JxlBool::False,
    {
        JxlAnimationHeader {
            tps_numerator: 0,
            tps_denominator: 0,
            num_loops: 0,
            have_timecodes: JxlBool::False,
        }
    }
}

/// Immutable-once-read image metadata, produced exactly once per stream.
///
/// `intensity_target`, `min_nits` and `linear_below` hold the IEEE-754 bit
/// pattern of the 32-bit real value.
#[derive(Debug, Clone, Copy, PartialEq, Eq, Structural)]
pub struct JxlBasicInfo {
    pub have_container: JxlBool,
    pub xsize: u32,
    pub ysize: u32,
    pub bits_per_sample: u32,
    pub exponent_bits_per_sample: u32,
    pub intensity_target: u32,
    pub min_nits: u32,
    pub relative_to_max_display: JxlBool,
    pub linear_below: u32,
    pub uses_original_profile: JxlBool,
    pub have_preview: JxlBool,
    pub have_animation: JxlBool,
    pub orientation: JxlOrientation,
    pub num_color_channels: u32,
    pub num_extra_channels: u32,
    pub alpha_bits: u32,
    pub alpha_exponent_bits: u32,
    pub alpha_premultiplied: JxlBool,
    pub preview: JxlPreviewHeader,
    pub animation: JxlAnimationHeader,
    pub intrinsic_xsize: u32,
    pub intrinsic_ysize: u32,
}

impl Default for JxlBasicInfo {
    fn default() -> (r: Self)
        ensures
            r == JxlBasicInfo::spec_default(),
    {
        JxlBasicInfo {
            have_container: JxlBool::False,
            xsize: 0,
            ysize: 0,
            bits_per_sample: 0,
            exponent_bits_per_sample: 0,
            intensity_target: 0,
            min_nits: 0,
            relative_to_max_display: JxlBool::False,
            linear_below: 0,
            uses_original_profile: JxlBool::False,
            have_preview: JxlBool::False,
            have_animation: JxlBool::False,
            orientation: JxlOrientation::Identity,
            num_color_channels: 0,
            num_extra_channels: 0,
            alpha_bits: 0,
            alpha_exponent_bits: 0,
            alpha_premultiplied: JxlBool::False,
            preview: JxlPreviewHeader { xsize: 0, ysize: 0 },
            animation: JxlAnimationHeader {
                tps_numerator: 0,
                tps_denominator: 0,
                num_loops: 0,
                have_timecodes: JxlBool::False,
            },
            intrinsic_xsize: 0,
            intrinsic_ysize: 0,
        }
    }
}

impl JxlBasicInfo {
    /// The all-zero record `Default::default` returns.
    pub open spec fn spec_default() -> JxlBasicInfo {
        JxlBasicInfo {
            have_container: JxlBool::False,
            xsize: 0,
            ysize: 0,
            bits_per_sample: 0,
            exponent_bits_per_sample: 0,
            intensity_target: 0,
            min_nits: 0,
            relative_to_max_display: JxlBool::False,
            linear_below: 0,
            uses_original_profile: JxlBool::False,
            have_preview: JxlBool::False,
            have_animation: JxlBool::False,
            orientation: JxlOrientation::Identity,
            num_color_channels: 0,
            num_extra_channels: 0,
            alpha_bits: 0,
            alpha_exponent_bits: 0,
            alpha_premultiplied: JxlBool::False,
            preview: JxlPreviewHeader { xsize: 0, ysize: 0 },
            animation: JxlAnimationHeader {
                tps_numerator: 0,
                tps_denominator: 0,
                num_loops: 0,
                have_timecodes: JxlBool::False,
            },
            intrinsic_xsize: 0,
            intrinsic_ysize: 0,
        }
    }
}

/// The RGBA components of a spot color; each holds the IEEE-754 bit pattern
/// of the 32-bit real value.
#[derive(Debug, Clone, Copy, PartialEq, Eq, Structural)]
pub struct JxlSpotColor {
    pub red: u32,
    pub green: u32,
    pub blue: u32,
    pub alpha: u32,
}

/// Metadata of one extra channel.
///
/// `spot_color` holds the IEEE-754 bit patterns of the four 32-bit real
/// components.
#[derive(Debug, Clone, Copy, PartialEq, Eq, Structural)]
pub struct JxlExtraChannelInfo {
    pub type_: JxlExtraChannelType,
    pub bits_per_sample: u32,
    pub exponent_bits_per_sample: u32,
    pub dim_shift: u32,
    pub name_length: u32,
    pub alpha_premultiplied: JxlBool,
    pub spot_color: JxlSpotColor,
    pub cfa_channel: u32,
}

impl Default for JxlExtraChannelInfo {
    fn default() -> (r: Self)
        ensures
            r.type_ == JxlExtraChannelType::Alpha,
            r.bits_per_sample == 0 && r.exponent_bits_per_sample == 0,
            r.dim_shift == 0 && r.name_length == 0,
            r.alpha_premultiplied == JxlBool::False,
            r.spot_color == (JxlSpotColor { red: 0, green: 0, blue: 0, alpha: 0 }),
            r.cfa_channel == 0,
    {
        JxlExtraChannelInfo {
            type_: JxlExtraChannelType::Alpha,
            bits_per_sample: 0,
            exponent_bits_per_sample: 0,
            dim_shift: 0,
            name_length: 0,
            alpha_premultiplied: JxlBool::False,
            spot_color: JxlSpotColor { red: 0, green: 0, blue: 0, alpha: 0 },
            cfa_channel: 0,
        }
    }
}

/// Header extension bits.
#[derive(Debug, Clone, Copy, PartialEq, Eq, Structural)]
pub struct JxlHeaderExtensions {
    pub extensions: u64,
}

/// How a frame or extra channel blends onto the canvas.
#[derive(Debug, Clone, Copy, PartialEq, Eq, Structural)]
pub struct JxlBlendInfo {
    pub blendmode: JxlBlendMode,
    pub source: u32,
    pub alpha: u32,
    pub clamp: JxlBool,
}

impl Default for JxlBlendInfo {
    fn default() -> (r: Self)
        ensures
            r.blendmode == JxlBlendMode::Replace && r.source == 0 && r.alpha == 0 && r.clamp
                == JxlBool::False,
    {
        JxlBlendInfo { blendmode: JxlBlendMode::Replace, source: 0, alpha: 0, clamp: JxlBool::False }
    }
}

/// Position and blending of one layer within a frame.
#[derive(Debug, Clone, Copy, PartialEq, Eq, Structural)]
pub struct JxlLayerInfo {
    pub have_crop: JxlBool,
    pub crop_x0: i32,
    pub crop_y0: i32,
    pub xsize: u32,
    pub ysize: u32,
    pub blend_info: JxlBlendInfo,
    pub save_as_reference: u32,
}

/// Per-frame metadata, valid only between one `Frame` event and the next.
#[derive(Debug, Clone, Copy, PartialEq, Eq, Structural)]
pub struct JxlFrameHeader {
    pub duration: u32,
    pub timecode: u32,
    pub name_length: u32,
    pub is_last: JxlBool,
    pub layer_info: JxlLayerInfo,
}

impl Default for JxlFrameHeader {
    fn default() -> (r: Self)
        ensures
            r.duration == 0 && r.timecode == 0 && r.name_length == 0 && r.is_last == JxlBool::False,
    {
        JxlFrameHeader {
            duration: 0,
            timecode: 0,
            name_length: 0,
            is_last: JxlBool::False,
            layer_info: JxlLayerInfo {
                have_crop: JxlBool::False,
                crop_x0: 0,
                crop_y0: 0,
                xsize: 0,
                ysize: 0,
                blend_info: JxlBlendInfo {
                    blendmode: JxlBlendMode::Replace,
                    source: 0,
                    alpha: 0,
                    clamp: JxlBool::False,
                },
                save_as_reference: 0,
            },
        }
    }
}

/// An owned gain-map bundle: HDR gain-map metadata, an optional structured
/// color encoding, an optional compressed ICC profile and the gain-map
/// codestream.
#[derive(Debug, Clone, PartialEq, Eq)]
pub struct JxlGainMapBundle {
    /// Version number of the gain-map bundle format.
    pub jhgm_version: u8,
    /// Binary metadata blob (ISO 21496-1).
    pub gain_map_metadata: Vec<u8>,
    /// Whether a structured color encoding is part of the bundle.
    pub has_color_encoding: bool,
    /// The structured color encoding; meaningful only when
    /// `has_color_encoding` is set.
    pub color_encoding: JxlColorEncoding,
    /// Compressed alternative ICC profile.
    pub alt_icc: Vec<u8>,
    /// The gain map itself, a bare codestream.
    pub gain_map: Vec<u8>,
}

impl JxlGainMapBundle {
    /// Creates an empty bundle.
    pub fn new() -> (r: Self)
        ensures
            r.jhgm_version == 0,
            r.gain_map_metadata@ == Seq::<u8>::empty(),
            !r.has_color_encoding,
            r.color_encoding == JxlColorEncoding::spec_default(),
            r.alt_icc@ == Seq::<u8>::empty(),
            r.gain_map@ == Seq::<u8>::empty(),
    {
        JxlGainMapBundle {
            jhgm_version: 0,
            gain_map_metadata: Vec::new(),
            has_color_encoding: false,
            color_encoding: JxlColorEncoding::default(),
            alt_icc: Vec::new(),
            gain_map: Vec::new(),
        }
    }
}

impl Default for JxlGainMapBundle {
    fn default() -> (r: Self)
        ensures
            r.jhgm_version == 0,
            r.gain_map_metadata@ == Seq::<u8>::empty(),
            !r.has_color_encoding,
            r.color_encoding == JxlColorEncoding::spec_default(),
            r.alt_icc@ == Seq::<u8>::empty(),
            r.gain_map@ == Seq::<u8>::empty(),
    {
        JxlGainMapBundle::new()
    }
}

} // verus!
