//! Color encoding model.
//!
//! Real-valued fields (white point and primary coordinates, gamma) are held
//! as the IEEE-754 bit pattern of the 64-bit value, so that the protocol
//! logic can carry and serialize them exactly; converting to and from actual
//! floating-point values is the caller's concern.

use vstd::prelude::*;

verus! {

/// Color space of the image data.
#[derive(Debug, Clone, Copy, PartialEq, Eq, Structural)]
pub enum JxlColorSpace {
    RGB,
    Gray,
    XYB,
    Unknown,
}

/// Built-in white point.
#[derive(Debug, Clone, Copy, PartialEq, Eq, Structural)]
pub enum JxlWhitePoint {
    D65,
    Custom,
    E,
    DCI,
}

/// Built-in RGB primaries.
#[derive(Debug, Clone, Copy, PartialEq, Eq, Structural)]
pub enum JxlPrimaries {
    SRGB,
    Custom,
    BT2100,
    P3,
}

/// Built-in transfer functions.
#[derive(Debug, Clone, Copy, PartialEq, Eq, Structural)]
pub enum JxlTransferFunction {
    BT709,
    Unknown,
    Linear,
    SRGB,
    PQ,
    DCI,
    HLG,
    Gamma,
}

/// Rendering intent of the color profile.
#[derive(Debug, Clone, Copy, PartialEq, Eq, Structural)]
pub enum JxlRenderingIntent {
    Perceptual,
    Relative,
    Saturation,
    Absolute,
}

/// A CIE xy coordinate pair; each component is the IEEE-754 bit pattern of
/// the 64-bit real value.
#[derive(Debug, Clone, Copy, PartialEq, Eq, Structural)]
pub struct JxlXyCoords {
    pub x: u64,
    pub y: u64,
}

/// Structured color profile of an image.
///
/// Each `*_xy` pair and `gamma` holds the IEEE-754 bit pattern of the
/// corresponding 64-bit real value.
#[derive(Debug, Clone, Copy, PartialEq, Eq, Structural)]
pub struct JxlColorEncoding {
    pub color_space: JxlColorSpace,
    pub white_point: JxlWhitePoint,
    pub white_point_xy: JxlXyCoords,
    pub primaries: JxlPrimaries,
    pub primaries_red_xy: JxlXyCoords,
    pub primaries_green_xy: JxlXyCoords,
    pub primaries_blue_xy: JxlXyCoords,
    pub transfer_function: JxlTransferFunction,
    pub gamma: u64,
    pub rendering_intent: JxlRenderingIntent,
}

impl Default for JxlColorEncoding {
    fn default() -> (r: Self)
        ensures
            r == JxlColorEncoding::spec_default(),
    {
        JxlColorEncoding {
            color_space: JxlColorSpace::RGB,
            white_point: JxlWhitePoint::D65,
            white_point_xy: JxlXyCoords { x: 0, y: 0 },
            primaries: JxlPrimaries::SRGB,
            primaries_red_xy: JxlXyCoords { x: 0, y: 0 },
            primaries_green_xy: JxlXyCoords { x: 0, y: 0 },
            primaries_blue_xy: JxlXyCoords { x: 0, y: 0 },
            transfer_function: JxlTransferFunction::SRGB,
            gamma: 0,
            rendering_intent: JxlRenderingIntent::Perceptual,
        }
    }
}

impl JxlColorEncoding {
    /// The value `Default::default` returns: sRGB with zeroed numeric fields.
    pub open spec fn spec_default() -> JxlColorEncoding {
        JxlColorEncoding {
            color_space: JxlColorSpace::RGB,
            white_point: JxlWhitePoint::D65,
            white_point_xy: JxlXyCoords { x: 0, y: 0 },
            primaries: JxlPrimaries::SRGB,
            primaries_red_xy: JxlXyCoords { x: 0, y: 0 },
            primaries_green_xy: JxlXyCoords { x: 0, y: 0 },
            primaries_blue_xy: JxlXyCoords { x: 0, y: 0 },
            transfer_function: JxlTransferFunction::SRGB,
            gamma: 0,
            rendering_intent: JxlRenderingIntent::Perceptual,
        }
    }
}

} // verus!
