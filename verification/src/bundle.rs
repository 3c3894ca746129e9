//! Gain-map bundle wire format.
//!
//! The on-wire layout is a fixed-order concatenation: version byte,
//! metadata size (2 bytes, big endian) and metadata bytes, a color-encoding
//! presence flag with the inline record when present, alt-ICC size (4 bytes)
//! and bytes, gain-map size (4 bytes) and bytes.  Serialization and parsing
//! are pure transforms over one byte buffer, and parsing a serialized
//! bundle gives the bundle back field for field.

use vstd::prelude::*;
use crate::color::JxlColorEncoding;
use crate::color::JxlColorSpace;
use crate::color::JxlPrimaries;
use crate::color::JxlRenderingIntent;
use crate::color::JxlTransferFunction;
use crate::color::JxlWhitePoint;
use crate::color::JxlXyCoords;
use crate::error::JxlError;
use crate::metadata::JxlGainMapBundle;

verus! {

// ---------------------------------------------------------------------------
// Big-endian integer fields
// ---------------------------------------------------------------------------

/// Big-endian bytes of a 16-bit size field.
pub open spec fn spec_u16_be(v: u16) -> Seq<u8> {
    seq![((v >> 8) & 0xFF) as u8, (v & 0xFF) as u8]
}

/// Value of a 2-byte big-endian field.
pub open spec fn spec_be_u16(s: Seq<u8>) -> u16
    recommends
        s.len() == 2,
{
    (((s[0] as u16) << 8) | (s[1] as u16)) as u16
}

/// Big-endian bytes of a 32-bit size field.
pub open spec fn spec_u32_be(v: u32) -> Seq<u8> {
    seq![
        ((v >> 24) & 0xFF) as u8,
        ((v >> 16) & 0xFF) as u8,
        ((v >> 8) & 0xFF) as u8,
        (v & 0xFF) as u8,
    ]
}

/// Value of a 4-byte big-endian field.
pub open spec fn spec_be_u32(s: Seq<u8>) -> u32
    recommends
        s.len() == 4,
{
    (((s[0] as u32) << 24) | ((s[1] as u32) << 16) | ((s[2] as u32) << 8) | (s[3] as u32)) as u32
}

/// Big-endian bytes of a 64-bit value field.
pub open spec fn spec_u64_be(v: u64) -> Seq<u8> {
    seq![
        ((v >> 56) & 0xFF) as u8,
        ((v >> 48) & 0xFF) as u8,
        ((v >> 40) & 0xFF) as u8,
        ((v >> 32) & 0xFF) as u8,
        ((v >> 24) & 0xFF) as u8,
        ((v >> 16) & 0xFF) as u8,
        ((v >> 8) & 0xFF) as u8,
        (v & 0xFF) as u8,
    ]
}

/// Value of an 8-byte big-endian field.
pub open spec fn spec_be_u64(s: Seq<u8>) -> u64
    recommends
        s.len() == 8,
{
    (((s[0] as u64) << 56) | ((s[1] as u64) << 48) | ((s[2] as u64) << 40) | ((s[3] as u64) << 32)
        | ((s[4] as u64) << 24) | ((s[5] as u64) << 16) | ((s[6] as u64) << 8) | (
    s[7] as u64)) as u64
}

/// Reading back the big-endian bytes of a 16-bit value gives the value.
pub proof fn lemma_u16_be_round_trip(v: u16)
    ensures
        spec_be_u16(spec_u16_be(v)) == v,
{
    let b0 = ((v >> 8) & 0xFF) as u8;
    let b1 = (v & 0xFF) as u8;
    assert((((b0 as u16) << 8) | (b1 as u16)) as u16 == v) by (bit_vector)
        requires
            b0 == ((v >> 8) & 0xFF) as u8,
            b1 == (v & 0xFF) as u8,
    ;
}

/// Reading back the big-endian bytes of a 32-bit value gives the value.
pub proof fn lemma_u32_be_round_trip(v: u32)
    ensures
        spec_be_u32(spec_u32_be(v)) == v,
{
    let b0 = ((v >> 24) & 0xFF) as u8;
    let b1 = ((v >> 16) & 0xFF) as u8;
    let b2 = ((v >> 8) & 0xFF) as u8;
    let b3 = (v & 0xFF) as u8;
    assert((((b0 as u32) << 24) | ((b1 as u32) << 16) | ((b2 as u32) << 8) | (b3 as u32)) as u32
        == v) by (bit_vector)
        requires
            b0 == ((v >> 24) & 0xFF) as u8,
            b1 == ((v >> 16) & 0xFF) as u8,
            b2 == ((v >> 8) & 0xFF) as u8,
            b3 == (v & 0xFF) as u8,
    ;
}

/// Reading back the big-endian bytes of a 64-bit value gives the value.
pub proof fn lemma_u64_be_round_trip(v: u64)
    ensures
        spec_be_u64(spec_u64_be(v)) == v,
{
    let b0 = ((v >> 56) & 0xFF) as u8;
    let b1 = ((v >> 48) & 0xFF) as u8;
    let b2 = ((v >> 40) & 0xFF) as u8;
    let b3 = ((v >> 32) & 0xFF) as u8;
    let b4 = ((v >> 24) & 0xFF) as u8;
    let b5 = ((v >> 16) & 0xFF) as u8;
    let b6 = ((v >> 8) & 0xFF) as u8;
    let b7 = (v & 0xFF) as u8;
    assert((((b0 as u64) << 56) | ((b1 as u64) << 48) | ((b2 as u64) << 40) | ((b3 as u64) << 32)
        | ((b4 as u64) << 24) | ((b5 as u64) << 16) | ((b6 as u64) << 8) | (b7 as u64)) as u64
        == v) by (bit_vector)
        requires
            b0 == ((v >> 56) & 0xFF) as u8,
            b1 == ((v >> 48) & 0xFF) as u8,
            b2 == ((v >> 40) & 0xFF) as u8,
            b3 == ((v >> 32) & 0xFF) as u8,
            b4 == ((v >> 24) & 0xFF) as u8,
            b5 == ((v >> 16) & 0xFF) as u8,
            b6 == ((v >> 8) & 0xFF) as u8,
            b7 == (v & 0xFF) as u8,
    ;
}

// ---------------------------------------------------------------------------
// Wire codes of the color-encoding enums
// ---------------------------------------------------------------------------

/// Wire code of a color space.
pub open spec fn spec_color_space_code(v: JxlColorSpace) -> u8 {
    match v {
        JxlColorSpace::RGB => 0,
        JxlColorSpace::Gray => 1,
        JxlColorSpace::XYB => 2,
        JxlColorSpace::Unknown => 3,
    }
}

/// Color space of a wire code.
pub open spec fn spec_code_color_space(b: u8) -> Option<JxlColorSpace> {
    if b == 0 {
        Some(JxlColorSpace::RGB)
    } else if b == 1 {
        Some(JxlColorSpace::Gray)
    } else if b == 2 {
        Some(JxlColorSpace::XYB)
    } else if b == 3 {
        Some(JxlColorSpace::Unknown)
    } else {
        None
    }
}

/// Wire code of a white point.
pub open spec fn spec_white_point_code(v: JxlWhitePoint) -> u8 {
    match v {
        JxlWhitePoint::D65 => 1,
        JxlWhitePoint::Custom => 2,
        JxlWhitePoint::E => 10,
        JxlWhitePoint::DCI => 11,
    }
}

/// White point of a wire code.
pub open spec fn spec_code_white_point(b: u8) -> Option<JxlWhitePoint> {
    if b == 1 {
        Some(JxlWhitePoint::D65)
    } else if b == 2 {
        Some(JxlWhitePoint::Custom)
    } else if b == 10 {
        Some(JxlWhitePoint::E)
    } else if b == 11 {
        Some(JxlWhitePoint::DCI)
    } else {
        None
    }
}

/// Wire code of a primaries choice.
pub open spec fn spec_primaries_code(v: JxlPrimaries) -> u8 {
    match v {
        JxlPrimaries::SRGB => 1,
        JxlPrimaries::Custom => 2,
        JxlPrimaries::BT2100 => 9,
        JxlPrimaries::P3 => 11,
    }
}

/// Primaries choice of a wire code.
pub open spec fn spec_code_primaries(b: u8) -> Option<JxlPrimaries> {
    if b == 1 {
        Some(JxlPrimaries::SRGB)
    } else if b == 2 {
        Some(JxlPrimaries::Custom)
    } else if b == 9 {
        Some(JxlPrimaries::BT2100)
    } else if b == 11 {
        Some(JxlPrimaries::P3)
    } else {
        None
    }
}

/// Wire code of a transfer function.
pub open spec fn spec_transfer_function_code(v: JxlTransferFunction) -> u8 {
    match v {
        JxlTransferFunction::BT709 => 1,
        JxlTransferFunction::Unknown => 2,
        JxlTransferFunction::Linear => 8,
        JxlTransferFunction::SRGB => 13,
        JxlTransferFunction::PQ => 16,
        JxlTransferFunction::DCI => 17,
        JxlTransferFunction::HLG => 18,
        JxlTransferFunction::Gamma => 255,
    }
}

/// Transfer function of a wire code.
pub open spec fn spec_code_transfer_function(b: u8) -> Option<JxlTransferFunction> {
    if b == 1 {
        Some(JxlTransferFunction::BT709)
    } else if b == 2 {
        Some(JxlTransferFunction::Unknown)
    } else if b == 8 {
        Some(JxlTransferFunction::Linear)
    } else if b == 13 {
        Some(JxlTransferFunction::SRGB)
    } else if b == 16 {
        Some(JxlTransferFunction::PQ)
    } else if b == 17 {
        Some(JxlTransferFunction::DCI)
    } else if b == 18 {
        Some(JxlTransferFunction::HLG)
    } else if b == 255 {
        Some(JxlTransferFunction::Gamma)
    } else {
        None
    }
}

/// Wire code of a rendering intent.
pub open spec fn spec_rendering_intent_code(v: JxlRenderingIntent) -> u8 {
    match v {
        JxlRenderingIntent::Perceptual => 0,
        JxlRenderingIntent::Relative => 1,
        JxlRenderingIntent::Saturation => 2,
        JxlRenderingIntent::Absolute => 3,
    }
}

/// Rendering intent of a wire code.
pub open spec fn spec_code_rendering_intent(b: u8) -> Option<JxlRenderingIntent> {
    if b == 0 {
        Some(JxlRenderingIntent::Perceptual)
    } else if b == 1 {
        Some(JxlRenderingIntent::Relative)
    } else if b == 2 {
        Some(JxlRenderingIntent::Saturation)
    } else if b == 3 {
        Some(JxlRenderingIntent::Absolute)
    } else {
        None
    }
}

// ---------------------------------------------------------------------------
// Color-encoding record
// ---------------------------------------------------------------------------

/// Length in bytes of the inline color-encoding record.
pub const COLOR_ENCODING_WIRE_BYTES: usize = 77;

/// Wire bytes of the inline color-encoding record: the five enum codes and
/// the eight 64-bit numeric fields in fixed order.
pub open spec fn spec_serialize_color_encoding(ce: JxlColorEncoding) -> Seq<u8> {
    seq![spec_color_space_code(ce.color_space)] + seq![spec_white_point_code(ce.white_point)]
        + spec_u64_be(ce.white_point_xy.x) + spec_u64_be(ce.white_point_xy.y) + seq![
        spec_primaries_code(ce.primaries),
    ] + spec_u64_be(ce.primaries_red_xy.x) + spec_u64_be(ce.primaries_red_xy.y) + spec_u64_be(
        ce.primaries_green_xy.x,
    ) + spec_u64_be(ce.primaries_green_xy.y) + spec_u64_be(ce.primaries_blue_xy.x) + spec_u64_be(
        ce.primaries_blue_xy.y,
    ) + seq![spec_transfer_function_code(ce.transfer_function)] + spec_u64_be(ce.gamma) + seq![
        spec_rendering_intent_code(ce.rendering_intent),
    ]
}

/// Parses an inline color-encoding record; `None` when a code byte is not in
/// its wire table or the length is wrong.
pub open spec fn spec_parse_color_encoding(s: Seq<u8>) -> Option<JxlColorEncoding> {
    if s.len() != COLOR_ENCODING_WIRE_BYTES {
        None
    } else {
        match (spec_code_color_space(s[0]), spec_code_white_point(s[1]), spec_code_primaries(s[18]),
            spec_code_transfer_function(s[67]), spec_code_rendering_intent(s[76])) {
            (Some(cs), Some(wp), Some(pr), Some(tf), Some(ri)) => Some(
                JxlColorEncoding {
                    color_space: cs,
                    white_point: wp,
                    white_point_xy: JxlXyCoords {
                        x: spec_be_u64(s.subrange(2, 10)),
                        y: spec_be_u64(s.subrange(10, 18)),
                    },
                    primaries: pr,
                    primaries_red_xy: JxlXyCoords {
                        x: spec_be_u64(s.subrange(19, 27)),
                        y: spec_be_u64(s.subrange(27, 35)),
                    },
                    primaries_green_xy: JxlXyCoords {
                        x: spec_be_u64(s.subrange(35, 43)),
                        y: spec_be_u64(s.subrange(43, 51)),
                    },
                    primaries_blue_xy: JxlXyCoords {
                        x: spec_be_u64(s.subrange(51, 59)),
                        y: spec_be_u64(s.subrange(59, 67)),
                    },
                    transfer_function: tf,
                    gamma: spec_be_u64(s.subrange(68, 76)),
                    rendering_intent: ri,
                },
            ),
            _ => None,
        }
    }
}

/// Parsing the serialized record of any color encoding gives the encoding
/// back.
#[verifier::rlimit(100)]
pub proof fn lemma_color_encoding_round_trip(ce: JxlColorEncoding)
    ensures
        spec_parse_color_encoding(spec_serialize_color_encoding(ce)) == Some(ce),
{
    let s = spec_serialize_color_encoding(ce);
    assert(s.len() == 77);
    assert(s.subrange(2, 10) =~= spec_u64_be(ce.white_point_xy.x));
    assert(s.subrange(10, 18) =~= spec_u64_be(ce.white_point_xy.y));
    assert(s.subrange(19, 27) =~= spec_u64_be(ce.primaries_red_xy.x));
    assert(s.subrange(27, 35) =~= spec_u64_be(ce.primaries_red_xy.y));
    assert(s.subrange(35, 43) =~= spec_u64_be(ce.primaries_green_xy.x));
    assert(s.subrange(43, 51) =~= spec_u64_be(ce.primaries_green_xy.y));
    assert(s.subrange(51, 59) =~= spec_u64_be(ce.primaries_blue_xy.x));
    assert(s.subrange(59, 67) =~= spec_u64_be(ce.primaries_blue_xy.y));
    assert(s.subrange(68, 76) =~= spec_u64_be(ce.gamma));
    lemma_u64_be_round_trip(ce.white_point_xy.x);
    lemma_u64_be_round_trip(ce.white_point_xy.y);
    lemma_u64_be_round_trip(ce.primaries_red_xy.x);
    lemma_u64_be_round_trip(ce.primaries_red_xy.y);
    lemma_u64_be_round_trip(ce.primaries_green_xy.x);
    lemma_u64_be_round_trip(ce.primaries_green_xy.y);
    lemma_u64_be_round_trip(ce.primaries_blue_xy.x);
    lemma_u64_be_round_trip(ce.primaries_blue_xy.y);
    lemma_u64_be_round_trip(ce.gamma);
    assert(s[0] == spec_color_space_code(ce.color_space));
    assert(s[1] == spec_white_point_code(ce.white_point));
    assert(s[18] == spec_primaries_code(ce.primaries));
    assert(s[67] == spec_transfer_function_code(ce.transfer_function));
    assert(s[76] == spec_rendering_intent_code(ce.rendering_intent));
}

// ---------------------------------------------------------------------------
// The bundle itself
// ---------------------------------------------------------------------------

/// Mathematical view of a gain-map bundle: the same fields with byte
/// sequences in place of owned vectors.
pub struct GainMapBundleView {
    pub jhgm_version: u8,
    pub gain_map_metadata: Seq<u8>,
    pub has_color_encoding: bool,
    pub color_encoding: JxlColorEncoding,
    pub alt_icc: Seq<u8>,
    pub gain_map: Seq<u8>,
}

impl View for JxlGainMapBundle {
    type V = GainMapBundleView;

    open spec fn view(&self) -> GainMapBundleView {
        GainMapBundleView {
            jhgm_version: self.jhgm_version,
            gain_map_metadata: self.gain_map_metadata@,
            has_color_encoding: self.has_color_encoding,
            color_encoding: self.color_encoding,
            alt_icc: self.alt_icc@,
            gain_map: self.gain_map@,
        }
    }
}

/// The bundle's parts fit the wire format's size fields.
pub open spec fn spec_bundle_wf(b: GainMapBundleView) -> bool {
    &&& b.gain_map_metadata.len() <= 0xFFFF
    &&& b.alt_icc.len() <= 0xFFFFFFFF
    &&& b.gain_map.len() <= 0xFFFFFFFF
}

/// A bundle without a color encoding carries the default placeholder in the
/// `color_encoding` field (the wire format does not transport the field in
/// that case).
pub open spec fn spec_bundle_canonical(b: GainMapBundleView) -> bool {
    !b.has_color_encoding ==> b.color_encoding == JxlColorEncoding::spec_default()
}

/// Exact byte count of the serialized bundle.
pub open spec fn spec_bundle_size(b: GainMapBundleView) -> int {
    12 + b.gain_map_metadata.len() + (if b.has_color_encoding {
        77int
    } else {
        0int
    }) + b.alt_icc.len() + b.gain_map.len()
}

/// Wire bytes of a bundle.
pub open spec fn spec_serialize_bundle(b: GainMapBundleView) -> Seq<u8> {
    seq![b.jhgm_version] + spec_u16_be(b.gain_map_metadata.len() as u16) + b.gain_map_metadata
        + seq![
        if b.has_color_encoding {
            1u8
        } else {
            0u8
        },
    ] + (if b.has_color_encoding {
        spec_serialize_color_encoding(b.color_encoding)
    } else {
        Seq::<u8>::empty()
    }) + spec_u32_be(b.alt_icc.len() as u32) + b.alt_icc + spec_u32_be(b.gain_map.len() as u32)
        + b.gain_map
}

/// Parses the sizes-and-payloads tail of a bundle that starts at `pos`:
/// alt-ICC size and bytes, then gain-map size and bytes.
pub open spec fn spec_parse_bundle_tail(
    s: Seq<u8>,
    pos: int,
    version: u8,
    metadata: Seq<u8>,
    has_ce: bool,
    ce: JxlColorEncoding,
) -> Option<(GainMapBundleView, int)>
    recommends
        0 <= pos <= s.len(),
{
    if s.len() < pos + 4 {
        None
    } else {
        let a = spec_be_u32(s.subrange(pos, pos + 4)) as int;
        if s.len() < pos + 4 + a {
            None
        } else {
            let pos2 = pos + 4 + a;
            if s.len() < pos2 + 4 {
                None
            } else {
                let g = spec_be_u32(s.subrange(pos2, pos2 + 4)) as int;
                if s.len() < pos2 + 4 + g {
                    None
                } else {
                    Some(
                        (
                            GainMapBundleView {
                                jhgm_version: version,
                                gain_map_metadata: metadata,
                                has_color_encoding: has_ce,
                                color_encoding: ce,
                                alt_icc: s.subrange(pos + 4, pos + 4 + a),
                                gain_map: s.subrange(pos2 + 4, pos2 + 4 + g),
                            },
                            pos2 + 4 + g,
                        ),
                    )
                }
            }
        }
    }
}

/// Parses a bundle from the front of `s`, returning the bundle and the
/// number of bytes it spans; `None` when the bytes are not a well-formed
/// bundle.
pub open spec fn spec_parse_bundle(s: Seq<u8>) -> Option<(GainMapBundleView, int)> {
    if s.len() < 3 {
        None
    } else {
        let m = spec_be_u16(s.subrange(1, 3)) as int;
        if s.len() < 4 + m {
            None
        } else {
            let version = s[0];
            let metadata = s.subrange(3, 3 + m);
            let flag = s[3 + m];
            if flag == 1 {
                if s.len() < 4 + m + 77 {
                    None
                } else {
                    match spec_parse_color_encoding(s.subrange(4 + m, 4 + m + 77)) {
                        Some(ce) => spec_parse_bundle_tail(
                            s,
                            4 + m + 77,
                            version,
                            metadata,
                            true,
                            ce,
                        ),
                        None => None,
                    }
                }
            } else if flag == 0 {
                spec_parse_bundle_tail(
                    s,
                    4 + m,
                    version,
                    metadata,
                    false,
                    JxlColorEncoding::spec_default(),
                )
            } else {
                None
            }
        }
    }
}

/// Offset of the color-encoding presence flag in a serialized bundle.
pub open spec fn spec_bundle_flag_off(b: GainMapBundleView) -> int {
    3 + b.gain_map_metadata.len() as int
}

/// Offset of the alt-ICC size field in a serialized bundle.
pub open spec fn spec_bundle_icc_off(b: GainMapBundleView) -> int {
    4 + b.gain_map_metadata.len() as int + (if b.has_color_encoding {
        77int
    } else {
        0int
    })
}

/// Offset of the gain-map size field in a serialized bundle.
pub open spec fn spec_bundle_gm_off(b: GainMapBundleView) -> int {
    spec_bundle_icc_off(b) + 4 + b.alt_icc.len() as int
}

#[verifier::rlimit(100)]
proof fn lemma_bundle_layout_head(b: GainMapBundleView)
    requires
        spec_bundle_wf(b),
    ensures
        spec_serialize_bundle(b).len() == spec_bundle_size(b),
        spec_serialize_bundle(b)[0] == b.jhgm_version,
        spec_serialize_bundle(b).subrange(1, 3) == spec_u16_be(b.gain_map_metadata.len() as u16),
        spec_serialize_bundle(b).subrange(3, spec_bundle_flag_off(b)) == b.gain_map_metadata,
        spec_serialize_bundle(b)[spec_bundle_flag_off(b)] == (if b.has_color_encoding {
            1u8
        } else {
            0u8
        }),
        b.has_color_encoding ==> spec_serialize_bundle(b).subrange(
            spec_bundle_flag_off(b) + 1,
            spec_bundle_flag_off(b) + 78,
        ) == spec_serialize_color_encoding(b.color_encoding),
{
    let s = spec_serialize_bundle(b);
    let m = b.gain_map_metadata.len() as int;
    assert(s.subrange(1, 3) =~= spec_u16_be(b.gain_map_metadata.len() as u16));
    assert(s.subrange(3, 3 + m) =~= b.gain_map_metadata);
    if b.has_color_encoding {
        assert(s.subrange(4 + m, 4 + m + 77) =~= spec_serialize_color_encoding(b.color_encoding));
    }
}

#[verifier::rlimit(100)]
proof fn lemma_bundle_layout_tail(b: GainMapBundleView)
    requires
        spec_bundle_wf(b),
    ensures
        spec_serialize_bundle(b).subrange(spec_bundle_icc_off(b), spec_bundle_icc_off(b) + 4)
            == spec_u32_be(b.alt_icc.len() as u32),
        spec_serialize_bundle(b).subrange(
            spec_bundle_icc_off(b) + 4,
            spec_bundle_icc_off(b) + 4 + b.alt_icc.len(),
        ) == b.alt_icc,
        spec_serialize_bundle(b).subrange(spec_bundle_gm_off(b), spec_bundle_gm_off(b) + 4)
            == spec_u32_be(b.gain_map.len() as u32),
        spec_serialize_bundle(b).subrange(
            spec_bundle_gm_off(b) + 4,
            spec_bundle_gm_off(b) + 4 + b.gain_map.len(),
        ) == b.gain_map,
{
    let s = spec_serialize_bundle(b);
    let pos = spec_bundle_icc_off(b);
    let a = b.alt_icc.len() as int;
    let g = b.gain_map.len() as int;
    assert(s.subrange(pos, pos + 4) =~= spec_u32_be(b.alt_icc.len() as u32));
    assert(s.subrange(pos + 4, pos + 4 + a) =~= b.alt_icc);
    let pos2 = pos + 4 + a;
    assert(s.subrange(pos2, pos2 + 4) =~= spec_u32_be(b.gain_map.len() as u32));
    assert(s.subrange(pos2 + 4, pos2 + 4 + g) =~= b.gain_map);
}

/// Round trip: parsing the serialization of any valid bundle gives the
/// bundle back, spanning exactly its serialized size.
#[verifier::rlimit(100)]
pub proof fn lemma_gain_map_bundle_round_trip(b: GainMapBundleView)
    requires
        spec_bundle_wf(b),
        spec_bundle_canonical(b),
    ensures
        spec_parse_bundle(spec_serialize_bundle(b)) == Some((b, spec_bundle_size(b))),
{
    let s = spec_serialize_bundle(b);
    let m = b.gain_map_metadata.len() as int;
    lemma_bundle_layout_head(b);
    lemma_bundle_layout_tail(b);
    lemma_u16_be_round_trip(b.gain_map_metadata.len() as u16);
    lemma_u32_be_round_trip(b.alt_icc.len() as u32);
    lemma_u32_be_round_trip(b.gain_map.len() as u32);
    if b.has_color_encoding {
        lemma_color_encoding_round_trip(b.color_encoding);
    }
}

// ---------------------------------------------------------------------------
// Executable serialization
// ---------------------------------------------------------------------------

fn push_u16_be(out: &mut Vec<u8>, v: u16)
    ensures
        final(out)@ == old(out)@ + spec_u16_be(v),
{
    out.push(((v >> 8) & 0xFF) as u8);
    out.push((v & 0xFF) as u8);
    assert(out@ =~= old(out)@ + spec_u16_be(v));
}

fn push_u32_be(out: &mut Vec<u8>, v: u32)
    ensures
        final(out)@ == old(out)@ + spec_u32_be(v),
{
    out.push(((v >> 24) & 0xFF) as u8);
    out.push(((v >> 16) & 0xFF) as u8);
    out.push(((v >> 8) & 0xFF) as u8);
    out.push((v & 0xFF) as u8);
    assert(out@ =~= old(out)@ + spec_u32_be(v));
}

fn push_u64_be(out: &mut Vec<u8>, v: u64)
    ensures
        final(out)@ == old(out)@ + spec_u64_be(v),
{
    out.push(((v >> 56) & 0xFF) as u8);
    out.push(((v >> 48) & 0xFF) as u8);
    out.push(((v >> 40) & 0xFF) as u8);
    out.push(((v >> 32) & 0xFF) as u8);
    out.push(((v >> 24) & 0xFF) as u8);
    out.push(((v >> 16) & 0xFF) as u8);
    out.push(((v >> 8) & 0xFF) as u8);
    out.push((v & 0xFF) as u8);
    assert(out@ =~= old(out)@ + spec_u64_be(v));
}

fn push_bytes(out: &mut Vec<u8>, data: &Vec<u8>)
    ensures
        final(out)@ == old(out)@ + data@,
{
    let mut i: usize = 0;
    while i < data.len()
        invariant
            i <= data.len(),
            out@ == old(out)@ + data@.subrange(0, i as int),
        decreases data.len() - i,
    {
        out.push(data[i]);
        i = i + 1;
        assert(out@ =~= old(out)@ + data@.subrange(0, i as int));
    }
    assert(out@ =~= old(out)@ + data@);
}

fn color_space_code(v: JxlColorSpace) -> (r: u8)
    ensures
        r == spec_color_space_code(v),
{
    match v {
        JxlColorSpace::RGB => 0,
        JxlColorSpace::Gray => 1,
        JxlColorSpace::XYB => 2,
        JxlColorSpace::Unknown => 3,
    }
}

fn white_point_code(v: JxlWhitePoint) -> (r: u8)
    ensures
        r == spec_white_point_code(v),
{
    match v {
        JxlWhitePoint::D65 => 1,
        JxlWhitePoint::Custom => 2,
        JxlWhitePoint::E => 10,
        JxlWhitePoint::DCI => 11,
    }
}

fn primaries_code(v: JxlPrimaries) -> (r: u8)
    ensures
        r == spec_primaries_code(v),
{
    match v {
        JxlPrimaries::SRGB => 1,
        JxlPrimaries::Custom => 2,
        JxlPrimaries::BT2100 => 9,
        JxlPrimaries::P3 => 11,
    }
}

fn transfer_function_code(v: JxlTransferFunction) -> (r: u8)
    ensures
        r == spec_transfer_function_code(v),
{
    match v {
        JxlTransferFunction::BT709 => 1,
        JxlTransferFunction::Unknown => 2,
        JxlTransferFunction::Linear => 8,
        JxlTransferFunction::SRGB => 13,
        JxlTransferFunction::PQ => 16,
        JxlTransferFunction::DCI => 17,
        JxlTransferFunction::HLG => 18,
        JxlTransferFunction::Gamma => 255,
    }
}

fn rendering_intent_code(v: JxlRenderingIntent) -> (r: u8)
    ensures
        r == spec_rendering_intent_code(v),
{
    match v {
        JxlRenderingIntent::Perceptual => 0,
        JxlRenderingIntent::Relative => 1,
        JxlRenderingIntent::Saturation => 2,
        JxlRenderingIntent::Absolute => 3,
    }
}

fn serialize_color_encoding(ce: &JxlColorEncoding, out: &mut Vec<u8>)
    ensures
        final(out)@ == old(out)@ + spec_serialize_color_encoding(*ce),
{
    out.push(color_space_code(ce.color_space));
    out.push(white_point_code(ce.white_point));
    push_u64_be(out, ce.white_point_xy.x);
    push_u64_be(out, ce.white_point_xy.y);
    out.push(primaries_code(ce.primaries));
    push_u64_be(out, ce.primaries_red_xy.x);
    push_u64_be(out, ce.primaries_red_xy.y);
    push_u64_be(out, ce.primaries_green_xy.x);
    push_u64_be(out, ce.primaries_green_xy.y);
    push_u64_be(out, ce.primaries_blue_xy.x);
    push_u64_be(out, ce.primaries_blue_xy.y);
    out.push(transfer_function_code(ce.transfer_function));
    push_u64_be(out, ce.gamma);
    out.push(rendering_intent_code(ce.rendering_intent));
    assert(out@ =~= old(out)@ + spec_serialize_color_encoding(*ce));
}

/// Exact byte count that [`write_gain_map_bundle`] produces for the same
/// bundle.
///
/// Returns `Ok` exactly when the bundle's parts fit the wire format's size
/// fields and the total fits the address space; otherwise nothing is
/// computed and the size error is returned.
pub fn get_gain_map_bundle_size(map_bundle: &JxlGainMapBundle) -> (r: Result<usize, JxlError>)
    ensures
        (spec_bundle_wf(map_bundle@) && spec_bundle_size(map_bundle@) <= usize::MAX) ==> (r matches
            Ok(n) && n == spec_bundle_size(map_bundle@)),
        !(spec_bundle_wf(map_bundle@) && spec_bundle_size(map_bundle@) <= usize::MAX) ==> r == Err::<
            usize,
            JxlError,
        >(JxlError::GainMapBundleInvalidSize),
{
    if map_bundle.gain_map_metadata.len() > 0xFFFF {
        return Err(JxlError::GainMapBundleInvalidSize);
    }
    if map_bundle.alt_icc.len() > 0xFFFFFFFF {
        return Err(JxlError::GainMapBundleInvalidSize);
    }
    if map_bundle.gain_map.len() > 0xFFFFFFFF {
        return Err(JxlError::GainMapBundleInvalidSize);
    }
    let ce_len: u64 = if map_bundle.has_color_encoding {
        77
    } else {
        0
    };
    let total: u64 = 12 + map_bundle.gain_map_metadata.len() as u64 + ce_len
        + map_bundle.alt_icc.len() as u64 + map_bundle.gain_map.len() as u64;
    if total > usize::MAX as u64 {
        return Err(JxlError::GainMapBundleInvalidSize);
    }
    Ok(total as usize)
}

/// Serializes a bundle into `output_buffer`, replacing its contents, and
/// returns the number of bytes written.
///
/// Succeeds exactly when the bundle's parts fit the wire format's size
/// fields and the total fits the address space; on failure the buffer is
/// left unchanged.
pub fn write_gain_map_bundle(map_bundle: &JxlGainMapBundle, output_buffer: &mut Vec<u8>) -> (r:
    Result<usize, JxlError>)
    ensures
        (spec_bundle_wf(map_bundle@) && spec_bundle_size(map_bundle@) <= usize::MAX) ==> ({
            &&& r matches Ok(n) && n == spec_bundle_size(map_bundle@)
            &&& final(output_buffer)@ == spec_serialize_bundle(map_bundle@)
        }),
        !(spec_bundle_wf(map_bundle@) && spec_bundle_size(map_bundle@) <= usize::MAX) ==> ({
            &&& r == Err::<usize, JxlError>(JxlError::GainMapBundleInvalidSize)
            &&& final(output_buffer)@ == old(output_buffer)@
        }),
{
    let size = match get_gain_map_bundle_size(map_bundle) {
        Ok(n) => n,
        Err(e) => {
            return Err(e);
        },
    };
    output_buffer.clear();
    output_buffer.push(map_bundle.jhgm_version);
    push_u16_be(output_buffer, map_bundle.gain_map_metadata.len() as u16);
    push_bytes(output_buffer, &map_bundle.gain_map_metadata);
    if map_bundle.has_color_encoding {
        output_buffer.push(1);
        serialize_color_encoding(&map_bundle.color_encoding, output_buffer);
    } else {
        output_buffer.push(0);
    }
    push_u32_be(output_buffer, map_bundle.alt_icc.len() as u32);
    push_bytes(output_buffer, &map_bundle.alt_icc);
    push_u32_be(output_buffer, map_bundle.gain_map.len() as u32);
    push_bytes(output_buffer, &map_bundle.gain_map);
    assert(output_buffer@ =~= spec_serialize_bundle(map_bundle@));
    Ok(size)
}

// ---------------------------------------------------------------------------
// Executable parsing
// ---------------------------------------------------------------------------

fn code_color_space(b: u8) -> (r: Option<JxlColorSpace>)
    ensures
        r == spec_code_color_space(b),
{
    if b == 0 {
        Some(JxlColorSpace::RGB)
    } else if b == 1 {
        Some(JxlColorSpace::Gray)
    } else if b == 2 {
        Some(JxlColorSpace::XYB)
    } else if b == 3 {
        Some(JxlColorSpace::Unknown)
    } else {
        None
    }
}

fn code_white_point(b: u8) -> (r: Option<JxlWhitePoint>)
    ensures
        r == spec_code_white_point(b),
{
    if b == 1 {
        Some(JxlWhitePoint::D65)
    } else if b == 2 {
        Some(JxlWhitePoint::Custom)
    } else if b == 10 {
        Some(JxlWhitePoint::E)
    } else if b == 11 {
        Some(JxlWhitePoint::DCI)
    } else {
        None
    }
}

fn code_primaries(b: u8) -> (r: Option<JxlPrimaries>)
    ensures
        r == spec_code_primaries(b),
{
    if b == 1 {
        Some(JxlPrimaries::SRGB)
    } else if b == 2 {
        Some(JxlPrimaries::Custom)
    } else if b == 9 {
        Some(JxlPrimaries::BT2100)
    } else if b == 11 {
        Some(JxlPrimaries::P3)
    } else {
        None
    }
}

fn code_transfer_function(b: u8) -> (r: Option<JxlTransferFunction>)
    ensures
        r == spec_code_transfer_function(b),
{
    if b == 1 {
        Some(JxlTransferFunction::BT709)
    } else if b == 2 {
        Some(JxlTransferFunction::Unknown)
    } else if b == 8 {
        Some(JxlTransferFunction::Linear)
    } else if b == 13 {
        Some(JxlTransferFunction::SRGB)
    } else if b == 16 {
        Some(JxlTransferFunction::PQ)
    } else if b == 17 {
        Some(JxlTransferFunction::DCI)
    } else if b == 18 {
        Some(JxlTransferFunction::HLG)
    } else if b == 255 {
        Some(JxlTransferFunction::Gamma)
    } else {
        None
    }
}

fn code_rendering_intent(b: u8) -> (r: Option<JxlRenderingIntent>)
    ensures
        r == spec_code_rendering_intent(b),
{
    if b == 0 {
        Some(JxlRenderingIntent::Perceptual)
    } else if b == 1 {
        Some(JxlRenderingIntent::Relative)
    } else if b == 2 {
        Some(JxlRenderingIntent::Saturation)
    } else if b == 3 {
        Some(JxlRenderingIntent::Absolute)
    } else {
        None
    }
}

fn read_u64_be(input: &[u8], pos: usize) -> (r: u64)
    requires
        pos + 8 <= input@.len(),
    ensures
        r == spec_be_u64(input@.subrange(pos as int, pos + 8)),
{
    let r = ((input[pos] as u64) << 56) | ((input[pos + 1] as u64) << 48) | ((input[pos + 2]
        as u64) << 40) | ((input[pos + 3] as u64) << 32) | ((input[pos + 4] as u64) << 24) | ((
    input[pos + 5] as u64) << 16) | ((input[pos + 6] as u64) << 8) | (input[pos + 7] as u64);
    proof {
        let s = input@.subrange(pos as int, pos + 8);
        assert(s[0] == input@[pos as int] && s[1] == input@[pos + 1] && s[2] == input@[pos + 2]
            && s[3] == input@[pos + 3] && s[4] == input@[pos + 4] && s[5] == input@[pos + 5] && s[6]
            == input@[pos + 6] && s[7] == input@[pos + 7]);
    }
    r
}

fn copy_range(input: &[u8], from: usize, to: usize) -> (r: Vec<u8>)
    requires
        from <= to <= input@.len(),
    ensures
        r@ == input@.subrange(from as int, to as int),
{
    let mut out: Vec<u8> = Vec::new();
    let mut i: usize = from;
    while i < to
        invariant
            from <= i <= to <= input@.len(),
            out@ == input@.subrange(from as int, i as int),
        decreases to - i,
    {
        out.push(input[i]);
        i = i + 1;
        assert(out@ =~= input@.subrange(from as int, i as int));
    }
    out
}

fn parse_color_encoding(input: &[u8], pos: usize) -> (r: Option<JxlColorEncoding>)
    requires
        pos + 77 <= input@.len(),
    ensures
        r == spec_parse_color_encoding(input@.subrange(pos as int, pos + 77)),
{
    let ghost s = input@.subrange(pos as int, pos + 77);
    proof {
        assert(s[0] == input@[pos as int] && s[1] == input@[pos + 1] && s[18] == input@[pos + 18]
            && s[67] == input@[pos + 67] && s[76] == input@[pos + 76]);
        assert(s.subrange(2, 10) =~= input@.subrange(pos + 2, pos + 10));
        assert(s.subrange(10, 18) =~= input@.subrange(pos + 10, pos + 18));
        assert(s.subrange(19, 27) =~= input@.subrange(pos + 19, pos + 27));
        assert(s.subrange(27, 35) =~= input@.subrange(pos + 27, pos + 35));
        assert(s.subrange(35, 43) =~= input@.subrange(pos + 35, pos + 43));
        assert(s.subrange(43, 51) =~= input@.subrange(pos + 43, pos + 51));
        assert(s.subrange(51, 59) =~= input@.subrange(pos + 51, pos + 59));
        assert(s.subrange(59, 67) =~= input@.subrange(pos + 59, pos + 67));
        assert(s.subrange(68, 76) =~= input@.subrange(pos + 68, pos + 76));
    }
    let cs = match code_color_space(input[pos]) {
        Some(v) => v,
        None => {
            return None;
        },
    };
    let wp = match code_white_point(input[pos + 1]) {
        Some(v) => v,
        None => {
            return None;
        },
    };
    let pr = match code_primaries(input[pos + 18]) {
        Some(v) => v,
        None => {
            return None;
        },
    };
    let tf = match code_transfer_function(input[pos + 67]) {
        Some(v) => v,
        None => {
            return None;
        },
    };
    let ri = match code_rendering_intent(input[pos + 76]) {
        Some(v) => v,
        None => {
            return None;
        },
    };
    Some(
        JxlColorEncoding {
            color_space: cs,
            white_point: wp,
            white_point_xy: JxlXyCoords {
                x: read_u64_be(input, pos + 2),
                y: read_u64_be(input, pos + 10),
            },
            primaries: pr,
            primaries_red_xy: JxlXyCoords {
                x: read_u64_be(input, pos + 19),
                y: read_u64_be(input, pos + 27),
            },
            primaries_green_xy: JxlXyCoords {
                x: read_u64_be(input, pos + 35),
                y: read_u64_be(input, pos + 43),
            },
            primaries_blue_xy: JxlXyCoords {
                x: read_u64_be(input, pos + 51),
                y: read_u64_be(input, pos + 59),
            },
            transfer_function: tf,
            gamma: read_u64_be(input, pos + 68),
            rendering_intent: ri,
        },
    )
}

/// Parses a bundle from the front of `input_buffer` into `map_bundle` and
/// returns the number of bytes the bundle spans.
///
/// Succeeds exactly when the buffer starts with a well-formed bundle; on
/// failure the bundle is left unchanged and the data error is returned.
#[verifier::rlimit(100)]
pub fn read_gain_map_bundle(map_bundle: &mut JxlGainMapBundle, input_buffer: &[u8]) -> (r: Result<
    usize,
    JxlError,
>)
    ensures
        spec_parse_bundle(input_buffer@) matches Some((v, n)) ==> ({
            &&& r matches Ok(k) && k == n
            &&& final(map_bundle)@ == v
        }),
        spec_parse_bundle(input_buffer@) is None ==> ({
            &&& r == Err::<usize, JxlError>(JxlError::GainMapBundleInvalidData)
            &&& *final(map_bundle) == *old(map_bundle)
        }),
{
    let len = input_buffer.len();
    if len < 3 {
        return Err(JxlError::GainMapBundleInvalidData);
    }
    let m = (((input_buffer[1] as u16) << 8) | (input_buffer[2] as u16)) as usize;
    proof {
        assert(input_buffer@.subrange(1, 3) =~= seq![input_buffer@[1], input_buffer@[2]]);
        assert(spec_be_u16(input_buffer@.subrange(1, 3)) == (((input_buffer@[1] as u16) << 8) | (
        input_buffer@[2] as u16)) as u16);
    }
    if len < 4 + m {
        return Err(JxlError::GainMapBundleInvalidData);
    }
    let version = input_buffer[0];
    let flag = input_buffer[3 + m];
    let has_ce: bool;
    let ce: JxlColorEncoding;
    let pos: usize;
    if flag == 1 {
        if len - 4 - m < 77 {
            return Err(JxlError::GainMapBundleInvalidData);
        }
        match parse_color_encoding(input_buffer, 4 + m) {
            Some(v) => {
                has_ce = true;
                ce = v;
                pos = 4 + m + 77;
            },
            None => {
                return Err(JxlError::GainMapBundleInvalidData);
            },
        }
    } else if flag == 0 {
        has_ce = false;
        ce = JxlColorEncoding::default();
        pos = 4 + m;
    } else {
        return Err(JxlError::GainMapBundleInvalidData);
    }
    if len - pos < 4 {
        return Err(JxlError::GainMapBundleInvalidData);
    }
    let a = (((input_buffer[pos] as u32) << 24) | ((input_buffer[pos + 1] as u32) << 16) | ((
    input_buffer[pos + 2] as u32) << 8) | (input_buffer[pos + 3] as u32)) as usize;
    proof {
        assert(input_buffer@.subrange(pos as int, pos + 4) =~= seq![
            input_buffer@[pos as int],
            input_buffer@[pos + 1],
            input_buffer@[pos + 2],
            input_buffer@[pos + 3],
        ]);
    }
    if len - pos - 4 < a {
        return Err(JxlError::GainMapBundleInvalidData);
    }
    let pos2 = pos + 4 + a;
    if len - pos2 < 4 {
        return Err(JxlError::GainMapBundleInvalidData);
    }
    let g = (((input_buffer[pos2] as u32) << 24) | ((input_buffer[pos2 + 1] as u32) << 16) | ((
    input_buffer[pos2 + 2] as u32) << 8) | (input_buffer[pos2 + 3] as u32)) as usize;
    proof {
        assert(input_buffer@.subrange(pos2 as int, pos2 + 4) =~= seq![
            input_buffer@[pos2 as int],
            input_buffer@[pos2 + 1],
            input_buffer@[pos2 + 2],
            input_buffer@[pos2 + 3],
        ]);
    }
    if len - pos2 - 4 < g {
        return Err(JxlError::GainMapBundleInvalidData);
    }
    map_bundle.jhgm_version = version;
    map_bundle.gain_map_metadata = copy_range(input_buffer, 3, 3 + m);
    map_bundle.has_color_encoding = has_ce;
    map_bundle.color_encoding = ce;
    map_bundle.alt_icc = copy_range(input_buffer, pos + 4, pos + 4 + a);
    map_bundle.gain_map = copy_range(input_buffer, pos2 + 4, pos2 + 4 + g);
    Ok(pos2 + 4 + g)
}

} // verus!
