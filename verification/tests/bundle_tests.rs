use jxl_stream::bundle::get_gain_map_bundle_size;
use jxl_stream::bundle::read_gain_map_bundle;
use jxl_stream::bundle::write_gain_map_bundle;
use jxl_stream::color::JxlColorEncoding;
use jxl_stream::color::JxlColorSpace;
use jxl_stream::color::JxlPrimaries;
use jxl_stream::color::JxlRenderingIntent;
use jxl_stream::color::JxlTransferFunction;
use jxl_stream::color::JxlWhitePoint;
use jxl_stream::color::JxlXyCoords;
use jxl_stream::error::JxlError;
use jxl_stream::metadata::JxlGainMapBundle;

fn sample_encoding() -> JxlColorEncoding {
    JxlColorEncoding {
        color_space: JxlColorSpace::Gray,
        white_point: JxlWhitePoint::E,
        white_point_xy: JxlXyCoords { x: 0x3FD5555555555555, y: 0x3FD5555555555555 },
        primaries: JxlPrimaries::P3,
        primaries_red_xy: JxlXyCoords { x: 1, y: 2 },
        primaries_green_xy: JxlXyCoords { x: 3, y: 4 },
        primaries_blue_xy: JxlXyCoords { x: 5, y: 6 },
        transfer_function: JxlTransferFunction::PQ,
        gamma: 0x3FE0000000000000,
        rendering_intent: JxlRenderingIntent::Saturation,
    }
}

#[test]
fn bundle_size_matches_written_bytes() {
    let mut bundle = JxlGainMapBundle::new();
    bundle.jhgm_version = 2;
    bundle.gain_map_metadata = vec![1, 2, 3];
    bundle.alt_icc = vec![9, 9];
    bundle.gain_map = vec![7, 7, 7, 7];

    let size = get_gain_map_bundle_size(&bundle).unwrap();
    let mut out = Vec::new();
    let written = write_gain_map_bundle(&bundle, &mut out).unwrap();
    assert_eq!(size, written);
    assert_eq!(out.len(), written);
}

#[test]
fn bundle_wire_layout_without_color_encoding() {
    let mut bundle = JxlGainMapBundle::new();
    bundle.jhgm_version = 2;
    bundle.gain_map_metadata = vec![1, 2, 3];
    bundle.alt_icc = vec![9, 9];
    bundle.gain_map = vec![7, 7, 7, 7];

    let mut out = Vec::new();
    let written = write_gain_map_bundle(&bundle, &mut out).unwrap();
    assert_eq!(written, 21);
    let expected = vec![
        2, // version
        0, 3, // metadata size, big endian
        1, 2, 3, // metadata
        0, // no color encoding
        0, 0, 0, 2, // alt-ICC size
        9, 9, // alt-ICC bytes
        0, 0, 0, 4, // gain-map size
        7, 7, 7, 7, // gain-map bytes
    ];
    assert_eq!(out, expected);
}

#[test]
fn bundle_round_trip_without_color_encoding() {
    let mut bundle = JxlGainMapBundle::new();
    bundle.jhgm_version = 1;
    bundle.gain_map_metadata = vec![0xAA; 17];
    bundle.gain_map = vec![0xFF, 0x0A, 0x33];

    let mut out = Vec::new();
    let written = write_gain_map_bundle(&bundle, &mut out).unwrap();
    let mut back = JxlGainMapBundle::new();
    let consumed = read_gain_map_bundle(&mut back, &out).unwrap();
    assert_eq!(consumed, written);
    assert_eq!(back, bundle);
}

#[test]
fn bundle_round_trip_with_color_encoding() {
    let mut bundle = JxlGainMapBundle::new();
    bundle.jhgm_version = 3;
    bundle.gain_map_metadata = vec![4, 5];
    bundle.has_color_encoding = true;
    bundle.color_encoding = sample_encoding();
    bundle.alt_icc = vec![0x10, 0x20, 0x30];
    bundle.gain_map = vec![0x40];

    let size = get_gain_map_bundle_size(&bundle).unwrap();
    let mut out = Vec::new();
    let written = write_gain_map_bundle(&bundle, &mut out).unwrap();
    assert_eq!(size, written);
    assert_eq!(written, 12 + 2 + 77 + 3 + 1);

    let mut back = JxlGainMapBundle::new();
    let consumed = read_gain_map_bundle(&mut back, &out).unwrap();
    assert_eq!(consumed, written);
    assert_eq!(back, bundle);
}

#[test]
fn bundle_round_trip_empty() {
    let bundle = JxlGainMapBundle::new();
    let size = get_gain_map_bundle_size(&bundle).unwrap();
    assert_eq!(size, 12);
    let mut out = Vec::new();
    let written = write_gain_map_bundle(&bundle, &mut out).unwrap();
    assert_eq!(written, 12);
    let mut back = JxlGainMapBundle::new();
    let consumed = read_gain_map_bundle(&mut back, &out).unwrap();
    assert_eq!(consumed, 12);
    assert_eq!(back, bundle);
}

#[test]
fn bundle_read_consumes_prefix_only() {
    let mut bundle = JxlGainMapBundle::new();
    bundle.gain_map = vec![8, 8];
    let mut out = Vec::new();
    let written = write_gain_map_bundle(&bundle, &mut out).unwrap();
    out.push(0xEE);
    out.push(0xEE);
    let mut back = JxlGainMapBundle::new();
    let consumed = read_gain_map_bundle(&mut back, &out).unwrap();
    assert_eq!(consumed, written);
    assert_eq!(back, bundle);
}

#[test]
fn bundle_oversized_metadata_is_rejected() {
    let mut bundle = JxlGainMapBundle::new();
    bundle.gain_map_metadata = vec![0; 0x10000];
    assert_eq!(get_gain_map_bundle_size(&bundle), Err(JxlError::GainMapBundleInvalidSize));
    let mut out = Vec::new();
    assert_eq!(
        write_gain_map_bundle(&bundle, &mut out),
        Err(JxlError::GainMapBundleInvalidSize)
    );
    assert!(out.is_empty());
}

#[test]
fn bundle_read_rejects_malformed_input() {
    let mut back = JxlGainMapBundle::new();
    // too short
    assert_eq!(read_gain_map_bundle(&mut back, &[]), Err(JxlError::GainMapBundleInvalidData));
    assert_eq!(
        read_gain_map_bundle(&mut back, &[1, 0]),
        Err(JxlError::GainMapBundleInvalidData)
    );
    // metadata size field larger than the buffer
    assert_eq!(
        read_gain_map_bundle(&mut back, &[1, 0xFF, 0xFF, 0]),
        Err(JxlError::GainMapBundleInvalidData)
    );
    // invalid presence flag
    assert_eq!(
        read_gain_map_bundle(&mut back, &[1, 0, 0, 2, 0, 0, 0, 0, 0, 0, 0, 0]),
        Err(JxlError::GainMapBundleInvalidData)
    );
    // truncated gain-map payload
    assert_eq!(
        read_gain_map_bundle(&mut back, &[1, 0, 0, 0, 0, 0, 0, 0, 0, 0, 0, 9]),
        Err(JxlError::GainMapBundleInvalidData)
    );
}

#[test]
fn bundle_read_rejects_bad_color_code() {
    // A present color encoding whose color-space code is unknown.
    let mut bundle = JxlGainMapBundle::new();
    bundle.has_color_encoding = true;
    bundle.color_encoding = sample_encoding();
    let mut out = Vec::new();
    write_gain_map_bundle(&bundle, &mut out).unwrap();
    out[4] = 0x99; // corrupt the color-space code (after version + size + flag)
    let mut back = JxlGainMapBundle::new();
    assert_eq!(read_gain_map_bundle(&mut back, &out), Err(JxlError::GainMapBundleInvalidData));
}
