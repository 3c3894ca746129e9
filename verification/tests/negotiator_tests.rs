use jxl_stream::common::JxlDataType;
use jxl_stream::common::JxlEndianness;
use jxl_stream::common::JxlPixelFormat;
use jxl_stream::metadata::JxlBasicInfo;
use jxl_stream::negotiator::required_size;
use jxl_stream::negotiator::OutputTarget;

fn info(xsize: u32, ysize: u32) -> JxlBasicInfo {
    let mut info = JxlBasicInfo::default();
    info.xsize = xsize;
    info.ysize = ysize;
    info.bits_per_sample = 8;
    info.num_color_channels = 3;
    info
}

#[test]
fn unaligned_rgb8_full_image_size() {
    // 64 x 64 pixels, 3 channels, 8-bit samples, no row alignment.
    let format = JxlPixelFormat {
        num_channels: 3,
        data_type: JxlDataType::Uint8,
        endianness: JxlEndianness::NativeEndian,
        align: 0,
    };
    let size = required_size(&info(64, 64), &format, OutputTarget::FullImage).unwrap();
    assert_eq!(size, 12288);
}

#[test]
fn required_size_is_idempotent() {
    let format = JxlPixelFormat::default();
    let meta = info(123, 45);
    let first = required_size(&meta, &format, OutputTarget::FullImage).unwrap();
    let second = required_size(&meta, &format, OutputTarget::FullImage).unwrap();
    assert_eq!(first, second);
}

#[test]
fn alignment_pads_each_row() {
    // 3 bytes per row, rounded up to 4.
    let format = JxlPixelFormat {
        num_channels: 1,
        data_type: JxlDataType::Uint8,
        endianness: JxlEndianness::NativeEndian,
        align: 4,
    };
    let size = required_size(&info(3, 5), &format, OutputTarget::ExtraChannel).unwrap();
    assert_eq!(size, 20);
    // Alignment 1 behaves like no alignment.
    let format_one = JxlPixelFormat { align: 1, ..format };
    let size_one = required_size(&info(3, 5), &format_one, OutputTarget::ExtraChannel).unwrap();
    assert_eq!(size_one, 15);
}

#[test]
fn sample_width_scales_the_size() {
    let mut format = JxlPixelFormat::default();
    format.data_type = JxlDataType::Uint16;
    let size = required_size(&info(10, 10), &format, OutputTarget::FullImage).unwrap();
    assert_eq!(size, 10 * 10 * 3 * 2);
    format.data_type = JxlDataType::Float;
    let size_f = required_size(&info(10, 10), &format, OutputTarget::FullImage).unwrap();
    assert_eq!(size_f, 10 * 10 * 3 * 4);
}

#[test]
fn preview_target_uses_preview_dimensions() {
    let mut meta = info(1000, 1000);
    meta.preview.xsize = 10;
    meta.preview.ysize = 5;
    let format = JxlPixelFormat::default();
    let size = required_size(&meta, &format, OutputTarget::Preview).unwrap();
    assert_eq!(size, 10 * 5 * 3);
}

#[test]
fn extra_channel_target_is_single_channel() {
    let format = JxlPixelFormat::default(); // 3 channels, but one is used
    let size = required_size(&info(8, 8), &format, OutputTarget::ExtraChannel).unwrap();
    assert_eq!(size, 64);
}

#[test]
fn zero_sized_image_needs_no_bytes() {
    let format = JxlPixelFormat::default();
    let size = required_size(&info(0, 0), &format, OutputTarget::FullImage).unwrap();
    assert_eq!(size, 0);
}
