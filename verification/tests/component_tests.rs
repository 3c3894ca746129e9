use jxl_stream::common::from_jxl_bool;
use jxl_stream::common::to_jxl_bool;
use jxl_stream::common::JxlBool;
use jxl_stream::decoder_enum::JxlDecoderStatus;
use jxl_stream::dispatcher::CallbackDispatcher;
use jxl_stream::encoder_enum::JxlEncoderError;
use jxl_stream::encoder_enum::JxlEncoderStatus;
use jxl_stream::error::JxlError;
use jxl_stream::feeder::InputFeeder;
use jxl_stream::common::source_color_layout;
use jxl_stream::common::source_total_channels;
use jxl_stream::common::SourceColorType;

#[test]
fn jxl_bool_conversions() {
    assert_eq!(to_jxl_bool(true), JxlBool::True);
    assert_eq!(to_jxl_bool(false), JxlBool::False);
    assert!(from_jxl_bool(JxlBool::True));
    assert!(!from_jxl_bool(JxlBool::False));
}

#[test]
fn status_bits_round_trip() {
    let statuses = [
        JxlDecoderStatus::Success,
        JxlDecoderStatus::Error,
        JxlDecoderStatus::NeedMoreInput,
        JxlDecoderStatus::NeedPreviewOutBuffer,
        JxlDecoderStatus::NeedImageOutBuffer,
        JxlDecoderStatus::JpegNeedMoreOutput,
        JxlDecoderStatus::BoxNeedMoreOutput,
        JxlDecoderStatus::BasicInfo,
        JxlDecoderStatus::ColorEncoding,
        JxlDecoderStatus::PreviewImage,
        JxlDecoderStatus::Frame,
        JxlDecoderStatus::FullImage,
        JxlDecoderStatus::JpegReconstruction,
        JxlDecoderStatus::Box,
        JxlDecoderStatus::FrameProgression,
        JxlDecoderStatus::BoxComplete,
    ];
    for s in statuses {
        assert_eq!(JxlDecoderStatus::from_bits(s.bits()), Ok(s));
    }
    assert_eq!(JxlDecoderStatus::BasicInfo.bits(), 0x40);
    assert_eq!(JxlDecoderStatus::Frame.bits(), 0x400);
    assert!(matches!(
        JxlDecoderStatus::from_bits(4),
        Err(JxlError::InvalidDecoderStatus(4))
    ));
}

#[test]
fn encoder_status_maps_to_errors() {
    assert_eq!(
        JxlError::from_encoder_status(JxlEncoderStatus::NeedMoreOutput, None),
        JxlError::NotEnoughOutput
    );
    assert_eq!(
        JxlError::from_encoder_status(JxlEncoderStatus::Error, Some(JxlEncoderError::BadInput)),
        JxlError::InvalidInput
    );
    assert_eq!(
        JxlError::from_encoder_status(JxlEncoderStatus::Error, Some(JxlEncoderError::NotSupported)),
        JxlError::UnsupportedOperation
    );
    assert_eq!(
        JxlError::from_encoder_status(JxlEncoderStatus::Error, None),
        JxlError::EncodingFailed(JxlEncoderStatus::Error)
    );
}

#[test]
fn feeder_is_cumulative_and_tracks_consumption() {
    let mut feeder = InputFeeder::new();
    feeder.supply(&[1, 2, 3]).unwrap();
    feeder.supply(&[4, 5]).unwrap();
    assert_eq!(feeder.remaining(), 5);
    feeder.consume(3).unwrap();
    assert_eq!(feeder.consumed_count(), 3);
    assert_eq!(feeder.remaining(), 2);
    // Consuming past the cursor is refused.
    assert_eq!(feeder.consume(5), Err(JxlError::InvalidInput));
    feeder.close();
    assert_eq!(feeder.supply(&[6]), Err(JxlError::AlreadyClosed));
    assert!(feeder.is_closed());
}

#[test]
fn dispatcher_releases_contexts_exactly_once() {
    let mut dispatcher = CallbackDispatcher::new();
    dispatcher.register_frame(1, 4).unwrap();
    dispatcher.register_frame(2, 8).unwrap();
    assert!(dispatcher.has_frame(1));
    assert_eq!(dispatcher.active_frames(), 2);

    // Registering the same frame twice is a caller error; nothing leaks.
    assert_eq!(dispatcher.register_frame(1, 4), Err(JxlError::ApiSequenceError));
    assert_eq!(dispatcher.active_frames(), 2);

    assert_eq!(dispatcher.complete_frame(1), Ok(4));
    assert!(!dispatcher.has_frame(1));
    // A second completion of the same frame is refused: no double release.
    assert_eq!(dispatcher.complete_frame(1), Err(JxlError::ApiSequenceError));
    assert_eq!(dispatcher.complete_frame(2), Ok(8));
    assert_eq!(dispatcher.active_frames(), 0);
}

#[test]
fn source_color_layouts() {
    assert_eq!(source_color_layout(SourceColorType::L8), (1, 8, 0));
    assert_eq!(source_color_layout(SourceColorType::La8), (1, 8, 8));
    assert_eq!(source_color_layout(SourceColorType::Rgb8), (3, 8, 0));
    assert_eq!(source_color_layout(SourceColorType::Rgba8), (3, 8, 8));
    assert_eq!(source_color_layout(SourceColorType::L16), (1, 16, 0));
    assert_eq!(source_color_layout(SourceColorType::La16), (1, 16, 16));
    assert_eq!(source_color_layout(SourceColorType::Rgb16), (3, 16, 0));
    assert_eq!(source_color_layout(SourceColorType::Rgba16), (3, 16, 16));
    assert_eq!(source_total_channels(SourceColorType::Rgba16), 4);
    assert_eq!(source_total_channels(SourceColorType::La8), 2);
}
