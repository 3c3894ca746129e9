use jxl_stream::common::JxlPixelFormat;
use jxl_stream::decoder::BackendUnit;
use jxl_stream::decoder::BoxRecord;
use jxl_stream::decoder::JxlDecoder;
use jxl_stream::decoder_enum::JxlColorProfileTarget;
use jxl_stream::decoder_enum::JxlDecoderStatus;
use jxl_stream::error::JxlError;
use jxl_stream::metadata::JxlBasicInfo;
use jxl_stream::metadata::JxlFrameHeader;

fn basic_info_64x64() -> JxlBasicInfo {
    let mut info = JxlBasicInfo::default();
    info.xsize = 64;
    info.ysize = 64;
    info.bits_per_sample = 8;
    info.num_color_channels = 3;
    info
}

fn basic_info_unit() -> BackendUnit {
    BackendUnit::BasicInfoReady {
        info: basic_info_64x64(),
        extra_channels: vec![],
        extra_channel_names: vec![],
    }
}

fn color_unit() -> BackendUnit {
    BackendUnit::ColorEncodingReady { encoded_profile: None, icc_profile: vec![0xCC, 0xDD] }
}

fn frame_unit() -> BackendUnit {
    BackendUnit::FrameReady { header: JxlFrameHeader::default(), name: vec![b'f', b'1'] }
}

fn all_events_mask() -> i32 {
    JxlDecoderStatus::BasicInfo.bits()
        | JxlDecoderStatus::ColorEncoding.bits()
        | JxlDecoderStatus::Frame.bits()
        | JxlDecoderStatus::FullImage.bits()
}

#[test]
fn test_decoder_reset_and_rewind() {
    let mut decoder = JxlDecoder::new();
    decoder.reset();
    decoder.rewind();
}

#[test]
fn test_size_hint_and_events() {
    let mut decoder = JxlDecoder::new();
    let hint = decoder.size_hint_basic_info();
    assert!(hint > 0, "Size hint should be greater than 0");

    assert!(decoder
        .subscribe_events(JxlDecoderStatus::BasicInfo.bits() | JxlDecoderStatus::ColorEncoding.bits())
        .is_ok());
}

#[test]
fn test_orientation_and_alpha_settings() {
    let mut decoder = JxlDecoder::new();
    assert!(decoder.set_keep_orientation(true).is_ok());
    assert!(decoder.set_unpremultiply_alpha(true).is_ok());
    assert!(decoder.set_render_spotcolors(false).is_ok());
    assert!(decoder.set_coalescing(true).is_ok());
}

#[test]
fn test_input_processing() {
    let mut decoder = JxlDecoder::new();
    let dummy_input = vec![0xFF, 0x0A];
    assert!(decoder.set_input(&dummy_input).is_ok());

    match decoder.process_input(0, BackendUnit::NeedMoreInput) {
        Ok(status) => println!("Process input status: {:?}", status),
        Err(e) => println!("Process input error: {:?}", e),
    }

    let remaining = decoder.release_input();
    println!("Remaining unprocessed bytes: {}", remaining);
    assert_eq!(remaining, 2);

    decoder.close_input();
}

#[test]
fn test_basic_info_and_color_encoding() {
    let mut decoder = JxlDecoder::new();
    let dummy_input = vec![0xFF, 0x0A];
    decoder.set_input(&dummy_input).expect("Failed to set input");
    decoder
        .process_input(2, basic_info_unit())
        .expect("Failed to process input");

    match decoder.get_basic_info() {
        Ok(info) => println!("Basic info: {:?}", info),
        Err(e) => println!("Failed to get basic info: {:?}", e),
    }
    assert_eq!(decoder.get_basic_info().unwrap().xsize, 64);

    match decoder.get_color_as_encoded_profile(JxlColorProfileTarget::Data) {
        Ok(profile) => println!("Color profile: {:?}", profile),
        Err(e) => println!("Failed to get color profile: {:?}", e),
    }
}

#[test]
fn test_extra_channel_info() {
    let decoder = JxlDecoder::new();
    match decoder.get_extra_channel_info(0) {
        Ok(info) => println!("Extra channel info: {:?}", info),
        Err(e) => println!("Failed to get extra channel info: {:?}", e),
    }

    match decoder.get_extra_channel_name(0, 256) {
        Ok(name) => println!("Extra channel name: {:?}", name),
        Err(e) => println!("Failed to get extra channel name: {:?}", e),
    }
}

#[test]
fn test_icc_profile() {
    let mut decoder = JxlDecoder::new();
    match decoder.get_icc_profile_size(JxlColorProfileTarget::Original) {
        Ok(size) => println!("ICC profile size: {:?}", size),
        Err(e) => println!("Failed to get ICC profile size: {:?}", e),
    }
    assert_eq!(
        decoder.get_icc_profile_size(JxlColorProfileTarget::Original),
        Err(JxlError::NotEnoughInput)
    );

    decoder.process_input(0, basic_info_unit()).unwrap();
    decoder.process_input(0, color_unit()).unwrap();
    assert_eq!(decoder.get_icc_profile_size(JxlColorProfileTarget::Data), Ok(2));
    let icc = decoder
        .get_color_as_icc_profile(JxlColorProfileTarget::Data)
        .unwrap();
    println!("ICC profile data length: {}", icc.len());
    assert_eq!(icc, vec![0xCC, 0xDD]);
}

#[test]
fn test_jpeg_reconstruction() {
    let mut decoder = JxlDecoder::new();
    let buffer = vec![0u8; 1024];
    assert!(decoder.set_jpeg_buffer(&buffer).is_ok());
    let remaining = decoder.release_jpeg_buffer();
    println!("Remaining JPEG buffer size: {}", remaining);
    assert_eq!(remaining, 1024);
}

#[test]
fn test_image_out_buffer() {
    let mut decoder = JxlDecoder::new();
    decoder.subscribe_events(all_events_mask()).unwrap();
    let format = JxlPixelFormat::default();

    match decoder.image_out_buffer_size(&format) {
        Ok(size) => println!("Image out buffer size: {}", size),
        Err(e) => println!("Failed to get image out buffer size: {:?}", e),
    }

    decoder.process_input(0, basic_info_unit()).unwrap();
    decoder.process_input(0, color_unit()).unwrap();
    decoder.process_input(0, frame_unit()).unwrap();
    assert_eq!(
        decoder.process_input(0, BackendUnit::NeedImageOutBuffer),
        Ok(Some(JxlDecoderStatus::NeedImageOutBuffer))
    );

    let size = decoder.image_out_buffer_size(&format).unwrap();
    println!("Image out buffer size: {}", size);
    let buffer = vec![0u8; size];
    assert!(decoder.set_image_out_buffer(&format, &buffer).is_ok());
    assert_eq!(
        decoder.process_input(0, BackendUnit::FullImageReady),
        Ok(Some(JxlDecoderStatus::FullImage))
    );
}

#[test]
fn undersized_buffer_leaves_state_unchanged() {
    // Submitting an output buffer shorter than the negotiated size must
    // not change the stream state.
    let mut decoder = JxlDecoder::new();
    decoder.subscribe_events(all_events_mask()).unwrap();
    decoder.process_input(0, basic_info_unit()).unwrap();
    decoder.process_input(0, color_unit()).unwrap();
    decoder.process_input(0, frame_unit()).unwrap();
    assert_eq!(
        decoder.process_input(0, BackendUnit::NeedImageOutBuffer),
        Ok(Some(JxlDecoderStatus::NeedImageOutBuffer))
    );

    let format = JxlPixelFormat::default();
    let need = decoder.image_out_buffer_size(&format).unwrap();
    assert_eq!(need, 12288);

    let small = vec![0u8; need - 1];
    assert_eq!(
        decoder.set_image_out_buffer(&format, &small),
        Err(JxlError::UndersizedBuffer)
    );
    // The machine still awaits the buffer: re-entering without it is a
    // caller error, and a correctly sized buffer is still accepted.
    assert_eq!(
        decoder.process_input(0, BackendUnit::FullImageReady),
        Err(JxlError::ApiSequenceError)
    );
    let right = vec![0u8; need];
    assert!(decoder.set_image_out_buffer(&format, &right).is_ok());
    assert_eq!(
        decoder.process_input(0, BackendUnit::FullImageReady),
        Ok(Some(JxlDecoderStatus::FullImage))
    );
}

#[test]
fn basic_info_only_subscription_never_yields_frame_events() {
    // Sequencing: subscribing only to BasicInfo never yields a Frame or
    // FullImage event for any stream the backend can report.
    let mut decoder = JxlDecoder::new();
    decoder
        .subscribe_events(JxlDecoderStatus::BasicInfo.bits())
        .unwrap();
    assert_eq!(
        decoder.process_input(0, basic_info_unit()),
        Ok(Some(JxlDecoderStatus::BasicInfo))
    );
    assert_eq!(decoder.process_input(0, color_unit()), Ok(None));
    assert_eq!(decoder.process_input(0, frame_unit()), Ok(None));
    assert_eq!(decoder.process_input(0, BackendUnit::FullImageReady), Ok(None));
    assert_eq!(
        decoder.process_input(0, BackendUnit::Finished),
        Ok(Some(JxlDecoderStatus::Success))
    );
}

#[test]
fn need_more_input_discipline() {
    let mut decoder = JxlDecoder::new();
    assert_eq!(
        decoder.process_input(0, BackendUnit::NeedMoreInput),
        Ok(Some(JxlDecoderStatus::NeedMoreInput))
    );
    // Re-entering without new bytes is a caller error.
    assert_eq!(
        decoder.process_input(0, BackendUnit::NeedMoreInput),
        Err(JxlError::ApiSequenceError)
    );
    // Supplying bytes satisfies the demand.
    decoder.set_input(&[0xFF, 0x0A]).unwrap();
    assert_eq!(
        decoder.process_input(2, basic_info_unit()),
        Ok(None) // not subscribed
    );
    assert_eq!(decoder.consumed_count(), 2);
}

#[test]
fn closed_input_turns_need_more_input_fatal() {
    let mut decoder = JxlDecoder::new();
    decoder.close_input();
    assert_eq!(decoder.set_input(&[1, 2, 3]), Err(JxlError::AlreadyClosed));
    assert_eq!(
        decoder.process_input(0, BackendUnit::NeedMoreInput),
        Err(JxlError::TruncatedStream)
    );
    // The stream is dead: every further step fails.
    assert_eq!(
        decoder.process_input(0, basic_info_unit()),
        Err(JxlError::DecodingFailed)
    );
}

#[test]
fn corrupt_stream_is_fatal() {
    let mut decoder = JxlDecoder::new();
    assert_eq!(
        decoder.process_input(0, BackendUnit::Corrupt),
        Err(JxlError::DecodingFailed)
    );
    assert_eq!(
        decoder.process_input(0, BackendUnit::Finished),
        Err(JxlError::DecodingFailed)
    );
}

#[test]
fn out_of_order_unit_is_fatal() {
    let mut decoder = JxlDecoder::new();
    // A frame before basic info is a backend protocol violation.
    assert_eq!(decoder.process_input(0, frame_unit()), Err(JxlError::DecodingFailed));
}

#[test]
fn rewind_preserves_subscriptions() {
    let mut decoder = JxlDecoder::new();
    decoder
        .subscribe_events(JxlDecoderStatus::BasicInfo.bits())
        .unwrap();
    decoder.process_input(0, basic_info_unit()).unwrap();
    assert!(decoder.get_basic_info().is_ok());

    decoder.rewind();
    // Per-stream metadata is gone ...
    assert_eq!(decoder.get_basic_info(), Err(JxlError::MetadataNotReady));
    // ... but the subscription survives: basic info is surfaced again.
    assert_eq!(
        decoder.process_input(0, basic_info_unit()),
        Ok(Some(JxlDecoderStatus::BasicInfo))
    );
}

#[test]
fn subscribe_after_start_is_rejected() {
    let mut decoder = JxlDecoder::new();
    decoder.process_input(0, basic_info_unit()).unwrap();
    assert_eq!(
        decoder.subscribe_events(JxlDecoderStatus::Frame.bits()),
        Err(JxlError::ApiSequenceError)
    );
}

#[test]
fn skip_frames_suppresses_frame_events() {
    let mut decoder = JxlDecoder::new();
    decoder.subscribe_events(all_events_mask()).unwrap();
    decoder.process_input(0, basic_info_unit()).unwrap();
    decoder.process_input(0, color_unit()).unwrap();
    assert!(decoder.skip_frames(1).is_ok());
    // The first frame is skipped silently, the second is surfaced.
    assert_eq!(decoder.process_input(0, frame_unit()), Ok(None));
    assert_eq!(
        decoder.process_input(0, frame_unit()),
        Ok(Some(JxlDecoderStatus::Frame))
    );
}

#[test]
fn skip_frames_outside_frame_phase_is_rejected() {
    let mut decoder = JxlDecoder::new();
    assert_eq!(decoder.skip_frames(1), Err(JxlError::ApiSequenceError));
    assert_eq!(decoder.skip_current_frame(), Err(JxlError::ApiSequenceError));
}

#[test]
fn skip_current_frame_reenters_frame_phase() {
    let mut decoder = JxlDecoder::new();
    decoder.subscribe_events(all_events_mask()).unwrap();
    decoder.process_input(0, basic_info_unit()).unwrap();
    decoder.process_input(0, color_unit()).unwrap();
    decoder.process_input(0, frame_unit()).unwrap();
    assert!(decoder.get_frame_header().is_ok());
    assert!(decoder.skip_current_frame().is_ok());
    assert_eq!(decoder.get_frame_header(), Err(JxlError::FrameError));
    // The machine accepts the next frame again.
    assert_eq!(
        decoder.process_input(0, frame_unit()),
        Ok(Some(JxlDecoderStatus::Frame))
    );
}

#[test]
fn frame_name_respects_caller_buffer_length() {
    let mut decoder = JxlDecoder::new();
    decoder.subscribe_events(all_events_mask()).unwrap();
    decoder.process_input(0, basic_info_unit()).unwrap();
    decoder.process_input(0, color_unit()).unwrap();
    decoder.process_input(0, frame_unit()).unwrap();
    // Name "f1" plus the NUL terminator needs three bytes.
    assert_eq!(decoder.get_frame_name(2), Err(JxlError::InvalidInput));
    assert_eq!(decoder.get_frame_name(3).unwrap(), vec![b'f', b'1']);
}

#[test]
fn box_sub_protocol_reemits_until_buffer_supplied() {
    let mut decoder = JxlDecoder::new();
    decoder
        .subscribe_events(JxlDecoderStatus::Box.bits() | JxlDecoderStatus::BoxComplete.bits())
        .unwrap();
    let record = BoxRecord {
        tag0: b'E',
        tag1: b'x',
        tag2: b'i',
        tag3: b'f',
        raw_size: 20,
        contents_size: 12,
    };
    assert_eq!(
        decoder.process_input(0, BackendUnit::BoxReady { record }),
        Ok(Some(JxlDecoderStatus::Box))
    );
    // Without a contents buffer the event is re-emitted, not an error.
    assert_eq!(
        decoder.process_input(0, BackendUnit::BoxComplete),
        Ok(Some(JxlDecoderStatus::Box))
    );
    assert_eq!(decoder.get_box_type().unwrap(), (b'E', b'x', b'i', b'f'));
    assert_eq!(decoder.get_box_size_raw().unwrap(), 20);
    assert_eq!(decoder.get_box_size_contents().unwrap(), 12);

    // Changing the decompression mode mid-box is rejected.
    assert_eq!(decoder.set_decompress_boxes(true), Err(JxlError::ApiSequenceError));

    let buffer = vec![0u8; 16];
    assert!(decoder.set_box_buffer(&buffer).is_ok());
    assert_eq!(
        decoder.process_input(0, BackendUnit::BoxComplete),
        Ok(Some(JxlDecoderStatus::BoxComplete))
    );
    // 12 of the 16 bytes were filled.
    assert_eq!(decoder.release_box_buffer(), 4);
    // Between boxes the mode switch is allowed again.
    assert!(decoder.set_decompress_boxes(true).is_ok());
}

#[test]
fn unsubscribed_boxes_are_skipped() {
    let mut decoder = JxlDecoder::new();
    let record = BoxRecord { tag0: 1, tag1: 2, tag2: 3, tag3: 4, raw_size: 8, contents_size: 0 };
    assert_eq!(decoder.process_input(0, BackendUnit::BoxReady { record }), Ok(None));
    assert_eq!(decoder.get_box_type(), Err(JxlError::BoxError));
}

#[test]
fn callback_modes_are_mutually_exclusive() {
    let mut decoder = JxlDecoder::new();
    let format = JxlPixelFormat::default();
    assert!(decoder.set_image_out_callback(&format).is_ok());
    assert_eq!(
        decoder.set_image_out_callback(&format),
        Err(JxlError::ApiSequenceError)
    );
    assert_eq!(
        decoder.set_multithreaded_image_out_callback(&format),
        Err(JxlError::ApiSequenceError)
    );
}

#[test]
fn bit_depth_requires_registered_output() {
    let mut decoder = JxlDecoder::new();
    let depth = jxl_stream::common::JxlBitDepth::default();
    assert_eq!(
        decoder.set_image_out_bit_depth(&depth),
        Err(JxlError::PixelFormatError)
    );
    let format = JxlPixelFormat::default();
    decoder.set_image_out_callback(&format).unwrap();
    assert!(decoder.set_image_out_bit_depth(&depth).is_ok());
}

#[test]
fn output_color_profile_rejects_ambiguous_choice() {
    let mut decoder = JxlDecoder::new();
    let encoding = jxl_stream::color::JxlColorEncoding::default();
    let icc = vec![1u8, 2, 3];
    assert_eq!(
        decoder.set_output_color_profile(Some(&encoding), Some(&icc)),
        Err(JxlError::InvalidInput)
    );
    assert_eq!(
        decoder.set_output_color_profile(None, None),
        Err(JxlError::ColorProfileError)
    );
    assert!(decoder.set_output_color_profile(Some(&encoding), None).is_ok());
    assert!(decoder.set_output_color_profile(None, Some(&icc)).is_ok());
}

#[test]
fn done_stream_keeps_reporting_success() {
    let mut decoder = JxlDecoder::new();
    assert_eq!(
        decoder.process_input(0, BackendUnit::Finished),
        Ok(Some(JxlDecoderStatus::Success))
    );
    assert_eq!(
        decoder.process_input(0, BackendUnit::NeedMoreInput),
        Ok(Some(JxlDecoderStatus::Success))
    );
}

#[test]
fn progression_ratio_is_tracked() {
    let mut decoder = JxlDecoder::new();
    decoder.subscribe_events(all_events_mask()).unwrap();
    decoder.process_input(0, basic_info_unit()).unwrap();
    decoder.process_input(0, color_unit()).unwrap();
    decoder.process_input(0, frame_unit()).unwrap();
    assert_eq!(decoder.get_intended_downsampling_ratio(), 1);
    // FrameProgression is not subscribed: tracked but not surfaced.
    assert_eq!(
        decoder.process_input(0, BackendUnit::FrameProgression { downsampling: 8 }),
        Ok(None)
    );
    assert_eq!(decoder.get_intended_downsampling_ratio(), 8);
}

#[test]
fn preview_buffer_negotiation() {
    let mut decoder = JxlDecoder::new();
    decoder
        .subscribe_events(all_events_mask() | JxlDecoderStatus::PreviewImage.bits())
        .unwrap();
    let mut info = basic_info_64x64();
    info.preview.xsize = 8;
    info.preview.ysize = 4;
    decoder
        .process_input(
            0,
            BackendUnit::BasicInfoReady {
                info,
                extra_channels: vec![],
                extra_channel_names: vec![],
            },
        )
        .unwrap();
    decoder.process_input(0, color_unit()).unwrap();
    assert_eq!(
        decoder.process_input(0, BackendUnit::NeedPreviewOutBuffer),
        Ok(Some(JxlDecoderStatus::NeedPreviewOutBuffer))
    );
    let format = JxlPixelFormat::default();
    let need = decoder.preview_out_buffer_size(&format).unwrap();
    assert_eq!(need, 8 * 4 * 3);
    let small = vec![0u8; need - 1];
    assert_eq!(
        decoder.set_preview_out_buffer(&format, &small),
        Err(JxlError::UndersizedBuffer)
    );
    let buffer = vec![0u8; need];
    assert!(decoder.set_preview_out_buffer(&format, &buffer).is_ok());
    assert_eq!(
        decoder.process_input(0, BackendUnit::PreviewReady),
        Ok(Some(JxlDecoderStatus::PreviewImage))
    );
}

#[test]
fn extra_channel_metadata_is_exposed() {
    let mut decoder = JxlDecoder::new();
    let mut channel = jxl_stream::metadata::JxlExtraChannelInfo::default();
    channel.bits_per_sample = 8;
    channel.name_length = 5;
    decoder
        .process_input(
            0,
            BackendUnit::BasicInfoReady {
                info: basic_info_64x64(),
                extra_channels: vec![channel],
                extra_channel_names: vec![b"alpha".to_vec()],
            },
        )
        .unwrap();
    assert_eq!(decoder.get_extra_channel_info(0).unwrap().name_length, 5);
    assert_eq!(
        decoder.get_extra_channel_info(1),
        Err(JxlError::ExtraChannelError)
    );
    assert_eq!(decoder.get_extra_channel_name(0, 6).unwrap(), b"alpha".to_vec());
    assert_eq!(decoder.get_extra_channel_name(0, 5), Err(JxlError::InvalidInput));

    let format = JxlPixelFormat::default();
    let size = decoder.extra_channel_buffer_size(&format, 0).unwrap();
    assert_eq!(size, 64 * 64); // one channel, one byte per sample
    assert_eq!(
        decoder.extra_channel_buffer_size(&format, 1),
        Err(JxlError::ExtraChannelBufferError)
    );
}

#[test]
fn frame_window_closes_at_end_of_stream() {
    let mut decoder = JxlDecoder::new();
    decoder.subscribe_events(all_events_mask()).unwrap();
    decoder.process_input(0, basic_info_unit()).unwrap();
    decoder.process_input(0, color_unit()).unwrap();
    decoder.process_input(0, frame_unit()).unwrap();
    assert!(decoder.get_frame_header().is_ok());
    decoder.process_input(0, BackendUnit::FullImageReady).unwrap();
    // Between frames the header of the last frame is still readable.
    assert!(decoder.get_frame_header().is_ok());
    decoder.process_input(0, BackendUnit::Finished).unwrap();
    // After the stream ends the per-frame window is closed.
    assert_eq!(decoder.get_frame_header(), Err(JxlError::FrameError));
    assert_eq!(decoder.get_frame_name(100), Err(JxlError::FrameError));
}
