use jxl_stream::decoder::JxlDecoder;
use jxl_stream::decoder_enum::JxlSignature;

#[test]
fn test_signature_check() {
    let decoder = JxlDecoder::new();

    // Valid JPEG XL signature (container format)
    let valid_jxl_data = [
        0x00, 0x00, 0x00, 0x0C, 0x4A, 0x58, 0x4C, 0x20, 0x0D, 0x0A, 0x87, 0x0A, 0x00, 0x00, 0x00,
        0x14, 0x66, 0x74, 0x79, 0x70, 0x6A, 0x78, 0x6C, 0x20,
    ];
    let result = decoder.check_signature(&valid_jxl_data);
    assert!(
        matches!(result, Ok(JxlSignature::Container)),
        "Expected Container signature, got {:?}",
        result
    );

    // Valid JPEG XL signature (codestream format)
    let valid_codestream_data = [0xFF, 0x0A];
    let result = decoder.check_signature(&valid_codestream_data);
    assert!(
        matches!(result, Ok(JxlSignature::Codestream)),
        "Expected Codestream signature, got {:?}",
        result
    );

    // Not enough bytes
    let not_enough_data = [0x00];
    let result = decoder.check_signature(&not_enough_data);
    assert!(
        matches!(result, Ok(JxlSignature::NotEnoughBytes)),
        "Expected NotEnoughBytes, got {:?}",
        result
    );
}

#[test]
fn two_byte_codestream_marker() {
    let decoder = JxlDecoder::new();
    let data = [0xFF, 0x0A];
    assert_eq!(decoder.check_signature(&data), Ok(JxlSignature::Codestream));
}

#[test]
fn single_byte_is_not_enough() {
    let decoder = JxlDecoder::new();
    let data = [0x00];
    assert_eq!(decoder.check_signature(&data), Ok(JxlSignature::NotEnoughBytes));
}

#[test]
fn empty_prefix_is_not_enough() {
    let decoder = JxlDecoder::new();
    let data: [u8; 0] = [];
    assert_eq!(decoder.check_signature(&data), Ok(JxlSignature::NotEnoughBytes));
}

#[test]
fn exact_container_magic() {
    let decoder = JxlDecoder::new();
    let magic = [0x00, 0x00, 0x00, 0x0C, 0x4A, 0x58, 0x4C, 0x20, 0x0D, 0x0A, 0x87, 0x0A];
    assert_eq!(decoder.check_signature(&magic), Ok(JxlSignature::Container));
}

#[test]
fn short_magic_prefix_is_not_rejected() {
    // A proper prefix of the container magic may still become valid.
    let decoder = JxlDecoder::new();
    let prefix = [0x00, 0x00, 0x00, 0x0C, 0x4A];
    assert_eq!(decoder.check_signature(&prefix), Ok(JxlSignature::NotEnoughBytes));
}

#[test]
fn garbage_prefix_is_invalid() {
    let decoder = JxlDecoder::new();
    let data = [0x12, 0x34, 0x56];
    assert_eq!(decoder.check_signature(&data), Ok(JxlSignature::Invalid));
    let twelve = [0xAB; 12];
    assert_eq!(decoder.check_signature(&twelve), Ok(JxlSignature::Invalid));
}

#[test]
fn magic_with_one_wrong_byte_is_invalid() {
    let decoder = JxlDecoder::new();
    let mut data = [0x00, 0x00, 0x00, 0x0C, 0x4A, 0x58, 0x4C, 0x20, 0x0D, 0x0A, 0x87, 0x0A];
    data[11] = 0x0B;
    assert_eq!(decoder.check_signature(&data), Ok(JxlSignature::Invalid));
}
