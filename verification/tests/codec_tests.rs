use gemini_image_mcp::codec::{base64_round_trip, decode_image_data, encode_image_bytes};
use gemini_image_mcp::error::McpError;

#[test]
fn test_base64_round_trip_reproduces_bytes() {
    let bytes: Vec<u8> = vec![0x00, 0x01, 0x7f, 0x80, 0xfe, 0xff, 0x00, 0xff];
    let back = base64_round_trip(&bytes);
    assert_eq!(back, bytes);

    let empty: Vec<u8> = Vec::new();
    assert_eq!(base64_round_trip(&empty), empty);
}

#[test]
fn test_encode_image_bytes_produces_standard_base64() {
    let (mime, data) = encode_image_bytes("image/png".to_string(), &vec![0x41]).unwrap();
    assert_eq!(mime, "image/png");
    assert_eq!(data, "QQ==");

    let (_, data2) = encode_image_bytes("image/png".to_string(), &vec![0xff, 0x00]).unwrap();
    assert_eq!(data2, "/wA=");
}

#[test]
fn test_encode_image_bytes_rejects_empty() {
    match encode_image_bytes("image/png".to_string(), &Vec::new()) {
        Err(McpError::InvalidInput(m)) => assert_eq!(m, "Image file is empty"),
        other => panic!("expected InvalidInput, got {other:?}"),
    }
}

#[test]
fn test_encode_image_bytes_rejects_oversized() {
    let big = vec![0u8; 20 * 1024 * 1024 + 1];
    match encode_image_bytes("image/png".to_string(), &big) {
        Err(McpError::InvalidInput(m)) => assert_eq!(m, "Image file too large (max 20MB)"),
        other => panic!("expected InvalidInput, got {other:?}"),
    }
}

#[test]
fn test_decode_image_data() {
    assert_eq!(decode_image_data("QQ==").unwrap(), vec![0x41]);

    match decode_image_data("not base64 at all!") {
        Err(McpError::Base64Error(m)) => assert_eq!(m, "Invalid base64 image data"),
        other => panic!("expected Base64Error, got {other:?}"),
    }
}
