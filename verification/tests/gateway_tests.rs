use gemini_image_mcp::error::McpError;
use gemini_image_mcp::gateway::{
    check_api_key, check_content_length, check_local_file, choose_mime_type,
    classify_http_failure, classify_transport_error, is_success_status,
};

#[test]
fn test_status_classification() {
    assert!(is_success_status(200));
    assert!(is_success_status(204));
    assert!(is_success_status(299));
    assert!(!is_success_status(199));
    assert!(!is_success_status(300));
    assert!(!is_success_status(404));

    match classify_http_failure(401, "ignored".to_string()) {
        McpError::AuthenticationError(m) => assert_eq!(m, "Invalid API key"),
        other => panic!("unexpected {other:?}"),
    }
    match classify_http_failure(429, "ignored".to_string()) {
        McpError::RateLimitError(m) => assert_eq!(m, "Gemini API rate limit exceeded"),
        other => panic!("unexpected {other:?}"),
    }
    match classify_http_failure(503, "overloaded".to_string()) {
        McpError::GeminiApiError { code, message } => {
            assert_eq!(code, 503);
            assert_eq!(message, "overloaded");
        }
        other => panic!("unexpected {other:?}"),
    }
}

#[test]
fn test_choose_mime_type() {
    // A declared image content-type wins.
    assert_eq!(
        choose_mime_type(&Some("image/webp".to_string()), "https://e.com/pic.png"),
        "image/webp"
    );
    // A non-image content-type falls back to the URL's extension.
    assert_eq!(
        choose_mime_type(&Some("text/html".to_string()), "https://e.com/pic.png"),
        "image/png"
    );
    // No header at all: extension guess.
    assert_eq!(choose_mime_type(&None, "https://e.com/photo.JPG"), "image/jpeg");
    // Unknown extension defaults to JPEG.
    assert_eq!(choose_mime_type(&None, "https://e.com/pic"), "image/jpeg");
}

#[test]
fn test_check_content_length() {
    assert!(check_content_length(0).is_ok());
    assert!(check_content_length(20 * 1024 * 1024).is_ok());
    match check_content_length(20 * 1024 * 1024 + 1) {
        Err(McpError::InvalidInput(m)) => assert_eq!(m, "Image too large (max 20MB)"),
        other => panic!("unexpected {other:?}"),
    }
}

#[test]
fn test_check_local_file() {
    let path = "photo.png".to_string();
    match check_local_file(&path, false, false, 0) {
        Err(McpError::FileSystemError(m)) => assert_eq!(m, "File not found: photo.png"),
        other => panic!("unexpected {other:?}"),
    }
    match check_local_file(&path, true, false, 0) {
        Err(McpError::FileSystemError(m)) => assert_eq!(m, "Path is not a file: photo.png"),
        other => panic!("unexpected {other:?}"),
    }
    match check_local_file(&path, true, true, 21 * 1024 * 1024) {
        Err(McpError::InvalidInput(m)) => assert_eq!(m, "Image file too large (max 20MB)"),
        other => panic!("unexpected {other:?}"),
    }
    assert_eq!(check_local_file(&path, true, true, 100).unwrap(), "image/png");
}

#[test]
fn test_check_api_key() {
    assert!(check_api_key(&"k".to_string()).is_ok());
    match check_api_key(&"  ".to_string()) {
        Err(McpError::AuthenticationError(m)) => assert_eq!(m, "API key is empty"),
        other => panic!("unexpected {other:?}"),
    }
    match check_api_key(&"".to_string()) {
        Err(McpError::AuthenticationError(m)) => assert_eq!(m, "API key is empty"),
        other => panic!("unexpected {other:?}"),
    }
}

#[test]
fn test_classify_transport_error() {
    match classify_transport_error(true, "deadline has elapsed".to_string()) {
        McpError::Timeout(m) => assert_eq!(m, "Request timeout: deadline has elapsed"),
        other => panic!("unexpected {other:?}"),
    }
    match classify_transport_error(false, "connection refused".to_string()) {
        McpError::NetworkError(m) => assert_eq!(m, "connection refused"),
        other => panic!("unexpected {other:?}"),
    }
}
