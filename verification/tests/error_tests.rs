use gemini_image_mcp::error::McpError;
use gemini_image_mcp::json::JsonValue;
use gemini_image_mcp::jsonrpc::{convert_mcp_error_to_jsonrpc, JsonRpcResponse};
use gemini_image_mcp::text::{i64_to_string, u64_to_string};

#[test]
fn test_mcp_error_display() {
    let error = McpError::InvalidInput("test message".to_string());
    assert_eq!(error.message(), "Invalid input: test message");

    let error = McpError::GeminiApiError {
        code: 400,
        message: "Bad request".to_string(),
    };
    assert_eq!(error.message(), "Gemini API error (400): Bad request");
}

#[test]
fn test_convert_mcp_error_to_jsonrpc() {
    let error = McpError::InvalidInput("test".to_string());
    let jsonrpc_error = convert_mcp_error_to_jsonrpc(error);
    assert_eq!(jsonrpc_error.code, -32602);
    assert!(jsonrpc_error.message.contains("Invalid params"));

    let error = McpError::AuthenticationError("auth failed".to_string());
    let jsonrpc_error = convert_mcp_error_to_jsonrpc(error);
    assert_eq!(jsonrpc_error.code, -32001);
    assert!(jsonrpc_error.message.contains("Authentication error"));
}

#[test]
fn test_json_rpc_response_error_constructor() {
    let response = JsonRpcResponse::error(Some(JsonValue::Int(1)), -32700, "Parse error".to_string());

    assert_eq!(response.jsonrpc, "2.0");
    assert!(matches!(response.id, Some(JsonValue::Int(1))));
    assert!(response.result.is_none());
    assert!(response.error.is_some());

    let error = response.error.unwrap();
    assert_eq!(error.code, -32700);
    assert_eq!(error.message, "Parse error");
}

#[test]
fn test_every_error_kind_gets_its_code() {
    let cases: Vec<(McpError, i32)> = vec![
        (McpError::InvalidInput("a".into()), -32602),
        (McpError::AuthenticationError("a".into()), -32001),
        (McpError::ConfigurationError("a".into()), -32001),
        (McpError::RateLimitError("a".into()), -32002),
        (McpError::NetworkError("a".into()), -32003),
        (McpError::FileSystemError("a".into()), -32004),
        (McpError::GeminiApiError { code: 7, message: "a".into() }, -32005),
        (McpError::Timeout("a".into()), -32006),
        (McpError::IoError("a".into()), -1),
        (McpError::SerializationError("a".into()), -1),
        (McpError::Base64Error("a".into()), -1),
        (McpError::ContentTypeError("a".into()), -1),
    ];
    for (e, code) in cases {
        assert_eq!(convert_mcp_error_to_jsonrpc(e).code, code);
    }
}

#[test]
fn test_gemini_api_error_message_renders_code() {
    let e = McpError::GeminiApiError { code: 503, message: "overloaded".to_string() };
    let converted = convert_mcp_error_to_jsonrpc(e);
    assert_eq!(converted.message, "Gemini API error (503): overloaded");

    let negative = McpError::GeminiApiError { code: -1, message: "odd".to_string() };
    assert_eq!(convert_mcp_error_to_jsonrpc(negative).message, "Gemini API error (-1): odd");
}

#[test]
fn test_internal_error_carries_rendered_text() {
    let e = McpError::Base64Error("bad payload".to_string());
    let converted = convert_mcp_error_to_jsonrpc(e);
    assert_eq!(converted.code, -1);
    assert_eq!(converted.message, "Internal error: Base64 encoding error: bad payload");
}

#[test]
fn test_decimal_rendering() {
    assert_eq!(u64_to_string(0), "0");
    assert_eq!(u64_to_string(400), "400");
    assert_eq!(u64_to_string(18446744073709551615), "18446744073709551615");
    assert_eq!(i64_to_string(-1), "-1");
    assert_eq!(i64_to_string(i64::MIN), "-9223372036854775808");
    assert_eq!(i64_to_string(i64::MAX), "9223372036854775807");
}
