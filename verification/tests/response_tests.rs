use gemini_image_mcp::error::McpError;
use gemini_image_mcp::json::{handle_image_response, JsonValue};
use gemini_image_mcp::parts::ContentPart;
use gemini_image_mcp::response::{
    handle_text_response, GeminiCandidate, GeminiContent, GeminiErrorBody, GeminiResponse,
};

fn obj(fields: Vec<(&str, JsonValue)>) -> JsonValue {
    JsonValue::Obj(fields.into_iter().map(|(k, v)| (k.to_string(), v)).collect())
}

fn image_response(spelling: &str, data: &str) -> JsonValue {
    let part = obj(vec![(spelling, obj(vec![("data", JsonValue::Str(data.to_string()))]))]);
    obj(vec![(
        "candidates",
        JsonValue::Arr(vec![obj(vec![(
            "content",
            obj(vec![("parts", JsonValue::Arr(vec![part]))]),
        )])]),
    )])
}

#[test]
fn test_error_envelope_takes_precedence_over_success_body() {
    // An error object in a body delivered with a success status must win,
    // even when a valid candidate stands beside it.
    let mut v = image_response("inline_data", "QQ==");
    if let JsonValue::Obj(ref mut fields) = v {
        fields.push((
            "error".to_string(),
            obj(vec![
                ("code", JsonValue::Int(400)),
                ("message", JsonValue::Str("bad".to_string())),
            ]),
        ));
    }
    match handle_image_response(&v) {
        Err(McpError::GeminiApiError { code, message }) => {
            assert_eq!(code, 400);
            assert_eq!(message, "bad");
        }
        other => panic!("expected GeminiApiError, got {other:?}"),
    }
}

#[test]
fn test_error_envelope_defaults_for_missing_fields() {
    let v = obj(vec![("error", obj(vec![("code", JsonValue::Str("oops".to_string()))]))]);
    match handle_image_response(&v) {
        Err(McpError::GeminiApiError { code, message }) => {
            assert_eq!(code, 0);
            assert_eq!(message, "Unknown error");
        }
        other => panic!("expected GeminiApiError, got {other:?}"),
    }
}

#[test]
fn test_both_inline_data_spellings_extract_the_same_payload() {
    let snake = handle_image_response(&image_response("inline_data", "QQ==")).unwrap();
    let camel = handle_image_response(&image_response("inlineData", "QQ==")).unwrap();
    assert_eq!(snake, "QQ==");
    assert_eq!(camel, snake);
}

#[test]
fn test_image_extraction_failure_messages() {
    let no_candidates = obj(vec![("candidates", JsonValue::Arr(Vec::new()))]);
    match handle_image_response(&no_candidates) {
        Err(McpError::GeminiApiError { code, message }) => {
            assert_eq!(code, 0);
            assert_eq!(message, "No candidates in response");
        }
        other => panic!("unexpected {other:?}"),
    }

    let no_parts = obj(vec![(
        "candidates",
        JsonValue::Arr(vec![obj(vec![(
            "content",
            obj(vec![("parts", JsonValue::Arr(Vec::new()))]),
        )])]),
    )]);
    match handle_image_response(&no_parts) {
        Err(McpError::GeminiApiError { message, .. }) => {
            assert_eq!(message, "No parts in candidate content");
        }
        other => panic!("unexpected {other:?}"),
    }

    let no_image = obj(vec![(
        "candidates",
        JsonValue::Arr(vec![obj(vec![(
            "content",
            obj(vec![(
                "parts",
                JsonValue::Arr(vec![obj(vec![("text", JsonValue::Str("hi".to_string()))])]),
            )]),
        )])]),
    )]);
    match handle_image_response(&no_image) {
        Err(McpError::GeminiApiError { message, .. }) => {
            assert_eq!(message, "No image data found in Gemini API response");
        }
        other => panic!("unexpected {other:?}"),
    }

    let not_an_object = JsonValue::Str("weird".to_string());
    match handle_image_response(&not_an_object) {
        Err(McpError::GeminiApiError { message, .. }) => {
            assert_eq!(message, "No image data found in Gemini API response");
        }
        other => panic!("unexpected {other:?}"),
    }
}

#[test]
fn test_image_extraction_takes_first_part_with_data() {
    let part_without = obj(vec![("text", JsonValue::Str("caption".to_string()))]);
    let part_with = obj(vec![(
        "inlineData",
        obj(vec![("data", JsonValue::Str("PAYLOAD".to_string()))]),
    )]);
    let v = obj(vec![(
        "candidates",
        JsonValue::Arr(vec![obj(vec![(
            "content",
            obj(vec![("parts", JsonValue::Arr(vec![part_without, part_with]))]),
        )])]),
    )]);
    assert_eq!(handle_image_response(&v).unwrap(), "PAYLOAD");
}

fn text_response(parts: Vec<ContentPart>) -> GeminiResponse {
    GeminiResponse {
        candidates: Some(vec![GeminiCandidate { content: GeminiContent { parts } }]),
        error: None,
    }
}

#[test]
fn test_text_extraction_returns_first_nonblank_text() {
    let resp = text_response(vec![
        ContentPart::Text("   ".to_string()),
        ContentPart::InlineImage { mime_type: "image/png".to_string(), data: "X".to_string() },
        ContentPart::Text("A tabby cat".to_string()),
    ]);
    assert_eq!(handle_text_response(&resp).unwrap(), "A tabby cat");
}

#[test]
fn test_text_extraction_failures() {
    let none = GeminiResponse { candidates: None, error: None };
    match handle_text_response(&none) {
        Err(McpError::GeminiApiError { message, .. }) => {
            assert_eq!(message, "No candidates in Gemini API response");
        }
        other => panic!("unexpected {other:?}"),
    }

    let empty = GeminiResponse { candidates: Some(Vec::new()), error: None };
    match handle_text_response(&empty) {
        Err(McpError::GeminiApiError { message, .. }) => {
            assert_eq!(message, "No candidates in response");
        }
        other => panic!("unexpected {other:?}"),
    }

    let no_parts = text_response(Vec::new());
    match handle_text_response(&no_parts) {
        Err(McpError::GeminiApiError { message, .. }) => {
            assert_eq!(message, "No parts in candidate content");
        }
        other => panic!("unexpected {other:?}"),
    }

    let all_blank = text_response(vec![ContentPart::Text("  \t".to_string())]);
    match handle_text_response(&all_blank) {
        Err(McpError::GeminiApiError { message, .. }) => {
            assert_eq!(message, "No valid text found in response");
        }
        other => panic!("unexpected {other:?}"),
    }
}

#[test]
fn test_text_error_body_takes_precedence() {
    let mut resp = text_response(vec![ContentPart::Text("fine".to_string())]);
    resp.error = Some(GeminiErrorBody { code: 429, message: "slow down".to_string() });
    match handle_text_response(&resp) {
        Err(McpError::GeminiApiError { code, message }) => {
            assert_eq!(code, 429);
            assert_eq!(message, "slow down");
        }
        other => panic!("unexpected {other:?}"),
    }
}
