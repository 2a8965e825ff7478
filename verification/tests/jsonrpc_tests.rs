use gemini_image_mcp::json::JsonValue;
use gemini_image_mcp::jsonrpc::{
    initialize_response, invalid_arguments_error, invalid_params_response,
    method_not_found_response, missing_arguments_error, missing_credential_error,
    missing_tool_name_response, parse_tool_name, route_method, success_message,
    tool_descriptors, tool_success_response, JsonRpcHandler, MethodKind, ToolKind,
    unknown_tool_response,
};

#[test]
fn test_route_method() {
    assert_eq!(route_method("initialize"), MethodKind::Initialize);
    assert_eq!(route_method("tools/list"), MethodKind::ToolsList);
    assert_eq!(route_method("tools/call"), MethodKind::ToolsCall);
    assert_eq!(route_method("unknown/method"), MethodKind::Unknown);
}

#[test]
fn test_handle_unknown_method() {
    let response = method_not_found_response(Some(JsonValue::Int(1)));
    assert_eq!(response.jsonrpc, "2.0");
    assert!(response.result.is_none());
    let error = response.error.unwrap();
    assert_eq!(error.code, -32601);
    assert_eq!(error.message, "Method not found");
}

#[test]
fn test_parse_tool_name() {
    assert_eq!(parse_tool_name("analyze_image"), Some(ToolKind::Analyze));
    assert_eq!(parse_tool_name("generate_image"), Some(ToolKind::Generate));
    assert_eq!(parse_tool_name("edit_image"), Some(ToolKind::Edit));
    assert_eq!(parse_tool_name("inpaint_image"), Some(ToolKind::Inpaint));
    assert_eq!(parse_tool_name("style_transfer"), Some(ToolKind::StyleTransfer));
    assert_eq!(parse_tool_name("compose_images"), Some(ToolKind::Compose));
    assert_eq!(parse_tool_name("refine_image"), Some(ToolKind::Refine));
    assert_eq!(parse_tool_name("unknown_tool"), None);
}

#[test]
fn test_unconfigured_handler_gates_every_tool_call() {
    let handler = JsonRpcHandler::new(None);
    assert!(!handler.is_configured());
    let response = handler.tool_call_precheck(Some(JsonValue::Int(1))).unwrap();
    assert_eq!(response.jsonrpc, "2.0");
    assert!(response.result.is_none());
    let error = response.error.unwrap();
    assert_eq!(error.code, -32001);
    assert!(error.message.contains("Configuration error"));
}

#[test]
fn test_blank_key_leaves_handler_unconfigured() {
    let handler = JsonRpcHandler::new(Some("   ".to_string()));
    assert!(!handler.is_configured());
    assert!(handler.credential().is_none());

    let handler = JsonRpcHandler::new(Some("test-api-key".to_string()));
    assert!(handler.is_configured());
    assert_eq!(handler.credential().unwrap(), "test-api-key");
    assert!(handler.tool_call_precheck(None).is_none());
}

#[test]
fn test_missing_credential_error_shape() {
    let e = missing_credential_error();
    assert_eq!(e.code, -32001);
    assert_eq!(e.message, "Configuration error: GEMINI_API_KEY environment variable not set");
}

#[test]
fn test_argument_errors() {
    let e = missing_arguments_error();
    assert_eq!(e.code, -32602);
    assert_eq!(e.message, "Invalid params: Missing arguments");

    let e = invalid_arguments_error("missing field `user_prompt`");
    assert_eq!(e.code, -32602);
    assert_eq!(e.message, "Invalid params: Invalid arguments: missing field `user_prompt`");
}

#[test]
fn test_handle_edit_image_unknown_tool() {
    let response = unknown_tool_response(Some(JsonValue::Int(1)), "unknown_tool");
    assert_eq!(response.jsonrpc, "2.0");
    assert!(response.result.is_none());
    let error = response.error.unwrap();
    assert_eq!(error.code, -1);
    assert!(error.message.contains("Unknown tool"));
    assert_eq!(error.message, "Unknown tool: unknown_tool");
}

#[test]
fn test_fallback_param_responses() {
    let r = missing_tool_name_response(None);
    assert_eq!(r.error.unwrap().message, "Missing tool name");
    let r = invalid_params_response(None);
    assert_eq!(r.error.unwrap().message, "Invalid params");
}

fn get<'a>(v: &'a JsonValue, key: &str) -> &'a JsonValue {
    v.get(key).unwrap_or_else(|| panic!("missing key {key}"))
}

#[test]
fn test_handle_initialize() {
    let response = initialize_response(Some(JsonValue::Int(1)));
    assert_eq!(response.jsonrpc, "2.0");
    assert!(response.error.is_none());
    let result = response.result.unwrap();
    match get(&result, "protocolVersion") {
        JsonValue::Str(v) => assert_eq!(v, "2024-11-05"),
        other => panic!("unexpected {other:?}"),
    }
    let server_info = get(&result, "serverInfo");
    match get(server_info, "name") {
        JsonValue::Str(v) => assert_eq!(v, "gemini-image-mcp"),
        other => panic!("unexpected {other:?}"),
    }
    match get(server_info, "version") {
        JsonValue::Str(v) => assert_eq!(v, "1.1.0"),
        other => panic!("unexpected {other:?}"),
    }
    assert!(result.get("capabilities").is_some());
}

#[test]
fn test_handle_tools_list() {
    let tools = tool_descriptors();
    assert_eq!(tools.len(), 7);
    assert_eq!(tools[0].0, "analyze_image");
    assert!(tools[0].1.contains("Gemini API"));
    assert_eq!(tools[1].0, "generate_image");
    assert!(tools[1].1.contains("Generate an image"));
    assert_eq!(tools[2].0, "edit_image");
    assert!(tools[2].1.contains("Edit an existing image"));
    assert_eq!(tools[3].0, "inpaint_image");
    assert!(tools[3].1.contains("Inpaint/modify specific regions"));
    assert_eq!(tools[4].0, "style_transfer");
    assert!(tools[4].1.contains("Transfer the artistic style"));
    assert_eq!(tools[5].0, "compose_images");
    assert!(tools[5].1.contains("Compose multiple images"));
    assert_eq!(tools[6].0, "refine_image");
    assert!(tools[6].1.contains("Iteratively refine an image"));
}

#[test]
fn test_success_messages() {
    let path = "./out.png".to_string();
    assert_eq!(
        success_message(ToolKind::Generate, &path),
        "Image successfully generated and saved to: ./out.png"
    );
    assert_eq!(
        success_message(ToolKind::Edit, &path),
        "Image successfully edited and saved to: ./out.png"
    );
    assert_eq!(
        success_message(ToolKind::Inpaint, &path),
        "Image successfully inpainted and saved to: ./out.png"
    );
    assert_eq!(
        success_message(ToolKind::StyleTransfer, &path),
        "Style transfer completed and saved to: ./out.png"
    );
    assert_eq!(
        success_message(ToolKind::Compose, &path),
        "Images successfully composed and saved to: ./out.png"
    );
    assert_eq!(
        success_message(ToolKind::Refine, &path),
        "Image successfully refined and saved to: ./out.png"
    );
}

#[test]
fn test_tool_success_response_shape() {
    let r = tool_success_response(
        Some(JsonValue::Int(7)),
        "done".to_string(),
        Some("./out.png".to_string()),
    );
    assert_eq!(r.jsonrpc, "2.0");
    assert!(r.error.is_none());
    let result = r.result.unwrap();
    match get(&result, "content") {
        JsonValue::Arr(items) => {
            assert_eq!(items.len(), 1);
            match get(&items[0], "type") {
                JsonValue::Str(t) => assert_eq!(t, "text"),
                other => panic!("unexpected {other:?}"),
            }
            match get(&items[0], "text") {
                JsonValue::Str(t) => assert_eq!(t, "done"),
                other => panic!("unexpected {other:?}"),
            }
        }
        other => panic!("unexpected {other:?}"),
    }
    match get(&result, "file_path") {
        JsonValue::Str(p) => assert_eq!(p, "./out.png"),
        other => panic!("unexpected {other:?}"),
    }

    let text_only = tool_success_response(None, "analysis".to_string(), None);
    let result = text_only.result.unwrap();
    assert!(result.get("file_path").is_none());
}
