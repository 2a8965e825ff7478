//! The JSON-RPC layer's decisions: routing a method name, naming a tool,
//! the credential gate every tool call passes first, the mapping of every
//! library error to its stable numbered JSON-RPC error, and the fixed
//! response envelopes. The line-by-line transport around these decisions
//! stays outside the library.

use vstd::prelude::*;
use vstd::string::*;

use crate::error::{error_text, McpError};
use crate::json::{json_get, obj_lookup, JsonValue};
use crate::text::{dec_int, i64_to_string, is_blank, str_eq, str_is_blank};

verus! {

pub struct JsonRpcRequest {
    pub jsonrpc: String,
    pub id: Option<JsonValue>,
    pub method: String,
    pub params: Option<JsonValue>,
}

pub struct JsonRpcError {
    pub code: i32,
    pub message: String,
}

pub struct JsonRpcResponse {
    pub jsonrpc: String,
    pub id: Option<JsonValue>,
    pub result: Option<JsonValue>,
    pub error: Option<JsonRpcError>,
}

impl JsonRpcResponse {
    /// The error envelope: version "2.0", the caller's id, no result, and
    /// the given numbered error.
    pub fn error(id: Option<JsonValue>, code: i32, message: String) -> (r: Self)
        ensures
            r.jsonrpc@ == "2.0"@,
            r.id == id,
            r.result is None,
            r.error matches Some(e) && e.code == code && e.message == message,
    {
        JsonRpcResponse {
            jsonrpc: "2.0".to_owned(),
            id,
            result: None,
            error: Some(JsonRpcError { code, message }),
        }
    }

    /// The success envelope: version "2.0", the caller's id, the given
    /// result, and no error.
    pub fn success(id: Option<JsonValue>, result: JsonValue) -> (r: Self)
        ensures
            r.jsonrpc@ == "2.0"@,
            r.id == id,
            r.result == Some(result),
            r.error is None,
    {
        JsonRpcResponse { jsonrpc: "2.0".to_owned(), id, result: Some(result), error: None }
    }
}

/// The stable JSON-RPC code of each library error.
pub open spec fn jsonrpc_code(e: McpError) -> int {
    match e {
        McpError::InvalidInput(_) => -32602,
        McpError::AuthenticationError(_) => -32001,
        McpError::ConfigurationError(_) => -32001,
        McpError::RateLimitError(_) => -32002,
        McpError::NetworkError(_) => -32003,
        McpError::FileSystemError(_) => -32004,
        McpError::GeminiApiError { .. } => -32005,
        McpError::Timeout(_) => -32006,
        _ => -1,
    }
}

/// The JSON-RPC message of each library error. Network details are not
/// echoed to callers; rarer kinds are folded into a generic internal error
/// carrying their rendered text.
pub open spec fn jsonrpc_message(e: McpError) -> Seq<char> {
    match e {
        McpError::InvalidInput(m) => "Invalid params: "@ + m@,
        McpError::AuthenticationError(m) => "Authentication error: "@ + m@,
        McpError::ConfigurationError(m) => "Configuration error: "@ + m@,
        McpError::RateLimitError(m) => "Rate limit exceeded: "@ + m@,
        McpError::NetworkError(_) => "Network error occurred"@,
        McpError::FileSystemError(m) => "File system error: "@ + m@,
        McpError::GeminiApiError { code, message } => "Gemini API error ("@ + dec_int(code as int)
            + "): "@ + message@,
        McpError::Timeout(m) => "Timeout: "@ + m@,
        _ => "Internal error: "@ + error_text(e),
    }
}

/// Maps a library error to its numbered JSON-RPC error, code and message
/// exactly as `jsonrpc_code` and `jsonrpc_message` give them.
pub fn convert_mcp_error_to_jsonrpc(error: McpError) -> (r: JsonRpcError)
    ensures
        r.code as int == jsonrpc_code(error),
        r.message@ == jsonrpc_message(error),
{
    match &error {
        McpError::InvalidInput(m) => JsonRpcError {
            code: -32602,
            message: String::from_str("Invalid params: ").concat(m.as_str()),
        },
        McpError::AuthenticationError(m) => JsonRpcError {
            code: -32001,
            message: String::from_str("Authentication error: ").concat(m.as_str()),
        },
        McpError::ConfigurationError(m) => JsonRpcError {
            code: -32001,
            message: String::from_str("Configuration error: ").concat(m.as_str()),
        },
        McpError::RateLimitError(m) => JsonRpcError {
            code: -32002,
            message: String::from_str("Rate limit exceeded: ").concat(m.as_str()),
        },
        McpError::NetworkError(_) => JsonRpcError {
            code: -32003,
            message: "Network error occurred".to_owned(),
        },
        McpError::FileSystemError(m) => JsonRpcError {
            code: -32004,
            message: String::from_str("File system error: ").concat(m.as_str()),
        },
        McpError::GeminiApiError { code, message } => {
            let digits: String = i64_to_string(*code);
            JsonRpcError {
                code: -32005,
                message: String::from_str("Gemini API error (").concat(digits.as_str()).concat(
                    "): ",
                ).concat(message.as_str()),
            }
        },
        McpError::Timeout(m) => JsonRpcError {
            code: -32006,
            message: String::from_str("Timeout: ").concat(m.as_str()),
        },
        _ => {
            let rendered: String = error.message();
            JsonRpcError {
                code: -1,
                message: String::from_str("Internal error: ").concat(rendered.as_str()),
            }
        },
    }
}

/// The error response for a failed tool call, numbered by the error's kind.
pub fn tool_error_response(id: Option<JsonValue>, error: McpError) -> (r: JsonRpcResponse)
    ensures
        r.jsonrpc@ == "2.0"@,
        r.id == id,
        r.result is None,
        r.error matches Some(e) && e.code as int == jsonrpc_code(error) && e.message@
            == jsonrpc_message(error),
{
    let converted: JsonRpcError = convert_mcp_error_to_jsonrpc(error);
    JsonRpcResponse { jsonrpc: "2.0".to_owned(), id, result: None, error: Some(converted) }
}

#[derive(Debug, PartialEq, Eq, Structural)]
pub enum MethodKind {
    Initialize,
    ToolsList,
    ToolsCall,
    Unknown,
}

pub open spec fn method_kind(method: Seq<char>) -> MethodKind {
    if method == "initialize"@ {
        MethodKind::Initialize
    } else if method == "tools/list"@ {
        MethodKind::ToolsList
    } else if method == "tools/call"@ {
        MethodKind::ToolsCall
    } else {
        MethodKind::Unknown
    }
}

/// Routes a request's method name; anything but the three known methods is
/// answered with a method-not-found error.
pub fn route_method(method: &str) -> (r: MethodKind)
    ensures
        r == method_kind(method@),
{
    if str_eq(method, "initialize") {
        MethodKind::Initialize
    } else if str_eq(method, "tools/list") {
        MethodKind::ToolsList
    } else if str_eq(method, "tools/call") {
        MethodKind::ToolsCall
    } else {
        MethodKind::Unknown
    }
}

#[derive(Debug, PartialEq, Eq, Structural, Clone, Copy)]
pub enum ToolKind {
    Analyze,
    Generate,
    Edit,
    Inpaint,
    StyleTransfer,
    Compose,
    Refine,
}

pub open spec fn tool_kind(name: Seq<char>) -> Option<ToolKind> {
    if name == "analyze_image"@ {
        Some(ToolKind::Analyze)
    } else if name == "generate_image"@ {
        Some(ToolKind::Generate)
    } else if name == "edit_image"@ {
        Some(ToolKind::Edit)
    } else if name == "inpaint_image"@ {
        Some(ToolKind::Inpaint)
    } else if name == "style_transfer"@ {
        Some(ToolKind::StyleTransfer)
    } else if name == "compose_images"@ {
        Some(ToolKind::Compose)
    } else if name == "refine_image"@ {
        Some(ToolKind::Refine)
    } else {
        None
    }
}

/// Names the tool a call addresses, or `None` for an unknown tool.
pub fn parse_tool_name(name: &str) -> (r: Option<ToolKind>)
    ensures
        r == tool_kind(name@),
{
    if str_eq(name, "analyze_image") {
        Some(ToolKind::Analyze)
    } else if str_eq(name, "generate_image") {
        Some(ToolKind::Generate)
    } else if str_eq(name, "edit_image") {
        Some(ToolKind::Edit)
    } else if str_eq(name, "inpaint_image") {
        Some(ToolKind::Inpaint)
    } else if str_eq(name, "style_transfer") {
        Some(ToolKind::StyleTransfer)
    } else if str_eq(name, "compose_images") {
        Some(ToolKind::Compose)
    } else if str_eq(name, "refine_image") {
        Some(ToolKind::Refine)
    } else {
        None
    }
}

/// The response to an unknown method: code -32601.
pub fn method_not_found_response(id: Option<JsonValue>) -> (r: JsonRpcResponse)
    ensures
        r.jsonrpc@ == "2.0"@,
        r.id == id,
        r.result is None,
        r.error matches Some(e) && e.code == -32601 && e.message@ == "Method not found"@,
{
    JsonRpcResponse::error(id, -32601, "Method not found".to_owned())
}

/// The response to a call naming a tool this server does not expose.
pub fn unknown_tool_response(id: Option<JsonValue>, name: &str) -> (r: JsonRpcResponse)
    ensures
        r.jsonrpc@ == "2.0"@,
        r.id == id,
        r.result is None,
        r.error matches Some(e) && e.code == -1 && e.message@ == "Unknown tool: "@ + name@,
{
    JsonRpcResponse::error(id, -1, String::from_str("Unknown tool: ").concat(name))
}

/// The response to a tool call whose params carry no tool name.
pub fn missing_tool_name_response(id: Option<JsonValue>) -> (r: JsonRpcResponse)
    ensures
        r.jsonrpc@ == "2.0"@,
        r.id == id,
        r.result is None,
        r.error matches Some(e) && e.code == -1 && e.message@ == "Missing tool name"@,
{
    JsonRpcResponse::error(id, -1, "Missing tool name".to_owned())
}

/// The response to a tool call with unusable params.
pub fn invalid_params_response(id: Option<JsonValue>) -> (r: JsonRpcResponse)
    ensures
        r.jsonrpc@ == "2.0"@,
        r.id == id,
        r.result is None,
        r.error matches Some(e) && e.code == -1 && e.message@ == "Invalid params"@,
{
    JsonRpcResponse::error(id, -1, "Invalid params".to_owned())
}

/// The error for a tool call that carries no arguments object.
pub fn missing_arguments_error() -> (r: JsonRpcError)
    ensures
        r.code == -32602,
        r.message@ == "Invalid params: Missing arguments"@,
{
    let r: JsonRpcError = convert_mcp_error_to_jsonrpc(
        McpError::InvalidInput("Missing arguments".to_owned()),
    );
    proof {
        reveal_strlit("Invalid params: ");
        reveal_strlit("Missing arguments");
        reveal_strlit("Invalid params: Missing arguments");
        assert(r.message@ =~= "Invalid params: Missing arguments"@);
    }
    r
}

/// The error for a tool call whose arguments do not fit the tool's input,
/// carrying the decoder's own account of the mismatch.
pub fn invalid_arguments_error(detail: &str) -> (r: JsonRpcError)
    ensures
        r.code == -32602,
        r.message@ == "Invalid params: Invalid arguments: "@ + detail@,
{
    let r: JsonRpcError = convert_mcp_error_to_jsonrpc(
        McpError::InvalidInput(String::from_str("Invalid arguments: ").concat(detail)),
    );
    proof {
        reveal_strlit("Invalid params: ");
        reveal_strlit("Invalid arguments: ");
        reveal_strlit("Invalid params: Invalid arguments: ");
        assert(r.message@ =~= "Invalid params: Invalid arguments: "@ + detail@);
    }
    r
}

/// The error every tool call is answered with while no credential is
/// configured: code -32001, a configuration error.
pub fn missing_credential_error() -> (r: JsonRpcError)
    ensures
        r.code == -32001,
        r.message@ == "Configuration error: GEMINI_API_KEY environment variable not set"@,
{
    let r: JsonRpcError = convert_mcp_error_to_jsonrpc(
        McpError::ConfigurationError("GEMINI_API_KEY environment variable not set".to_owned()),
    );
    proof {
        reveal_strlit("Configuration error: ");
        reveal_strlit("GEMINI_API_KEY environment variable not set");
        reveal_strlit("Configuration error: GEMINI_API_KEY environment variable not set");
        assert(r.message@ =~= "Configuration error: GEMINI_API_KEY environment variable not set"@);
    }
    r
}

/// The request handler's state: the one credential, fixed at startup and
/// read-only afterwards. A blank or absent key leaves the handler
/// unconfigured rather than failing: listing tools still works, and every
/// tool call is answered with a configuration error.
pub struct JsonRpcHandler {
    api_key: Option<String>,
}

impl JsonRpcHandler {
    /// Whether a usable credential is configured.
    pub closed spec fn configured(&self) -> bool {
        self.api_key is Some
    }

    /// Keeps the key when one is given and not blank; anything else leaves
    /// the handler unconfigured.
    pub fn new(api_key: Option<String>) -> (r: JsonRpcHandler)
        ensures
            r.configured() <==> (api_key matches Some(k) && !is_blank(k@)),
    {
        match api_key {
            Some(k) => {
                if !str_is_blank(k.as_str()) {
                    JsonRpcHandler { api_key: Some(k) }
                } else {
                    JsonRpcHandler { api_key: None }
                }
            },
            None => JsonRpcHandler { api_key: None },
        }
    }

    pub fn is_configured(&self) -> (r: bool)
        ensures
            r == self.configured(),
    {
        match &self.api_key {
            Some(_) => true,
            None => false,
        }
    }

    /// The configured credential, present exactly when the handler is
    /// configured.
    pub fn credential(&self) -> (r: Option<&String>)
        ensures
            r is Some <==> self.configured(),
    {
        match &self.api_key {
            Some(k) => Some(k),
            None => None,
        }
    }

    /// The first check of every tool call: while no credential is
    /// configured it yields the configuration-error response, so no
    /// validation, transfer or upstream call is ever attempted.
    pub fn tool_call_precheck(&self, id: Option<JsonValue>) -> (r: Option<JsonRpcResponse>)
        ensures
            r is None <==> self.configured(),
            r matches Some(resp) ==> resp.jsonrpc@ == "2.0"@ && resp.id == id && resp.result
                is None && (resp.error matches Some(e) && e.code == -32001 && e.message@
                == "Configuration error: GEMINI_API_KEY environment variable not set"@),
    {
        if self.is_configured() {
            None
        } else {
            let gate: JsonRpcError = missing_credential_error();
            Some(
                JsonRpcResponse { jsonrpc: "2.0".to_owned(), id, result: None, error: Some(gate) },
            )
        }
    }
}


/// The fixed result of `initialize`: the protocol version, the tools
/// capability, and the server's name and version.
pub fn initialize_response(id: Option<JsonValue>) -> (r: JsonRpcResponse)
    ensures
        r.jsonrpc@ == "2.0"@,
        r.id == id,
        r.error is None,
        r.result matches Some(res) && ({
            &&& json_get(res, "protocolVersion"@) matches Some(pv) && (pv matches JsonValue::Str(
                v,
            ) && v@ == "2024-11-05"@)
            &&& json_get(res, "capabilities"@) matches Some(caps) && json_get(caps, "tools"@)
                is Some
            &&& json_get(res, "serverInfo"@) matches Some(si) && ({
                &&& json_get(si, "name"@) matches Some(nv) && (nv matches JsonValue::Str(n) && n@
                    == "gemini-image-mcp"@)
                &&& json_get(si, "version"@) matches Some(vv) && (vv matches JsonValue::Str(sv)
                    && sv@ == "1.1.0"@)
            })
        }),
{
    let mut si_fields: Vec<(String, JsonValue)> = Vec::new();
    si_fields.push(("name".to_owned(), JsonValue::Str("gemini-image-mcp".to_owned())));
    si_fields.push(("version".to_owned(), JsonValue::Str("1.1.0".to_owned())));
    let server_info: JsonValue = JsonValue::Obj(si_fields);
    let mut cap_fields: Vec<(String, JsonValue)> = Vec::new();
    cap_fields.push(("tools".to_owned(), JsonValue::Obj(Vec::new())));
    let capabilities: JsonValue = JsonValue::Obj(cap_fields);
    let mut res_fields: Vec<(String, JsonValue)> = Vec::new();
    res_fields.push(("protocolVersion".to_owned(), JsonValue::Str("2024-11-05".to_owned())));
    res_fields.push(("capabilities".to_owned(), capabilities));
    res_fields.push(("serverInfo".to_owned(), server_info));
    let res: JsonValue = JsonValue::Obj(res_fields);
    proof {
        reveal_strlit("protocolVersion");
        reveal_strlit("capabilities");
        reveal_strlit("serverInfo");
        reveal_strlit("name");
        reveal_strlit("version");
        reveal_strlit("tools");
        assert("protocolVersion"@.len() != "capabilities"@.len());
        assert("protocolVersion"@.len() != "serverInfo"@.len());
        assert("capabilities"@.len() != "serverInfo"@.len());
        assert("name"@.len() != "version"@.len());
        assert(res_fields@.drop_first()[0] == res_fields@[1]);
        assert(res_fields@.drop_first().drop_first()[0] == res_fields@[2]);
        assert(json_get(res, "capabilities"@) == obj_lookup(res_fields@.drop_first(), "capabilities"@));
        assert(json_get(res, "serverInfo"@) == obj_lookup(res_fields@.drop_first(), "serverInfo"@));
        assert(obj_lookup(res_fields@.drop_first(), "serverInfo"@) == obj_lookup(
            res_fields@.drop_first().drop_first(),
            "serverInfo"@,
        ));
        assert(si_fields@.drop_first()[0] == si_fields@[1]);
        assert(json_get(server_info, "version"@) == obj_lookup(si_fields@.drop_first(), "version"@));
    }
    JsonRpcResponse::success(id, res)
}

/// The name and description of each exposed tool, in the order the tool
/// list presents them. The input schema of each is derived from the tool's
/// input type by the surrounding binary.
pub fn tool_descriptors() -> (r: Vec<(String, String)>)
    ensures
        r@.len() == 7,
        r@[0].0@ == "analyze_image"@,
        r@[0].1@
            == "Analyze an image using Google's Gemini API. Supports both URLs (http/https) and local file paths."@,
        r@[1].0@ == "generate_image"@,
        r@[1].1@
            == "Generate an image using Google's Gemini API with optional system prompt and required user prompt."@,
        r@[2].0@ == "edit_image"@,
        r@[2].1@
            == "Edit an existing image using Google's Gemini API by providing both an input image and a text prompt describing the desired changes."@,
        r@[3].0@ == "inpaint_image"@,
        r@[3].1@
            == "Inpaint/modify specific regions of an image using semantic masking. Supports focusing on specific elements or regions."@,
        r@[4].0@ == "style_transfer"@,
        r@[4].1@ == "Transfer the artistic style from one image to another using Google's Gemini API."@,
        r@[5].0@ == "compose_images"@,
        r@[5].1@ == "Compose multiple images into a single new image using Google's Gemini API."@,
        r@[6].0@ == "refine_image"@,
        r@[6].1@
            == "Iteratively refine an image with conversation history for progressive improvement using Google's Gemini API."@,
{
    let mut tools: Vec<(String, String)> = Vec::new();
    tools.push(
        (
            "analyze_image".to_owned(),
            "Analyze an image using Google's Gemini API. Supports both URLs (http/https) and local file paths.".to_owned(),
        ),
    );
    tools.push(
        (
            "generate_image".to_owned(),
            "Generate an image using Google's Gemini API with optional system prompt and required user prompt.".to_owned(),
        ),
    );
    tools.push(
        (
            "edit_image".to_owned(),
            "Edit an existing image using Google's Gemini API by providing both an input image and a text prompt describing the desired changes.".to_owned(),
        ),
    );
    tools.push(
        (
            "inpaint_image".to_owned(),
            "Inpaint/modify specific regions of an image using semantic masking. Supports focusing on specific elements or regions.".to_owned(),
        ),
    );
    tools.push(
        (
            "style_transfer".to_owned(),
            "Transfer the artistic style from one image to another using Google's Gemini API.".to_owned(),
        ),
    );
    tools.push(
        (
            "compose_images".to_owned(),
            "Compose multiple images into a single new image using Google's Gemini API.".to_owned(),
        ),
    );
    tools.push(
        (
            "refine_image".to_owned(),
            "Iteratively refine an image with conversation history for progressive improvement using Google's Gemini API.".to_owned(),
        ),
    );
    tools
}

/// The success line an image-returning tool reports, naming the saved file.
pub open spec fn success_text(tool: ToolKind, path: Seq<char>) -> Seq<char> {
    match tool {
        ToolKind::Generate => "Image successfully generated and saved to: "@ + path,
        ToolKind::Edit => "Image successfully edited and saved to: "@ + path,
        ToolKind::Inpaint => "Image successfully inpainted and saved to: "@ + path,
        ToolKind::StyleTransfer => "Style transfer completed and saved to: "@ + path,
        ToolKind::Compose => "Images successfully composed and saved to: "@ + path,
        ToolKind::Refine => "Image successfully refined and saved to: "@ + path,
        ToolKind::Analyze => path,
    }
}

/// Renders the success line of an image-returning tool; the analyze tool
/// reports its answer text directly and has no saved file to name.
pub fn success_message(tool: ToolKind, file_path: &String) -> (r: String)
    requires
        !(tool is Analyze),
    ensures
        r@ == success_text(tool, file_path@),
{
    match tool {
        ToolKind::Generate => String::from_str("Image successfully generated and saved to: ")
            .concat(file_path.as_str()),
        ToolKind::Edit => String::from_str("Image successfully edited and saved to: ").concat(
            file_path.as_str(),
        ),
        ToolKind::Inpaint => String::from_str("Image successfully inpainted and saved to: ")
            .concat(file_path.as_str()),
        ToolKind::StyleTransfer => String::from_str("Style transfer completed and saved to: ")
            .concat(file_path.as_str()),
        ToolKind::Compose => String::from_str("Images successfully composed and saved to: ")
            .concat(file_path.as_str()),
        _ => String::from_str("Image successfully refined and saved to: ").concat(
            file_path.as_str(),
        ),
    }
}

/// The result envelope of a successful tool call: one text content item
/// carrying the message, and the saved file's path beside it when the tool
/// produced a file.
pub fn tool_success_response(id: Option<JsonValue>, text: String, file_path: Option<String>) -> (r:
    JsonRpcResponse)
    ensures
        r.jsonrpc@ == "2.0"@,
        r.id == id,
        r.error is None,
        r.result matches Some(res) && ({
            &&& json_get(res, "content"@) matches Some(c) && (c matches JsonValue::Arr(items)
                && items@.len() == 1 && ({
                &&& json_get(items@[0], "type"@) matches Some(tv) && (tv matches JsonValue::Str(
                    ty,
                ) && ty@ == "text"@)
                &&& json_get(items@[0], "text"@) matches Some(xv) && (xv matches JsonValue::Str(
                    tx,
                ) && tx == text)
            }))
            &&& match file_path {
                Some(p) => json_get(res, "file_path"@) matches Some(fv) && (fv
                    matches JsonValue::Str(fp) && fp == p),
                None => json_get(res, "file_path"@) is None,
            }
        }),
{
    let mut item_fields: Vec<(String, JsonValue)> = Vec::new();
    item_fields.push(("type".to_owned(), JsonValue::Str("text".to_owned())));
    item_fields.push(("text".to_owned(), JsonValue::Str(text)));
    let item: JsonValue = JsonValue::Obj(item_fields);
    let mut content_items: Vec<JsonValue> = Vec::new();
    content_items.push(item);
    let mut res_fields: Vec<(String, JsonValue)> = Vec::new();
    res_fields.push(("content".to_owned(), JsonValue::Arr(content_items)));
    match file_path {
        Some(p) => res_fields.push(("file_path".to_owned(), JsonValue::Str(p))),
        None => {},
    }
    let res: JsonValue = JsonValue::Obj(res_fields);
    proof {
        reveal_strlit("content");
        reveal_strlit("file_path");
        reveal_strlit("type");
        reveal_strlit("text");
        assert("type"@[2] != "text"@[2]);
        assert("type"@ != "text"@);
        assert("content"@.len() != "file_path"@.len());
        assert(item_fields@.drop_first()[0] == item_fields@[1]);
        assert(json_get(item, "text"@) == obj_lookup(item_fields@.drop_first(), "text"@));
        if res_fields@.len() == 2 {
            assert(res_fields@.drop_first()[0] == res_fields@[1]);
            assert(json_get(res, "file_path"@) == obj_lookup(
                res_fields@.drop_first(),
                "file_path"@,
            ));
        } else {
            assert(json_get(res, "file_path"@) == obj_lookup(
                res_fields@.drop_first(),
                "file_path"@,
            ));
            assert(res_fields@.drop_first().len() == 0);
        }
    }
    JsonRpcResponse::success(id, res)
}

} // verus!
