//! A plain JSON tree the library owns, and the recovery of an inline image
//! payload out of a loosely-typed response on it. The upstream API is
//! observed to vary the casing of the inline-data field, so the probe
//! tolerates both spellings, and a reported error object takes precedence
//! over any payload, whatever the transport said.

use vstd::prelude::*;
use vstd::string::*;

use crate::error::{McpError, McpResult};
use crate::text::str_eq;

verus! {

/// A parsed JSON value. Numbers that have no 64-bit integer value are kept
/// only as `Num`: the logic here reads integers and strings alone. Object
/// members keep their order; a lookup takes the first member with the key.
#[derive(Debug)]
pub enum JsonValue {
    Null,
    Bool(bool),
    Int(i64),
    Num,
    Str(String),
    Arr(Vec<JsonValue>),
    Obj(Vec<(String, JsonValue)>),
}

/// The first member of the field list bearing the key, if any.
pub open spec fn obj_lookup(fields: Seq<(String, JsonValue)>, key: Seq<char>) -> Option<JsonValue>
    decreases fields.len(),
{
    if fields.len() == 0 {
        None
    } else if fields[0].0@ == key {
        Some(fields[0].1)
    } else {
        obj_lookup(fields.drop_first(), key)
    }
}

/// Field lookup on a JSON value: defined on objects, `None` elsewhere.
pub open spec fn json_get(v: JsonValue, key: Seq<char>) -> Option<JsonValue> {
    match v {
        JsonValue::Obj(fields) => obj_lookup(fields@, key),
        _ => None,
    }
}

proof fn lemma_obj_lookup_skip(fields: Seq<(String, JsonValue)>, key: Seq<char>, i: int)
    requires
        0 <= i <= fields.len(),
        forall|j: int| 0 <= j < i ==> #[trigger] fields[j].0@ != key,
    ensures
        obj_lookup(fields, key) == obj_lookup(fields.skip(i), key),
    decreases i,
{
    if i > 0 {
        lemma_obj_lookup_skip(fields.drop_first(), key, i - 1);
        assert(fields.drop_first().skip(i - 1) =~= fields.skip(i));
        assert(fields.skip(0) =~= fields);
    } else {
        assert(fields.skip(0) =~= fields);
    }
}

impl JsonValue {
    /// Looks a key up on an object; `None` on any other kind of value.
    #[verifier::loop_isolation(false)]
    pub fn get<'a>(&'a self, key: &str) -> (r: Option<&'a JsonValue>)
        ensures
            match r {
                Some(v) => json_get(*self, key@) == Some(*v),
                None => json_get(*self, key@) is None,
            },
    {
        match self {
            JsonValue::Obj(fields) => {
                let n: usize = fields.len();
                let mut i: usize = 0;
                while i < n
                    invariant
                        i <= n,
                        n == fields@.len(),
                        forall|j: int| 0 <= j < i ==> #[trigger] fields@[j].0@ != key@,
                    decreases n - i,
                {
                    let pair: &(String, JsonValue) = &fields[i];
                    if str_eq(pair.0.as_str(), key) {
                        proof {
                            lemma_obj_lookup_skip(fields@, key@, i as int);
                            assert(fields@.skip(i as int)[0] == fields@[i as int]);
                            assert(fields@[i as int].0@ == key@);
                            assert(fields@.skip(i as int).len() > 0);
                            assert(obj_lookup(fields@.skip(i as int), key@) == Some(
                                fields@[i as int].1,
                            ));
                        }
                        return Some(&pair.1);
                    }
                    i = i + 1;
                }
                proof {
                    lemma_obj_lookup_skip(fields@, key@, n as int);
                    assert(fields@.skip(n as int).len() == 0);
                }
                None
            },
            _ => None,
        }
    }
}

/// The inline-data member of a response part, probing the snake_case
/// spelling first and the camelCase spelling second, as the upstream
/// schema uses either.
pub open spec fn part_inline_data(part: JsonValue) -> Option<JsonValue> {
    match json_get(part, "inline_data"@) {
        Some(d) => Some(d),
        None => json_get(part, "inlineData"@),
    }
}

/// The base64 text a response part carries, under either spelling of the
/// inline-data member; `None` when the part carries no string payload.
pub open spec fn part_image_data(part: JsonValue) -> Option<Seq<char>> {
    match part_inline_data(part) {
        Some(inline) => match json_get(inline, "data"@) {
            Some(d) => match d {
                JsonValue::Str(s) => Some(s@),
                _ => None,
            },
            _ => None,
        },
        None => None,
    }
}

/// The payload of the first part that carries one.
pub open spec fn first_image_data(parts: Seq<JsonValue>) -> Option<Seq<char>>
    decreases parts.len(),
{
    if parts.len() == 0 {
        None
    } else if part_image_data(parts[0]) is Some {
        part_image_data(parts[0])
    } else {
        first_image_data(parts.drop_first())
    }
}

/// What walking a response for an image payload yields: the payload of the
/// first part carrying one, or the message describing which level of the
/// walk gave out.
pub open spec fn image_extraction(v: JsonValue) -> Result<Seq<char>, Seq<char>> {
    match json_get(v, "candidates"@) {
        Some(c) => match c {
            JsonValue::Arr(cands) => if cands@.len() == 0 {
                Err("No candidates in response"@)
            } else {
                match json_get(cands@[0], "content"@) {
                    Some(content) => match json_get(content, "parts"@) {
                        Some(p) => match p {
                            JsonValue::Arr(parts) => if parts@.len() == 0 {
                                Err("No parts in candidate content"@)
                            } else {
                                match first_image_data(parts@) {
                                    Some(d) => Ok(d),
                                    None => Err("No image data found in Gemini API response"@),
                                }
                            },
                            _ => Err("No image data found in Gemini API response"@),
                        },
                        None => Err("No image data found in Gemini API response"@),
                    },
                    None => Err("No image data found in Gemini API response"@),
                }
            },
            _ => Err("No image data found in Gemini API response"@),
        },
        None => Err("No image data found in Gemini API response"@),
    }
}

/// The error object of a response body, if one is present: its integer code
/// (0 when absent or not an integer) and its message (a fixed placeholder
/// when absent or not a string).
pub open spec fn error_envelope(v: JsonValue) -> Option<(i64, Seq<char>)> {
    match json_get(v, "error"@) {
        Some(err) => Some(
            (
                match json_get(err, "code"@) {
                    Some(c) => match c {
                        JsonValue::Int(n) => n,
                        _ => 0,
                    },
                    None => 0,
                },
                match json_get(err, "message"@) {
                    Some(m) => match m {
                        JsonValue::Str(s) => s@,
                        _ => "Unknown error"@,
                    },
                    None => "Unknown error"@,
                },
            ),
        ),
        None => None,
    }
}

proof fn lemma_first_image_data_skip(parts: Seq<JsonValue>, i: int)
    requires
        0 <= i <= parts.len(),
        forall|j: int| 0 <= j < i ==> part_image_data(#[trigger] parts[j]) is None,
    ensures
        first_image_data(parts) == first_image_data(parts.skip(i)),
    decreases i,
{
    if i > 0 {
        lemma_first_image_data_skip(parts.drop_first(), i - 1);
        assert(parts.drop_first().skip(i - 1) =~= parts.skip(i));
        assert(parts.skip(0) =~= parts);
    } else {
        assert(parts.skip(0) =~= parts);
    }
}

/// Walks `candidates[0].content.parts` of a loosely-typed response and
/// returns the first inline image payload, under either field spelling;
/// each way the walk can give out yields the matching upstream error.
#[verifier::loop_isolation(false)]
pub fn extract_image_from_json(v: &JsonValue) -> (r: McpResult<String>)
    ensures
        match image_extraction(*v) {
            Ok(d) => r matches Ok(s) && s@ == d,
            Err(m) => r matches Err(e) && (e matches McpError::GeminiApiError {
                code,
                message,
            } && code == 0 && message@ == m),
        },
{
    let no_image: &str = "No image data found in Gemini API response";
    match v.get("candidates") {
        Some(c) => match c {
            JsonValue::Arr(cands) => {
                if cands.len() == 0 {
                    return Err(
                        McpError::GeminiApiError {
                            code: 0,
                            message: "No candidates in response".to_owned(),
                        },
                    );
                }
                let first: &JsonValue = &cands[0];
                match first.get("content") {
                    Some(content) => match content.get("parts") {
                        Some(p) => match p {
                            JsonValue::Arr(parts) => {
                                if parts.len() == 0 {
                                    return Err(
                                        McpError::GeminiApiError {
                                            code: 0,
                                            message: "No parts in candidate content".to_owned(),
                                        },
                                    );
                                }
                                let n: usize = parts.len();
                                let mut i: usize = 0;
                                while i < n
                                    invariant
                                        i <= n,
                                        n == parts@.len(),
                                        forall|j: int| 0 <= j < i ==> part_image_data(
                                            #[trigger] parts@[j],
                                        ) is None,
                                    decreases n - i,
                                {
                                    let part: &JsonValue = &parts[i];
                                    let inline: Option<&JsonValue> = match part.get(
                                        "inline_data",
                                    ) {
                                        Some(d) => Some(d),
                                        None => part.get("inlineData"),
                                    };
                                    match inline {
                                        Some(d) => match d.get("data") {
                                            Some(data) => match data {
                                                JsonValue::Str(s) => {
                                                    proof {
                                                        lemma_first_image_data_skip(
                                                            parts@,
                                                            i as int,
                                                        );
                                                        assert(parts@.skip(i as int)[0]
                                                            == parts@[i as int]);
                                                    }
                                                    return Ok(s.clone());
                                                },
                                                _ => {},
                                            },
                                            None => {},
                                        },
                                        None => {},
                                    }
                                    i = i + 1;
                                }
                                proof {
                                    lemma_first_image_data_skip(parts@, n as int);
                                    assert(parts@.skip(n as int).len() == 0);
                                }
                                Err(
                                    McpError::GeminiApiError {
                                        code: 0,
                                        message: no_image.to_owned(),
                                    },
                                )
                            },
                            _ => Err(
                                McpError::GeminiApiError { code: 0, message: no_image.to_owned() },
                            ),
                        },
                        None => Err(
                            McpError::GeminiApiError { code: 0, message: no_image.to_owned() },
                        ),
                    },
                    None => Err(McpError::GeminiApiError { code: 0, message: no_image.to_owned() }),
                }
            },
            _ => Err(McpError::GeminiApiError { code: 0, message: no_image.to_owned() }),
        },
        None => Err(McpError::GeminiApiError { code: 0, message: no_image.to_owned() }),
    }
}

/// The shared treatment of an image-tool response body: an error object in
/// the body takes precedence, whatever the transport reported; otherwise
/// the inline image payload is extracted.
pub fn handle_image_response(v: &JsonValue) -> (r: McpResult<String>)
    ensures
        match error_envelope(*v) {
            Some(ce) => r matches Err(e) && (e matches McpError::GeminiApiError {
                code,
                message,
            } && code == ce.0 && message@ == ce.1),
            None => match image_extraction(*v) {
                Ok(d) => r matches Ok(s) && s@ == d,
                Err(m) => r matches Err(e) && (e matches McpError::GeminiApiError {
                    code,
                    message,
                } && code == 0 && message@ == m),
            },
        },
{
    match v.get("error") {
        Some(err) => {
            let code: i64 = match err.get("code") {
                Some(c) => match c {
                    JsonValue::Int(n) => *n,
                    _ => 0,
                },
                None => 0,
            };
            let message: String = match err.get("message") {
                Some(m) => match m {
                    JsonValue::Str(s) => s.clone(),
                    _ => "Unknown error".to_owned(),
                },
                None => "Unknown error".to_owned(),
            };
            Err(McpError::GeminiApiError { code, message })
        },
        None => extract_image_from_json(v),
    }
}

} // verus!
