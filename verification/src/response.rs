//! The typed response envelope of the text-returning tool and the recovery
//! of the answer out of it: the first candidate's parts are walked and the
//! first text that is non-blank after trimming is the answer; an error
//! object in the envelope takes precedence.

use vstd::prelude::*;
use vstd::string::*;

use crate::error::{McpError, McpResult};
use crate::parts::ContentPart;
use crate::text::{is_blank, str_is_blank};

verus! {

/// The error object an upstream response may carry.
#[derive(Debug)]
pub struct GeminiErrorBody {
    pub code: i64,
    pub message: String,
}

#[derive(Debug)]
pub struct GeminiContent {
    pub parts: Vec<ContentPart>,
}

#[derive(Debug)]
pub struct GeminiCandidate {
    pub content: GeminiContent,
}

/// A structured upstream response: proposed candidates, of which only the
/// first is ever used, or an error object, or both.
#[derive(Debug)]
pub struct GeminiResponse {
    pub candidates: Option<Vec<GeminiCandidate>>,
    pub error: Option<GeminiErrorBody>,
}

/// The first text part that is not blank, skipping image parts and
/// whitespace-only text.
pub open spec fn first_nonblank_text(parts: Seq<ContentPart>) -> Option<Seq<char>>
    decreases parts.len(),
{
    if parts.len() == 0 {
        None
    } else {
        match parts[0] {
            ContentPart::Text(t) => if !is_blank(t@) {
                Some(t@)
            } else {
                first_nonblank_text(parts.drop_first())
            },
            _ => first_nonblank_text(parts.drop_first()),
        }
    }
}

/// What walking a structured response for text yields: the first non-blank
/// text of the first candidate, or the message describing which level of
/// the walk gave out.
pub open spec fn text_extraction(resp: GeminiResponse) -> Result<Seq<char>, Seq<char>> {
    match resp.candidates {
        Some(cands) => if cands@.len() == 0 {
            Err("No candidates in response"@)
        } else if cands@[0].content.parts@.len() == 0 {
            Err("No parts in candidate content"@)
        } else {
            match first_nonblank_text(cands@[0].content.parts@) {
                Some(t) => Ok(t),
                None => Err("No valid text found in response"@),
            }
        },
        None => Err("No candidates in Gemini API response"@),
    }
}

proof fn lemma_first_nonblank_text_skip(parts: Seq<ContentPart>, i: int)
    requires
        0 <= i <= parts.len(),
        forall|j: int| 0 <= j < i ==> match #[trigger] parts[j] {
            ContentPart::Text(t) => is_blank(t@),
            _ => true,
        },
    ensures
        first_nonblank_text(parts) == first_nonblank_text(parts.skip(i)),
    decreases i,
{
    if i > 0 {
        lemma_first_nonblank_text_skip(parts.drop_first(), i - 1);
        assert(parts.drop_first().skip(i - 1) =~= parts.skip(i));
        assert(parts.skip(0) =~= parts);
    } else {
        assert(parts.skip(0) =~= parts);
    }
}

/// Walks the first candidate's parts for the first non-blank text; each way
/// the walk can give out yields the matching upstream error.
#[verifier::loop_isolation(false)]
pub fn extract_text_from_response(resp: &GeminiResponse) -> (r: McpResult<String>)
    ensures
        match text_extraction(*resp) {
            Ok(t) => r matches Ok(s) && s@ == t,
            Err(m) => r matches Err(e) && (e matches McpError::GeminiApiError {
                code,
                message,
            } && code == 0 && message@ == m),
        },
{
    match &resp.candidates {
        Some(cands) => {
            if cands.len() == 0 {
                return Err(
                    McpError::GeminiApiError {
                        code: 0,
                        message: "No candidates in response".to_owned(),
                    },
                );
            }
            let first: &GeminiCandidate = &cands[0];
            let n: usize = first.content.parts.len();
            if n == 0 {
                return Err(
                    McpError::GeminiApiError {
                        code: 0,
                        message: "No parts in candidate content".to_owned(),
                    },
                );
            }
            let mut i: usize = 0;
            while i < n
                invariant
                    i <= n,
                    forall|j: int| 0 <= j < i ==> match #[trigger] first.content.parts@[j] {
                        ContentPart::Text(t) => is_blank(t@),
                        _ => true,
                    },
                decreases n - i,
            {
                let part: &ContentPart = &first.content.parts[i];
                match part {
                    ContentPart::Text(t) => {
                        if !str_is_blank(t.as_str()) {
                            proof {
                                lemma_first_nonblank_text_skip(first.content.parts@, i as int);
                                assert(first.content.parts@.skip(i as int)[0]
                                    == first.content.parts@[i as int]);
                            }
                            return Ok(t.clone());
                        }
                    },
                    _ => {},
                }
                i = i + 1;
            }
            proof {
                lemma_first_nonblank_text_skip(first.content.parts@, n as int);
                assert(first.content.parts@.skip(n as int).len() == 0);
            }
            Err(McpError::GeminiApiError { code: 0, message: "No valid text found in response".to_owned() })
        },
        None => Err(
            McpError::GeminiApiError {
                code: 0,
                message: "No candidates in Gemini API response".to_owned(),
            },
        ),
    }
}

/// The shared treatment of the text tool's response: a reported error
/// object takes precedence; otherwise the answer text is extracted.
pub fn handle_text_response(resp: &GeminiResponse) -> (r: McpResult<String>)
    ensures
        match resp.error {
            Some(eb) => r matches Err(e) && (e matches McpError::GeminiApiError {
                code,
                message,
            } && code == eb.code && message@ == eb.message@),
            None => match text_extraction(*resp) {
                Ok(t) => r matches Ok(s) && s@ == t,
                Err(m) => r matches Err(e) && (e matches McpError::GeminiApiError {
                    code,
                    message,
                } && code == 0 && message@ == m),
            },
        },
{
    match &resp.error {
        Some(eb) => Err(
            McpError::GeminiApiError { code: eb.code, message: eb.message.clone() },
        ),
        None => extract_text_from_response(resp),
    }
}

} // verus!
