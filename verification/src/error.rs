//! The library's error taxonomy and the rendering of each error as text.

use vstd::prelude::*;
use vstd::string::*;

use crate::text::{dec_int, i64_to_string};

verus! {

/// Every failure the tools can report. Variants that the original transport
/// layer fills from foreign error values carry the rendered text instead.
/// Upstream error codes are kept as 64-bit integers exactly as parsed.
#[derive(Debug)]
pub enum McpError {
    NetworkError(String),
    IoError(String),
    SerializationError(String),
    ConfigurationError(String),
    GeminiApiError { code: i64, message: String },
    FileSystemError(String),
    Base64Error(String),
    InvalidInput(String),
    Timeout(String),
    AuthenticationError(String),
    RateLimitError(String),
    ContentTypeError(String),
}

pub type McpResult<T> = Result<T, McpError>;

/// The one-line rendering of an error: a fixed prefix naming the kind,
/// then the carried detail.
pub open spec fn error_text(e: McpError) -> Seq<char> {
    match e {
        McpError::NetworkError(m) => "Network error: "@ + m@,
        McpError::IoError(m) => "IO error: "@ + m@,
        McpError::SerializationError(m) => "Serialization error: "@ + m@,
        McpError::ConfigurationError(m) => "Configuration error: "@ + m@,
        McpError::GeminiApiError { code, message } => "Gemini API error ("@ + dec_int(
            code as int,
        ) + "): "@ + message@,
        McpError::FileSystemError(m) => "File system error: "@ + m@,
        McpError::Base64Error(m) => "Base64 encoding error: "@ + m@,
        McpError::InvalidInput(m) => "Invalid input: "@ + m@,
        McpError::Timeout(m) => "Timeout error: "@ + m@,
        McpError::AuthenticationError(m) => "Authentication error: "@ + m@,
        McpError::RateLimitError(m) => "Rate limit exceeded: "@ + m@,
        McpError::ContentTypeError(m) => "Content type error: "@ + m@,
    }
}

impl McpError {
    /// Renders the error as one line of text.
    pub fn message(&self) -> (r: String)
        ensures
            r@ == error_text(*self),
    {
        match self {
            McpError::NetworkError(m) => String::from_str("Network error: ").concat(m.as_str()),
            McpError::IoError(m) => String::from_str("IO error: ").concat(m.as_str()),
            McpError::SerializationError(m) => String::from_str("Serialization error: ").concat(
                m.as_str(),
            ),
            McpError::ConfigurationError(m) => String::from_str("Configuration error: ").concat(
                m.as_str(),
            ),
            McpError::GeminiApiError { code, message } => {
                let digits: String = i64_to_string(*code);
                String::from_str("Gemini API error (").concat(digits.as_str()).concat(
                    "): ",
                ).concat(message.as_str())
            },
            McpError::FileSystemError(m) => String::from_str("File system error: ").concat(
                m.as_str(),
            ),
            McpError::Base64Error(m) => String::from_str("Base64 encoding error: ").concat(
                m.as_str(),
            ),
            McpError::InvalidInput(m) => String::from_str("Invalid input: ").concat(m.as_str()),
            McpError::Timeout(m) => String::from_str("Timeout error: ").concat(m.as_str()),
            McpError::AuthenticationError(m) => String::from_str("Authentication error: ").concat(
                m.as_str(),
            ),
            McpError::RateLimitError(m) => String::from_str("Rate limit exceeded: ").concat(
                m.as_str(),
            ),
            McpError::ContentTypeError(m) => String::from_str("Content type error: ").concat(
                m.as_str(),
            ),
        }
    }
}

} // verus!
