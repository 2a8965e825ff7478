//! Core logic of a stdio JSON-RPC image-tool server backed by a remote
//! multimodal API: input validation, request-part assembly, response
//! extraction and error classification, all with verified contracts.
//! Network and file transfer are left to the surrounding binary, which
//! hands this library plain values.

pub mod codec;
pub mod error;
pub mod gateway;
pub mod json;
pub mod jsonrpc;
pub mod parts;
pub mod response;
pub mod text;
pub mod validation;
