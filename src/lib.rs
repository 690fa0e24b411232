//! A typed client library for the TextSynth text generation API: validated request
//! parameters, request payloads, and decoding of plain and streamed responses.

pub mod client;
pub mod engine;
pub mod error;
pub mod json;
mod sealed;
pub mod utils;
