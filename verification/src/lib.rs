//! Verified core of a commit-message generation pipeline.
//!
//! The library holds the decision logic of the pipeline: model selection,
//! the summarization threshold, prompt construction, interpretation of the
//! inference backend's responses, sanitization of generated text, the
//! bounded readiness loop, and parsing of the surrounding tooling's output.
//! Process management and all network traffic live outside the library and
//! hand it plain values.

pub mod config;
pub mod errors;
pub mod pipeline;
pub mod registry;
pub mod remote;
pub mod review;
pub mod sanitize;
pub mod supervisor;
pub mod text;
pub mod vcs;
