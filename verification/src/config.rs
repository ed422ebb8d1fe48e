//! Configuration of the generation pipeline.
//!
//! The orchestrator is parameterized by an explicit configuration value
//! rather than module-level constants: the summarization threshold, the
//! default and last-resort model identifiers, and the readiness poll bound
//! and interval.

use vstd::prelude::*;

verus! {

pub struct PipelineConfig {
    /// Change sets longer than this many characters are summarized before
    /// the message prompt is built.
    pub threshold: usize,
    /// Preferred fallback model when no explicit choice is available.
    pub default_model: String,
    /// Terminal fallback identifier, used even though it may not be
    /// installed.
    pub last_resort: String,
    /// Number of health probes after launching the backend.
    pub poll_attempts: u32,
    /// Seconds between two consecutive health probes.
    pub poll_interval_secs: u64,
}

impl PipelineConfig {
    /// The stock configuration of the pipeline.
    pub fn standard() -> (c: PipelineConfig)
        ensures
            c.threshold == 1000,
            c.default_model@ == "qwen2.5:7b"@,
            c.last_resort@ == "neural-chat"@,
            c.poll_attempts == 30,
            c.poll_interval_secs == 1,
    {
        PipelineConfig {
            threshold: 1000,
            default_model: "qwen2.5:7b".to_owned(),
            last_resort: "neural-chat".to_owned(),
            poll_attempts: 30,
            poll_interval_secs: 1,
        }
    }
}

} // verus!
