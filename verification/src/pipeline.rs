//! The generation pipeline: from a staged change set to a usable commit
//! message.
//!
//! The orchestrator only decides; the caller carries each produced request
//! to the inference backend and hands the raw response body back. One
//! generation is at most two exchanges: an optional summarization of an
//! oversized change set, then the message generation itself. Responses are
//! parsed for their textual `response` field and the final text is
//! sanitized; a response of any other shape is malformed.

use vstd::prelude::*;

use crate::config::PipelineConfig;
use crate::errors::PipelineError;
use crate::sanitize::{clean_commit_message, sanitize_spec};
use crate::text::{trim, trim_spec};

verus! {

/// One non-streaming request to the inference backend.
pub struct InferenceRequest {
    pub model: String,
    pub prompt: String,
    /// Always false: streaming is never used.
    pub stream: bool,
}

/// What a pending request asks the backend for.
#[derive(Clone, Copy, Debug, PartialEq, Eq, Structural)]
pub enum PromptKind {
    /// A concise factual summary of an oversized change set.
    Summary,
    /// The conventional commit message itself.
    CommitMessage,
}

/// A request the caller must send, together with what its response will
/// mean to the pipeline.
pub struct PendingRequest {
    pub kind: PromptKind,
    pub request: InferenceRequest,
}

/// Sanitized text ready for use as a commit message or review body; never
/// empty.
pub struct GenerationResult {
    pub text: String,
}

/// What the pipeline asks for after interpreting a response.
pub enum PipelineProgress {
    /// The summarization round is done; the message request must be sent.
    AwaitingMessage(PendingRequest),
    /// The generation is complete.
    Complete(GenerationResult),
}

/// The prompt instructing the backend to summarize an oversized diff.
pub open spec fn summary_prompt_spec(diff: Seq<char>) -> Seq<char> {
    "Summarize the following git diff in a concise and factual manner. Focus on key changes, file names, and types of modifications. Do not use code blocks, markdown, or extra commentary.\n\nDiff:\n"@
        + diff
}

/// The prompt instructing the backend to emit a single conventional commit
/// line, with all formatting forbidden.
pub open spec fn message_prompt_spec(diff: Seq<char>) -> Seq<char> {
    "Generate a conventional commit message for the following git diff summary. IMPORTANT RULES:\n1. Use the format: <type>(<scope>): <description>\n2. Keep it concise and clear\n3. DO NOT use any markdown formatting\n4. DO NOT wrap the message in code blocks\n5. DO NOT add any extra formatting or annotations\n6. The message should be ready to use with 'git commit -m'\n\nDiff Summary:\n"@
        + diff
}

/// The textual `response` field of a backend response body, when the body
/// is JSON holding one; a function of the body's characters alone.
pub uninterp spec fn response_text_of(body: Seq<char>) -> Option<Seq<char>>;

/// Relies on serde_json — `from_str`, `Value::get` and `Value::as_str` —
/// to parse `body` as JSON and extract its textual `response` field. The
/// outcome depends on the characters of `body` alone.
#[verifier::external_body]
fn extract_response_text(body: &str) -> (r: Option<String>)
    ensures
        r matches Some(t) ==> response_text_of(body@) == Some(t@),
        r is None ==> response_text_of(body@) is None,
{
    match serde_json::from_str::<serde_json::Value>(body) {
        Ok(v) => match v.get("response") {
            Some(f) => f.as_str().map(|t| t.to_string()),
            None => None,
        },
        Err(_) => None,
    }
}

/// Interpret a generation response: extract the `response` text and
/// sanitize it. A body without a usable text, or one whose sanitized text
/// is empty, cannot serve as a message and is malformed.
pub fn interpret_generation(body: &str) -> (r: Result<GenerationResult, PipelineError>)
    ensures
        ({
            match response_text_of(body@) {
                Option::None => r == Err::<GenerationResult, PipelineError>(
                    PipelineError::MalformedResponse,
                ),
                Option::Some(t) => if sanitize_spec(t).len() > 0 {
                    r matches Ok(g) && g.text@ == sanitize_spec(t) && g.text@.len() > 0
                } else {
                    r == Err::<GenerationResult, PipelineError>(PipelineError::MalformedResponse)
                },
            }
        }),
    {
    match extract_response_text(body) {
        None => Err(PipelineError::MalformedResponse),
        Some(t) => {
            let cleaned = clean_commit_message(t.as_str());
            if cleaned.unicode_len() == 0 {
                Err(PipelineError::MalformedResponse)
            } else {
                Ok(GenerationResult { text: cleaned })
            }
        },
    }
}

pub struct PipelineOrchestrator {
    pub config: PipelineConfig,
    pub model: String,
}

impl PipelineOrchestrator {
    pub fn new(config: PipelineConfig, model: String) -> (p: PipelineOrchestrator)
        ensures
            p.config == config,
            p.model == model,
    {
        PipelineOrchestrator { config, model }
    }

    /// Decide the first exchange for a change set: an empty change set is
    /// rejected before any backend call; a change set longer than the
    /// threshold is summarized first; otherwise the message prompt embeds
    /// the raw diff directly. A change set exactly at the threshold is not
    /// summarized.
    pub fn start_generation(&self, change_set: &str) -> (r: Result<PendingRequest, PipelineError>)
        ensures
            change_set@.len() == 0 ==> r == Err::<PendingRequest, PipelineError>(
                PipelineError::EmptyChangeSet,
            ),
            change_set@.len() > self.config.threshold ==> (r matches Ok(p) && p.kind is Summary
                && p.request.model@ == self.model@ && p.request.stream == false
                && p.request.prompt@ == summary_prompt_spec(change_set@)),
            0 < change_set@.len() <= self.config.threshold ==> (r matches Ok(p)
                && p.kind is CommitMessage && p.request.model@ == self.model@
                && p.request.stream == false && p.request.prompt@ == message_prompt_spec(
                change_set@,
            )),
    {
        let n = change_set.unicode_len();
        if n == 0 {
            Err(PipelineError::EmptyChangeSet)
        } else if n > self.config.threshold {
            let mut prompt =
                "Summarize the following git diff in a concise and factual manner. Focus on key changes, file names, and types of modifications. Do not use code blocks, markdown, or extra commentary.\n\nDiff:\n".to_owned();
            prompt.append(change_set);
            Ok(
                PendingRequest {
                    kind: PromptKind::Summary,
                    request: InferenceRequest {
                        model: self.model.clone(),
                        prompt,
                        stream: false,
                    },
                },
            )
        } else {
            let mut prompt =
                "Generate a conventional commit message for the following git diff summary. IMPORTANT RULES:\n1. Use the format: <type>(<scope>): <description>\n2. Keep it concise and clear\n3. DO NOT use any markdown formatting\n4. DO NOT wrap the message in code blocks\n5. DO NOT add any extra formatting or annotations\n6. The message should be ready to use with 'git commit -m'\n\nDiff Summary:\n".to_owned();
            prompt.append(change_set);
            Ok(
                PendingRequest {
                    kind: PromptKind::CommitMessage,
                    request: InferenceRequest {
                        model: self.model.clone(),
                        prompt,
                        stream: false,
                    },
                },
            )
        }
    }

    /// Interpret the backend's response to a pending request. After a
    /// summarization round, the trimmed summary — not the raw diff — is
    /// embedded in the message prompt of the follow-up request; after the
    /// message round, the sanitized text completes the generation.
    pub fn process_response(&self, kind: PromptKind, body: &str) -> (r: Result<
        PipelineProgress,
        PipelineError,
    >)
        ensures
            ({
                match response_text_of(body@) {
                    Option::None => r == Err::<PipelineProgress, PipelineError>(
                        PipelineError::MalformedResponse,
                    ),
                    Option::Some(t) => match kind {
                        PromptKind::Summary => r matches Ok(pr)
                            && pr matches PipelineProgress::AwaitingMessage(p)
                            && p.kind is CommitMessage && p.request.model@ == self.model@
                            && p.request.stream == false && p.request.prompt@
                            == message_prompt_spec(trim_spec(t)),
                        PromptKind::CommitMessage => if sanitize_spec(t).len() > 0 {
                            r matches Ok(pr) && pr matches PipelineProgress::Complete(g)
                                && g.text@ == sanitize_spec(t)
                        } else {
                            r == Err::<PipelineProgress, PipelineError>(
                                PipelineError::MalformedResponse,
                            )
                        },
                    },
                }
            }),
    {
        match kind {
            PromptKind::Summary => {
                match extract_response_text(body) {
                    None => Err(PipelineError::MalformedResponse),
                    Some(t) => {
                        let summary = trim(t.as_str());
                        let mut prompt =
                            "Generate a conventional commit message for the following git diff summary. IMPORTANT RULES:\n1. Use the format: <type>(<scope>): <description>\n2. Keep it concise and clear\n3. DO NOT use any markdown formatting\n4. DO NOT wrap the message in code blocks\n5. DO NOT add any extra formatting or annotations\n6. The message should be ready to use with 'git commit -m'\n\nDiff Summary:\n".to_owned();
                        prompt.append(summary);
                        Ok(
                            PipelineProgress::AwaitingMessage(
                                PendingRequest {
                                    kind: PromptKind::CommitMessage,
                                    request: InferenceRequest {
                                        model: self.model.clone(),
                                        prompt,
                                        stream: false,
                                    },
                                },
                            ),
                        )
                    },
                }
            },
            PromptKind::CommitMessage => {
                match interpret_generation(body) {
                    Ok(g) => Ok(PipelineProgress::Complete(g)),
                    Err(e) => Err(e),
                }
            },
        }
    }
}

} // verus!
