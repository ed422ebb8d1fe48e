use commitgen::config::PipelineConfig;
use commitgen::errors::PipelineError;
use commitgen::pipeline::{PipelineOrchestrator, PipelineProgress, PromptKind};

const MESSAGE_PREFIX: &str = "Generate a conventional commit message for the following git diff summary. IMPORTANT RULES:\n1. Use the format: <type>(<scope>): <description>\n2. Keep it concise and clear\n3. DO NOT use any markdown formatting\n4. DO NOT wrap the message in code blocks\n5. DO NOT add any extra formatting or annotations\n6. The message should be ready to use with 'git commit -m'\n\nDiff Summary:\n";

const SUMMARY_PREFIX: &str = "Summarize the following git diff in a concise and factual manner. Focus on key changes, file names, and types of modifications. Do not use code blocks, markdown, or extra commentary.\n\nDiff:\n";

fn orchestrator() -> PipelineOrchestrator {
    PipelineOrchestrator::new(PipelineConfig::standard(), "qwen2.5:7b".to_string())
}

#[test]
fn empty_change_set_is_rejected_before_any_call() {
    let r = orchestrator().start_generation("");
    assert!(matches!(r, Err(PipelineError::EmptyChangeSet)));
}

#[test]
fn change_set_at_threshold_is_not_summarized() {
    let diff = "a".repeat(1000);
    let p = orchestrator().start_generation(&diff).ok().unwrap();
    assert_eq!(p.kind, PromptKind::CommitMessage);
    assert_eq!(p.request.prompt, format!("{}{}", MESSAGE_PREFIX, diff));
}

#[test]
fn change_set_above_threshold_is_summarized() {
    let diff = "a".repeat(1001);
    let p = orchestrator().start_generation(&diff).ok().unwrap();
    assert_eq!(p.kind, PromptKind::Summary);
    assert_eq!(p.request.prompt, format!("{}{}", SUMMARY_PREFIX, diff));
}

#[test]
fn small_change_set_flows_through_one_generate_call() {
    // 50 characters, below the threshold: no summarization round.
    let diff = "diff text diff text diff text diff text diff text.";
    assert_eq!(diff.len(), 50);
    let orch = orchestrator();
    let p = orch.start_generation(diff).ok().unwrap();
    assert_eq!(p.kind, PromptKind::CommitMessage);
    assert_eq!(p.request.prompt, format!("{}{}", MESSAGE_PREFIX, diff));
    assert_eq!(p.request.model, "qwen2.5:7b");
    assert!(!p.request.stream);
    let body = "{\"response\": \"```\\nfeat(x): add y\\n```\"}";
    let progress = orch.process_response(p.kind, body).ok().unwrap();
    match progress {
        PipelineProgress::Complete(g) => assert_eq!(g.text, "feat(x): add y"),
        PipelineProgress::AwaitingMessage(_) => panic!("expected a completed generation"),
    }
}

#[test]
fn large_change_set_is_summarized_then_messaged() {
    let diff = "x".repeat(1200);
    let orch = orchestrator();
    let p = orch.start_generation(&diff).ok().unwrap();
    assert_eq!(p.kind, PromptKind::Summary);
    assert_eq!(p.request.prompt, format!("{}{}", SUMMARY_PREFIX, diff));
    let summary_body = "{\"response\": \"  files changed: a, b  \"}";
    let progress = orch.process_response(p.kind, summary_body).ok().unwrap();
    let follow_up = match progress {
        PipelineProgress::AwaitingMessage(p2) => p2,
        PipelineProgress::Complete(_) => panic!("expected a follow-up message request"),
    };
    assert_eq!(follow_up.kind, PromptKind::CommitMessage);
    // The message prompt embeds the trimmed summary, not the raw diff.
    assert_eq!(
        follow_up.request.prompt,
        format!("{}{}", MESSAGE_PREFIX, "files changed: a, b")
    );
    assert!(!follow_up.request.prompt.contains(&diff));
    let message_body = "{\"response\": \"chore: update everything\"}";
    let done = orch.process_response(follow_up.kind, message_body).ok().unwrap();
    match done {
        PipelineProgress::Complete(g) => assert_eq!(g.text, "chore: update everything"),
        PipelineProgress::AwaitingMessage(_) => panic!("expected a completed generation"),
    }
}

#[test]
fn non_json_body_is_malformed() {
    let r = orchestrator().process_response(PromptKind::CommitMessage, "not json at all");
    assert!(matches!(r, Err(PipelineError::MalformedResponse)));
}

#[test]
fn missing_response_field_is_malformed() {
    let r = orchestrator().process_response(PromptKind::CommitMessage, "{\"other\": \"x\"}");
    assert!(matches!(r, Err(PipelineError::MalformedResponse)));
}

#[test]
fn non_text_response_field_is_malformed() {
    let r = orchestrator().process_response(PromptKind::CommitMessage, "{\"response\": 42}");
    assert!(matches!(r, Err(PipelineError::MalformedResponse)));
}

#[test]
fn blank_response_text_is_malformed() {
    let r = orchestrator().process_response(PromptKind::CommitMessage, "{\"response\": \"   \"}");
    assert!(matches!(r, Err(PipelineError::MalformedResponse)));
}

#[test]
fn summary_round_tolerates_malformed_body_with_error() {
    let r = orchestrator().process_response(PromptKind::Summary, "{}");
    assert!(matches!(r, Err(PipelineError::MalformedResponse)));
}

#[test]
fn response_text_is_extracted_not_echoed() {
    // The whole JSON body must not leak into the result.
    let body = "{\"response\": \"docs: explain the flag\"}";
    let r = orchestrator().process_response(PromptKind::CommitMessage, body);
    match r.ok().unwrap() {
        PipelineProgress::Complete(g) => {
            assert_eq!(g.text, "docs: explain the flag");
            assert!(!g.text.contains("response"));
        }
        PipelineProgress::AwaitingMessage(_) => panic!("expected a completed generation"),
    }
}
