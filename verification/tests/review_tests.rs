use commitgen::errors::PipelineError;
use commitgen::review::{finish_review, start_review};

const REVIEW_PREFIX: &str = "Generate a detailed pull request description based on the following commits and diff:\n\nCommits:\n";

#[test]
fn no_commits_means_no_review_request() {
    let subjects: Vec<String> = Vec::new();
    let r = start_review(&"qwen2.5:7b".to_string(), &subjects, "some diff");
    assert!(matches!(r, Err(PipelineError::NoCommitsForReview)));
}

#[test]
fn review_prompt_embeds_subjects_and_full_diff() {
    let subjects = vec!["feat: add parser".to_string(), "fix: handle crlf".to_string()];
    let req = start_review(&"qwen2.5:7b".to_string(), &subjects, "the whole diff")
        .ok()
        .unwrap();
    assert_eq!(req.model, "qwen2.5:7b");
    assert!(!req.stream);
    assert_eq!(
        req.prompt,
        format!(
            "{}{}\n\nDiff:\n{}",
            REVIEW_PREFIX, "feat: add parser\nfix: handle crlf", "the whole diff"
        )
    );
}

#[test]
fn single_subject_has_no_separator() {
    let subjects = vec!["feat: only one".to_string()];
    let req = start_review(&"m".to_string(), &subjects, "d").ok().unwrap();
    assert_eq!(req.prompt, format!("{}{}\n\nDiff:\n{}", REVIEW_PREFIX, "feat: only one", "d"));
}

#[test]
fn review_response_is_sanitized() {
    let g = finish_review("{\"response\": \"```\\nThis change adds a parser.\\n```\"}")
        .ok()
        .unwrap();
    assert_eq!(g.text, "This change adds a parser.");
}

#[test]
fn malformed_review_response_fails() {
    let r = finish_review("{\"answer\": \"nope\"}");
    assert!(matches!(r, Err(PipelineError::MalformedResponse)));
}
