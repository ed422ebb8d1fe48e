use commitgen::vcs::{parse_branch_name, parse_commit_subjects};

#[test]
fn subjects_are_split_per_line() {
    let s = parse_commit_subjects("feat: add parser\nfix: handle crlf");
    assert_eq!(s, vec!["feat: add parser".to_string(), "fix: handle crlf".to_string()]);
}

#[test]
fn empty_log_output_has_no_subjects() {
    assert!(parse_commit_subjects("").is_empty());
}

#[test]
fn trailing_newline_adds_no_subject() {
    let s = parse_commit_subjects("feat: one\n");
    assert_eq!(s, vec!["feat: one".to_string()]);
}

#[test]
fn carriage_returns_are_stripped() {
    let s = parse_commit_subjects("feat: one\r\nfix: two\r\n");
    assert_eq!(s, vec!["feat: one".to_string(), "fix: two".to_string()]);
}

#[test]
fn interior_empty_lines_are_kept_as_subjects() {
    let s = parse_commit_subjects("a\n\nb");
    assert_eq!(s, vec!["a".to_string(), "".to_string(), "b".to_string()]);
}

#[test]
fn branch_name_is_trimmed() {
    assert_eq!(parse_branch_name(" main\n"), "main");
    assert_eq!(parse_branch_name("feature/x"), "feature/x");
}
