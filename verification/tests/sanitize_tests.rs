use commitgen::sanitize::clean_commit_message;

#[test]
fn fenced_block_is_unwrapped() {
    let out = clean_commit_message("```\nfeat(x): add y\n```");
    assert_eq!(out, "feat(x): add y");
}

#[test]
fn plain_text_is_trimmed_only() {
    let out = clean_commit_message("  feat(core): trim me \n");
    assert_eq!(out, "feat(core): trim me");
}

#[test]
fn one_sided_fence_is_left_alone() {
    let out = clean_commit_message("```feat: partial");
    assert_eq!(out, "```feat: partial");
    let out = clean_commit_message("feat: partial```");
    assert_eq!(out, "feat: partial```");
}

#[test]
fn fenced_lines_are_trimmed_and_empties_dropped() {
    let out = clean_commit_message("```\n  line one  \n\n line two\n```");
    assert_eq!(out, "line one\nline two");
}

#[test]
fn language_tag_survives_as_first_line() {
    let out = clean_commit_message("```text\nfeat: tagged\n```");
    assert_eq!(out, "text\nfeat: tagged");
}

#[test]
fn only_fences_collapse_to_nothing() {
    let out = clean_commit_message("``````");
    assert_eq!(out, "");
}

#[test]
fn empty_input_stays_empty() {
    assert_eq!(clean_commit_message(""), "");
    assert_eq!(clean_commit_message("   \n  "), "");
}

#[test]
fn sanitize_is_idempotent_on_fenced_input() {
    let once = clean_commit_message("```\n  fix(a):  b \n\n c \n```");
    let twice = clean_commit_message(&once);
    assert_eq!(twice, once);
}

#[test]
fn sanitize_is_idempotent_on_unfenced_input() {
    let once = clean_commit_message("  chore: nothing fancy  ");
    let twice = clean_commit_message(&once);
    assert_eq!(twice, once);
}

#[test]
fn sanitize_is_idempotent_on_one_sided_fence() {
    let once = clean_commit_message(" ```half open ");
    let twice = clean_commit_message(&once);
    assert_eq!(twice, once);
}
