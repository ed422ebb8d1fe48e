use commitgen::errors::RegistryError;
use commitgen::registry::{interpret_model_listing, interpret_pull, requires_pull};

#[test]
fn listing_rows_yield_first_tokens() {
    let output = "NAME            ID      SIZE\nqwen2.5:7b      abc123  4.7 GB\nllama3:8b       def456  4.7 GB\n";
    let models = interpret_model_listing(true, output).ok().unwrap();
    assert_eq!(models, vec!["qwen2.5:7b".to_string(), "llama3:8b".to_string()]);
}

#[test]
fn failed_listing_is_unavailable() {
    let r = interpret_model_listing(false, "");
    assert!(matches!(r, Err(RegistryError::ModelListUnavailable)));
}

#[test]
fn empty_output_lists_nothing() {
    let models = interpret_model_listing(true, "").ok().unwrap();
    assert!(models.is_empty());
}

#[test]
fn header_only_output_lists_nothing() {
    let models = interpret_model_listing(true, "NAME ID SIZE\n").ok().unwrap();
    assert!(models.is_empty());
}

#[test]
fn blank_rows_are_skipped_and_indentation_tolerated() {
    let output = "NAME ID\n\n   spaced:model  xyz\n   \nplain:model abc";
    let models = interpret_model_listing(true, output).ok().unwrap();
    assert_eq!(models, vec!["spaced:model".to_string(), "plain:model".to_string()]);
}

#[test]
fn pull_is_required_exactly_when_absent() {
    let avail = vec!["qwen2.5:7b".to_string()];
    assert!(!requires_pull(&"qwen2.5:7b".to_string(), &avail));
    assert!(requires_pull(&"llama3:8b".to_string(), &avail));
    assert!(requires_pull(&"qwen2.5:7b".to_string(), &Vec::new()));
}

#[test]
fn pull_outcome_is_interpreted() {
    assert!(interpret_pull(true).is_ok());
    assert!(matches!(interpret_pull(false), Err(RegistryError::ModelPullFailed)));
}
