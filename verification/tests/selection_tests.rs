use commitgen::config::PipelineConfig;
use commitgen::registry::select_model;

fn cfg() -> PipelineConfig {
    PipelineConfig::standard()
}

#[test]
fn preferred_present_is_selected() {
    let avail = vec!["llama3:8b".to_string(), "qwen2.5:7b".to_string()];
    let m = select_model(Some("llama3:8b".to_string()), &avail, &cfg());
    assert_eq!(m, "llama3:8b");
}

#[test]
fn preferred_absent_falls_back_to_default() {
    let avail = vec!["llama3:8b".to_string(), "qwen2.5:7b".to_string()];
    let m = select_model(Some("mistral:7b".to_string()), &avail, &cfg());
    assert_eq!(m, "qwen2.5:7b");
}

#[test]
fn no_preference_takes_default_when_available() {
    let avail = vec!["llama3:8b".to_string(), "qwen2.5:7b".to_string()];
    let m = select_model(None, &avail, &cfg());
    assert_eq!(m, "qwen2.5:7b");
}

#[test]
fn default_absent_takes_first_listed() {
    let avail = vec!["llama3:8b".to_string(), "phi3:mini".to_string()];
    let m = select_model(None, &avail, &cfg());
    assert_eq!(m, "llama3:8b");
}

#[test]
fn preferred_and_default_absent_takes_first_listed() {
    let avail = vec!["llama3:8b".to_string(), "phi3:mini".to_string()];
    let m = select_model(Some("mistral:7b".to_string()), &avail, &cfg());
    assert_eq!(m, "llama3:8b");
}

#[test]
fn empty_listing_yields_last_resort() {
    let avail: Vec<String> = Vec::new();
    let m = select_model(None, &avail, &cfg());
    assert_eq!(m, "neural-chat");
}

#[test]
fn empty_listing_ignores_preference() {
    let avail: Vec<String> = Vec::new();
    let m = select_model(Some("qwen2.5:7b".to_string()), &avail, &cfg());
    assert_eq!(m, "neural-chat");
}

#[test]
fn preferred_equal_to_default_is_selected_once_available() {
    let avail = vec!["qwen2.5:7b".to_string()];
    let m = select_model(Some("qwen2.5:7b".to_string()), &avail, &cfg());
    assert_eq!(m, "qwen2.5:7b");
}
