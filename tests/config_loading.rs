use gemini_processor::config::{missing_file_error, normalize_prompt, parse_config, validate_api_key};
use gemini_processor::error::AppError;

#[test]
fn missing_section_is_a_config_error() {
    let r = parse_config("[Other]\nApiKey = sk-or-v1-abc\n");
    assert!(matches!(r, Err(AppError::Config(_))));
}

#[test]
fn missing_api_key_is_a_config_error() {
    let r = parse_config("[Gemini]\nSystemPrompt = hi\n");
    assert!(matches!(r, Err(AppError::Config(_))));
}

#[test]
fn empty_api_key_is_rejected() {
    let r = parse_config("[Gemini]\nApiKey =\n");
    assert!(matches!(r, Err(AppError::Config(_))));
}

#[test]
fn api_key_without_prefix_is_rejected() {
    let r = parse_config("[Gemini]\nApiKey = sk-other-123\n");
    assert!(matches!(r, Err(AppError::Config(_))));
    assert!(matches!(validate_api_key("sk-or-v1"), Err(AppError::Config(_))));
    assert!(matches!(validate_api_key(""), Err(AppError::Config(_))));
    assert!(matches!(validate_api_key("x sk-or-v1-abc"), Err(AppError::Config(_))));
}

#[test]
fn api_key_is_trimmed_and_kept() {
    let c = validate_api_key("  sk-or-v1-abc\t\n").unwrap();
    assert_eq!(c, "sk-or-v1-abc");
    let cfg = parse_config("[Gemini]\nApiKey =   sk-or-v1-xyz  \n").unwrap();
    assert_eq!(cfg.api_key, "sk-or-v1-xyz");
    assert_eq!(cfg.system_prompt, None);
}

#[test]
fn blank_system_prompt_is_absent() {
    let cfg = parse_config("[Gemini]\nApiKey = sk-or-v1-k\nSystemPrompt =    \n").unwrap();
    assert_eq!(cfg.system_prompt, None);
    assert_eq!(normalize_prompt(Some(" \t ")), None);
    assert_eq!(normalize_prompt(Some("")), None);
    assert_eq!(normalize_prompt(None), None);
}

#[test]
fn system_prompt_is_trimmed() {
    let cfg = parse_config("[Gemini]\nApiKey = sk-or-v1-k\nSystemPrompt =  Be concise.  \n").unwrap();
    assert_eq!(cfg.api_key, "sk-or-v1-k");
    assert_eq!(cfg.system_prompt.as_deref(), Some("Be concise."));
}

#[test]
fn unicode_whitespace_is_trimmed() {
    let c = validate_api_key("\u{3000}sk-or-v1-abc\u{a0}").unwrap();
    assert_eq!(c, "sk-or-v1-abc");
}

#[test]
fn missing_file_names_the_path() {
    let e = missing_file_error("/opt/app/config.ini");
    match e {
        AppError::Config(m) => assert_eq!(m, "Config file not found at /opt/app/config.ini"),
        other => panic!("unexpected {:?}", other),
    }
}

#[test]
fn error_message_has_heading() {
    let e = AppError::Api("boom".to_string());
    assert_eq!(e.message(), "API request error: boom");
    assert_eq!(e.detail(), "boom");
    let e = AppError::Config("x".to_string());
    assert_eq!(e.message(), "Configuration error: x");
}

#[test]
fn byte_order_mark_is_skipped() {
    let cfg = parse_config("\u{feff}[Gemini]\nApiKey = sk-or-v1-bom\n").unwrap();
    assert_eq!(cfg.api_key, "sk-or-v1-bom");
    assert_eq!(gemini_processor::config::strip_bom("\u{feff}ab"), "ab");
    assert_eq!(gemini_processor::config::strip_bom("ab"), "ab");
}
