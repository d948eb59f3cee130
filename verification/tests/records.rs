use whisperme_core::callback::{clone_text, lookup, CallbackData};
use whisperme_core::listener::page_for;
use whisperme_core::text::{decimal_string, same_text};
use whisperme_core::tokens::{get_stored_tokens, review_tokens};

fn pairs(items: &[(&str, &str)]) -> Vec<(String, String)> {
    items.iter().map(|(k, v)| (k.to_string(), v.to_string())).collect()
}

#[test]
fn lookup_finds_the_last_pair_of_a_name() {
    let p = pairs(&[("code", "first"), ("state", "s"), ("code", "second")]);
    assert_eq!(lookup(&p, "code"), Some("second".to_string()));
    assert_eq!(lookup(&p, "state"), Some("s".to_string()));
    assert_eq!(lookup(&p, "error"), None);
    assert_eq!(lookup(&Vec::new(), "code"), None);
}

#[test]
fn lookup_matches_whole_names_only() {
    let p = pairs(&[("codex", "a"), ("cod", "b"), ("Code", "c"), ("", "d")]);
    assert_eq!(lookup(&p, "code"), None);
    assert_eq!(lookup(&p, ""), Some("d".to_string()));
}

#[test]
fn record_is_built_from_pairs() {
    let record = CallbackData::from_query_pairs(&pairs(&[
        ("state", "xyz"),
        ("code", "abc123"),
        ("other", "ignored"),
    ]));
    assert_eq!(record.code, Some("abc123".to_string()));
    assert_eq!(record.state, Some("xyz".to_string()));
    assert_eq!(record.error, None);
}

#[test]
fn record_keeps_empty_values() {
    let record = CallbackData::from_query_pairs(&pairs(&[("code", ""), ("error", "")]));
    assert_eq!(record.code, Some(String::new()));
    assert_eq!(record.error, Some(String::new()));
    assert!(page_for(&record).contains("Authentication Failed"));
}

#[test]
fn page_follows_the_precedence() {
    let both = CallbackData { code: Some("c".into()), state: None, error: Some("e".into()) };
    let code = CallbackData { code: Some("c".into()), state: None, error: None };
    let none = CallbackData { code: None, state: Some("s".into()), error: None };
    assert!(page_for(&both).contains("<h1>Authentication Failed</h1>"));
    assert!(page_for(&code).contains("<h1>Authentication Successful</h1>"));
    assert!(page_for(&none).contains("<h1>Authentication Error</h1>"));
    assert!(page_for(&none).contains("Missing authorization code."));
}

#[test]
fn record_is_written_as_json() {
    let record = CallbackData {
        code: Some("abc123".to_string()),
        state: Some("xyz".to_string()),
        error: None,
    };
    assert_eq!(record.to_json(), "{\"code\":\"abc123\",\"error\":null,\"state\":\"xyz\"}");
    let empty = CallbackData { code: None, state: None, error: None };
    assert_eq!(empty.to_json(), "{\"code\":null,\"error\":null,\"state\":null}");
}

#[test]
fn json_escapes_what_must_be_escaped() {
    let record = CallbackData {
        code: None,
        state: None,
        error: Some("say \"no\"\n\\".to_string()),
    };
    let json = record.to_json();
    assert_eq!(json, "{\"code\":null,\"error\":\"say \\\"no\\\"\\n\\\\\",\"state\":null}");
    let value: serde_json::Value = serde_json::from_str(&json).unwrap();
    assert_eq!(value["error"], serde_json::Value::String("say \"no\"\n\\".to_string()));
}

#[test]
fn record_clone_is_equal() {
    let record = CallbackData { code: Some("c".into()), state: None, error: Some("e".into()) };
    let copy = record.clone();
    assert_eq!(copy.code, record.code);
    assert_eq!(copy.state, record.state);
    assert_eq!(copy.error, record.error);
    assert_eq!(clone_text(&None), None);
    assert_eq!(clone_text(&Some("x".to_string())), Some("x".to_string()));
}

#[test]
fn numbers_are_written_in_decimal() {
    assert_eq!(decimal_string(0), "0");
    assert_eq!(decimal_string(7), "7");
    assert_eq!(decimal_string(10), "10");
    assert_eq!(decimal_string(109), "109");
    assert_eq!(decimal_string(9999), "9999");
    assert_eq!(decimal_string(65535), "65535");
    for n in [1u16, 42, 100, 1000, 8080, 12345, 60000] {
        assert_eq!(decimal_string(n), n.to_string());
    }
}

#[test]
fn texts_are_compared_by_characters() {
    assert!(same_text("/callback", "/callback"));
    assert!(!same_text("/callback", "/callback/"));
    assert!(!same_text("/callback", "/Callback"));
    assert!(same_text("", ""));
}

#[test]
fn stored_tokens_are_handed_out_if_they_are_json() {
    let content = "{\"access_token\":\"SECRET-REDACTED\",\"expires\":3600}".to_string();
    let found = get_stored_tokens(Some(content.clone()));
    assert_eq!(found.tokens, Some(content));
    assert!(!found.remove_file);
    let scalar = get_stored_tokens(Some("null".to_string()));
    assert_eq!(scalar.tokens, Some("null".to_string()));
    assert!(!scalar.remove_file);
}

#[test]
fn stored_tokens_that_are_no_json_are_removed() {
    for bad in ["", "{", "not json", "{\"a\":1} trailing", "{'a':1}"] {
        let found = get_stored_tokens(Some(bad.to_string()));
        assert_eq!(found.tokens, None, "{}", bad);
        assert!(found.remove_file, "{}", bad);
    }
}

#[test]
fn missing_token_file_gives_nothing() {
    let found = get_stored_tokens(None);
    assert_eq!(found.tokens, None);
    assert!(!found.remove_file);
}

#[test]
fn review_follows_the_verdict() {
    let kept = review_tokens("{}".to_string(), true);
    assert_eq!(kept.tokens, Some("{}".to_string()));
    assert!(!kept.remove_file);
    let dropped = review_tokens("{}".to_string(), false);
    assert_eq!(dropped.tokens, None);
    assert!(dropped.remove_file);
}
