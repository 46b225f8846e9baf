use proximityd::agent_settings::{
    parse_json, register_session_hook, with_session_hook, HookEditError, JsonValue, SettingsEditError,
};

fn hook_of(v: &serde_json::Value) -> Option<&str> {
    v.get("command").and_then(|c| c.as_str())
}

#[test]
fn hook_registered_in_fresh_settings() {
    let text = register_session_hook(None, "/usr/bin/proximityd", true).unwrap();
    let v: serde_json::Value = serde_json::from_str(&text).unwrap();
    assert_eq!(hook_of(&v["hooks"]["session-start"]), Some("/usr/bin/proximityd session-context --format toon"));
    let text = register_session_hook(None, "/bin/p", false).unwrap();
    let v: serde_json::Value = serde_json::from_str(&text).unwrap();
    assert_eq!(hook_of(&v["session-start"]), Some("/bin/p session-context --format toon"));
}

#[test]
fn hook_keeps_other_settings() {
    let existing = r#"{"theme": "dark", "hooks": {"other": {"command": "x"}, "session-start": {"command": "old"}}}"#;
    let text = register_session_hook(Some(existing), "/bin/p", true).unwrap();
    let v: serde_json::Value = serde_json::from_str(&text).unwrap();
    assert_eq!(v["theme"], "dark");
    assert_eq!(hook_of(&v["hooks"]["other"]), Some("x"));
    assert_eq!(hook_of(&v["hooks"]["session-start"]), Some("/bin/p session-context --format toon"));
    let text = register_session_hook(Some("null"), "/bin/p", true).unwrap();
    let v: serde_json::Value = serde_json::from_str(&text).unwrap();
    assert_eq!(hook_of(&v["hooks"]["session-start"]), Some("/bin/p session-context --format toon"));
    let text = register_session_hook(Some(r#"{"hooks": null}"#), "/bin/p", true).unwrap();
    let v: serde_json::Value = serde_json::from_str(&text).unwrap();
    assert_eq!(hook_of(&v["hooks"]["session-start"]), Some("/bin/p session-context --format toon"));
}

#[test]
fn hook_refusals() {
    assert_eq!(register_session_hook(Some("{"), "/bin/p", true), Err(SettingsEditError::Unparsable));
    assert_eq!(
        register_session_hook(Some("[1, 2]"), "/bin/p", false),
        Err(SettingsEditError::Edit(HookEditError::SettingsNotAnObject))
    );
    assert_eq!(
        register_session_hook(Some(r#"{"hooks": 3}"#), "/bin/p", true),
        Err(SettingsEditError::Edit(HookEditError::HooksNotAnObject))
    );
}

#[test]
fn hook_edit_on_model() {
    let settings = JsonValue::Object(vec![("a".to_string(), JsonValue::Bool(true))]);
    let r = with_session_hook(settings, "cmd", false).unwrap();
    let hook = JsonValue::Object(vec![("command".to_string(), JsonValue::Str("cmd".to_string()))]);
    assert_eq!(
        r,
        JsonValue::Object(vec![("a".to_string(), JsonValue::Bool(true)), ("session-start".to_string(), hook)])
    );
    assert!(parse_json("{\"k\": [1, \"two\", null]}").is_some());
    assert!(parse_json("nope").is_none());
}
