use proximityd::cli::keys::KeyCode;
use proximityd::cli::tui::config::{
    apply_detection_settings, apply_general_settings, apply_notifier_settings, apply_privacy_settings, apply_scanner_settings,
    create_detection_editor, create_general_editor,
    create_notifier_editor, create_privacy_editor, create_scanner_editor, FieldType, FormEditor, FormField, SettingsError,
};
use proximityd::cli::tui::form_view::{Role, Styled};
use proximityd::config::app::{DetectionConfig, GeneralConfig, NotifierConfig, PrivacyConfig, ScannerConfig};

fn field(name: &str, field_type: FieldType, value: &str) -> FormField {
    FormField::new(name.to_string(), "Test Field".to_string(), "Help text".to_string(), field_type, value.to_string())
}

#[test]
fn test_form_field_creation() {
    let field = field("test", FieldType::Text, "value");
    assert_eq!(field.name, "test");
    assert_eq!(field.value, "value");
    assert!(!field.is_modified());
}

#[test]
fn test_form_field_modified() {
    let mut field = field("test", FieldType::Text, "value");
    assert!(!field.is_modified());
    field.value = "new_value".to_string();
    assert!(field.is_modified());
}

#[test]
fn test_form_field_validation_text() {
    let mut field = field("test", FieldType::Text, "value");
    assert!(field.validate());
    assert!(field.error.is_none());
}

#[test]
fn test_form_field_validation_number_valid() {
    let mut field = field("test", FieldType::Number, "42");
    assert!(field.validate());
    assert!(field.error.is_none());
}

#[test]
fn test_form_field_validation_number_invalid() {
    let mut field = field("test", FieldType::Number, "not_a_number");
    assert!(!field.validate());
    assert!(field.error.is_some());
}

#[test]
fn test_form_field_validation_select_valid() {
    let mut field = field("test", FieldType::Select(vec!["option1", "option2"]), "option1");
    assert!(field.validate());
    assert!(field.error.is_none());
}

#[test]
fn test_form_field_validation_select_invalid() {
    let mut field = field("test", FieldType::Select(vec!["option1", "option2"]), "invalid");
    assert!(!field.validate());
    assert!(field.error.is_some());
}

#[test]
fn test_form_editor_creation() {
    let editor = FormEditor::new("Test Editor".to_string());
    assert_eq!(editor.title, "Test Editor");
    assert_eq!(editor.selected_field, 0);
    assert!(!editor.editing);
    assert!(!editor.dirty);
}

#[test]
fn test_form_editor_add_field() {
    let mut editor = FormEditor::new("Test Editor".to_string());
    editor.add_field(field("test", FieldType::Text, "value"));
    assert_eq!(editor.fields.len(), 1);
}

#[test]
fn test_form_editor_get_field_value() {
    let mut editor = FormEditor::new("Test Editor".to_string());
    editor.add_field(field("test", FieldType::Text, "value"));
    assert_eq!(editor.get_field_value("test"), Some("value".to_string()));
    assert_eq!(editor.get_field_value("nonexistent"), None);
}

#[test]
fn test_form_editor_set_field_value() {
    let mut editor = FormEditor::new("Test Editor".to_string());
    editor.add_field(field("test", FieldType::Text, "value"));
    editor.set_field_value("test", "new_value".to_string());
    assert_eq!(editor.get_field_value("test"), Some("new_value".to_string()));
    assert!(editor.dirty);
}

#[test]
fn test_form_editor_has_changes() {
    let mut editor = FormEditor::new("Test Editor".to_string());
    editor.add_field(field("test", FieldType::Text, "value"));
    assert!(!editor.has_changes());
    editor.set_field_value("test", "new_value".to_string());
    assert!(editor.has_changes());
}

#[test]
fn test_form_editor_validate_all() {
    let mut editor = FormEditor::new("Test Editor".to_string());
    editor.add_field(field("test", FieldType::Number, "42"));
    assert!(editor.validate_all());
}

#[test]
fn test_form_editor_validate_all_invalid() {
    let mut editor = FormEditor::new("Test Editor".to_string());
    editor.add_field(field("test", FieldType::Number, "not_a_number"));
    assert!(!editor.validate_all());
}

#[test]
fn test_form_editor_navigation() {
    let mut editor = FormEditor::new("Test Editor".to_string());
    editor.add_field(field("field1", FieldType::Text, "value1"));
    editor.add_field(field("field2", FieldType::Text, "value2"));
    editor.handle_key(KeyCode::Down);
    assert_eq!(editor.selected_field, 1);
    editor.handle_key(KeyCode::Up);
    assert_eq!(editor.selected_field, 0);
}

#[test]
fn test_form_editor_boolean_toggle() {
    let mut editor = FormEditor::new("Test Editor".to_string());
    editor.add_field(field("test", FieldType::Boolean, "false"));
    editor.handle_key(KeyCode::Enter);
    assert_eq!(editor.get_field_value("test"), Some("true".to_string()));
    editor.handle_key(KeyCode::Enter);
    assert_eq!(editor.get_field_value("test"), Some("false".to_string()));
}

#[test]
fn test_form_editor_select_cycle() {
    let mut editor = FormEditor::new("Test Editor".to_string());
    editor.add_field(field("test", FieldType::Select(vec!["opt1", "opt2", "opt3"]), "opt1"));
    editor.handle_key(KeyCode::Enter);
    assert_eq!(editor.get_field_value("test"), Some("opt2".to_string()));
    editor.handle_key(KeyCode::Enter);
    assert_eq!(editor.get_field_value("test"), Some("opt3".to_string()));
    editor.handle_key(KeyCode::Enter);
    assert_eq!(editor.get_field_value("test"), Some("opt1".to_string()));
}

#[test]
fn form_editor_text_editing() {
    let mut editor = FormEditor::new("Test Editor".to_string());
    editor.add_field(field("test", FieldType::Text, "ab"));
    editor.handle_key(KeyCode::Enter);
    assert!(editor.editing);
    editor.handle_key(KeyCode::Char('c'));
    editor.handle_key(KeyCode::Enter);
    assert!(!editor.editing);
    assert_eq!(editor.get_field_value("test"), Some("abc".to_string()));
    assert!(editor.has_changes());
}

#[test]
fn test_create_general_editor() {
    let config = GeneralConfig::default();
    let editor = create_general_editor(&config);
    assert_eq!(editor.title, "General Settings");
    assert!(editor.get_field_value("log_level").is_some());
    assert!(editor.get_field_value("max_log_age_days").is_some());
    assert!(editor.get_field_value("config_reload").is_some());
}

#[test]
fn test_create_privacy_editor() {
    let config = PrivacyConfig::default();
    let editor = create_privacy_editor(&config);
    assert_eq!(editor.title, "Privacy Settings");
    assert!(editor.get_field_value("privacy_mode").is_some());
    assert!(editor.get_field_value("anonymous").is_some());
}

#[test]
fn test_create_scanner_editor() {
    let config = ScannerConfig::default();
    let editor = create_scanner_editor("ble", &config);
    assert_eq!(editor.title, "Scanner: ble");
    assert!(editor.get_field_value("enabled").is_some());
    assert!(editor.get_field_value("scan_interval_sec").is_some());
}

#[test]
fn test_create_detection_editor() {
    let config = DetectionConfig::default();
    let editor = create_detection_editor(&config);
    assert_eq!(editor.title, "Detection Settings");
    assert!(editor.get_field_value("enter_debounce_sec").is_some());
    assert!(editor.get_field_value("exit_debounce_sec").is_some());
}

#[test]
fn test_create_notifier_editor() {
    let config = NotifierConfig::default();
    let editor = create_notifier_editor(&config, 0);
    assert_eq!(editor.title, "Notifier #1");
    assert!(editor.get_field_value("kind").is_some());
    assert!(editor.get_field_value("webhook_url").is_some());
}

#[test]
fn test_apply_general_settings() {
    let mut editor = FormEditor::new("Test".to_string());
    editor.add_field(FormField::new("log_level".to_string(), "Log Level".to_string(), "Help".to_string(), FieldType::Select(vec!["info", "debug"]), "debug".to_string()));
    editor.add_field(FormField::new("max_log_age_days".to_string(), "Max Log Age".to_string(), "Help".to_string(), FieldType::Number, "14".to_string()));
    editor.add_field(FormField::new("config_reload".to_string(), "Config Reload".to_string(), "Help".to_string(), FieldType::Boolean, "false".to_string()));
    let mut config = GeneralConfig::default();
    apply_general_settings(&editor, &mut config).unwrap();
    assert_eq!(config.log_level, "debug");
    assert_eq!(config.max_log_age_days, 14);
    assert_eq!(config.config_reload, false);
}

#[test]
fn test_apply_privacy_settings() {
    let mut editor = FormEditor::new("Test".to_string());
    editor.add_field(FormField::new("privacy_mode".to_string(), "Privacy Mode".to_string(), "Help".to_string(), FieldType::Boolean, "true".to_string()));
    editor.add_field(FormField::new("anonymous".to_string(), "Anonymous".to_string(), "Help".to_string(), FieldType::Text, "id1,id2,id3".to_string()));
    let mut config = PrivacyConfig::default();
    apply_privacy_settings(&editor, &mut config).unwrap();
    assert!(config.privacy_mode);
    assert_eq!(config.anonymous, vec!["id1", "id2", "id3"]);
}

#[test]
fn apply_settings_errors() {
    let editor = FormEditor::new("Empty".to_string());
    let mut config = GeneralConfig::default();
    assert_eq!(apply_general_settings(&editor, &mut config), Err(SettingsError::Missing("log_level")));
    let mut editor = FormEditor::new("Bad".to_string());
    editor.add_field(FormField::new("enter_debounce_sec".to_string(), "E".to_string(), "H".to_string(), FieldType::Number, "soon".to_string()));
    let mut detection = DetectionConfig::default();
    assert_eq!(apply_detection_settings(&editor, &mut detection), Err(SettingsError::Invalid("enter_debounce_sec")));
    assert_eq!(SettingsError::Missing("x").message(), "Missing x");
}

fn piece(text: &str, role: Role) -> Styled {
    Styled { text: text.to_string(), role }
}

#[test]
fn form_body_lines() {
    let mut editor = FormEditor::new("Test Editor".to_string());
    editor.add_field(field("a", FieldType::Text, "x"));
    let mut second = field("b", FieldType::Number, "y");
    assert!(!second.validate());
    second.value = "z".to_string();
    editor.add_field(second);
    let body = editor.body();
    assert_eq!(
        body,
        vec![
            vec![piece("Test Field: ", Role::Selected), piece("x", Role::Plain)],
            vec![piece("  ", Role::Plain), piece("Help text", Role::Muted)],
            vec![piece("", Role::Plain)],
            vec![piece("Test Field: ", Role::Plain), piece("z", Role::Modified)],
            vec![piece("  ", Role::Plain), piece("Must be a number", Role::Error)],
            vec![piece("", Role::Plain)],
        ]
    );
}

#[test]
fn form_status_line() {
    let mut editor = FormEditor::new("Test Editor".to_string());
    assert_eq!(editor.status(), vec![piece("Enter=Edit, Esc=Back", Role::Plain), piece("", Role::Plain)]);
    editor.dirty = true;
    assert_eq!(editor.status(), vec![piece("Enter=Edit, Esc=Back", Role::Plain), piece(" | Modified", Role::Modified)]);
    editor.editing = true;
    assert_eq!(editor.status(), vec![piece("Editing: ", Role::Accent), piece("Enter=Save, Esc=Cancel", Role::Plain)]);
    editor.save_message = Some("Saved".to_string());
    assert_eq!(editor.status(), vec![piece("Saved", Role::Success)]);
}

#[test]
fn form_cursor_counts_bytes() {
    let mut editor = FormEditor::new("Test Editor".to_string());
    editor.add_field(field("t", FieldType::Text, "\u{e9}"));
    editor.handle_key(KeyCode::Enter);
    assert!(editor.editing);
    assert_eq!(editor.cursor_position, 2);
    editor.handle_key(KeyCode::Char('x'));
    assert_eq!(editor.fields[0].value, "\u{e9}x");
    assert_eq!(editor.cursor_position, 3);
    editor.handle_key(KeyCode::Backspace);
    assert_eq!(editor.fields[0].value, "\u{e9}");
    assert_eq!(editor.cursor_position, 2);
    editor.handle_key(KeyCode::Left);
    editor.handle_key(KeyCode::Left);
    assert_eq!(editor.cursor_position, 0);
    editor.handle_key(KeyCode::Delete);
    assert_eq!(editor.fields[0].value, "");
}

#[test]
fn general_settings_round_trip() {
    let c = GeneralConfig { log_level: "debug".to_string(), max_log_age_days: 14, config_reload: false };
    let editor = create_general_editor(&c);
    let mut out = GeneralConfig::default();
    assert!(apply_general_settings(&editor, &mut out).is_ok());
    assert_eq!((out.log_level.as_str(), out.max_log_age_days, out.config_reload), ("debug", 14, false));
}

#[test]
fn scanner_settings_round_trip() {
    let c = ScannerConfig { enabled: false, scan_interval_sec: 45, router_ip: Some("10.0.0.1".to_string()), snmp_community: "private".to_string(), subnet: None };
    let editor = create_scanner_editor("wifi", &c);
    let mut out = ScannerConfig::default();
    out.subnet = Some("x".to_string());
    assert!(apply_scanner_settings(&editor, &mut out).is_ok());
    assert!(!out.enabled);
    assert_eq!(out.scan_interval_sec, 45);
    assert_eq!(out.router_ip, Some("10.0.0.1".to_string()));
    assert_eq!(out.snmp_community, "private");
    assert_eq!(out.subnet, None);
}

#[test]
fn notifier_settings_round_trip() {
    let mut c = NotifierConfig::default();
    c.kind = "mqtt".to_string();
    c.broker = "localhost".to_string();
    c.port = 1883;
    c.topic = "presence".to_string();
    c.include_mac = true;
    let editor = create_notifier_editor(&c, 0);
    let mut out = NotifierConfig::default();
    out.payload_template = "{}".to_string();
    assert!(apply_notifier_settings(&editor, &mut out).is_ok());
    assert_eq!(out.kind, "mqtt");
    assert_eq!(out.broker, "localhost");
    assert_eq!(out.port, 1883);
    assert_eq!(out.topic, "presence");
    assert!(out.include_mac);
    assert_eq!(out.payload_template, "{}");
}
