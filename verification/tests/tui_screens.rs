use proximityd::cli::keys::KeyCode;
use proximityd::cli::tui::{Screen, TuiApp};
use proximityd::cli::tui::notifier::{notifier_plan, NotifierPlan, NotifierTestManager, TestResult};
use proximityd::config::app::NotifierConfig;

#[test]
fn test_tui_app_creation() {
    let app = TuiApp::new();
    assert_eq!(app.current_screen(), Screen::MainMenu);
    assert_eq!(app.selected, 0);
    assert!(!app.should_exit);
}

#[test]
fn test_tui_app_default() {
    let app = TuiApp::default();
    assert_eq!(app.current_screen(), Screen::MainMenu);
    assert_eq!(app.selected, 0);
    assert!(!app.should_exit);
}

#[test]
fn test_screen_navigation() {
    let mut app = TuiApp::new();
    assert_eq!(app.current_screen(), Screen::MainMenu);
    app.push_screen(Screen::Config);
    assert_eq!(app.current_screen(), Screen::Config);
    assert_eq!(app.selected, 0);
    app.pop_screen();
    assert_eq!(app.current_screen(), Screen::MainMenu);
}

#[test]
fn test_screen_stack() {
    let mut app = TuiApp::new();
    app.push_screen(Screen::Config);
    app.push_screen(Screen::Parties);
    app.push_screen(Screen::Devices);
    assert_eq!(app.current_screen(), Screen::Devices);
    app.pop_screen();
    assert_eq!(app.current_screen(), Screen::Parties);
    app.pop_screen();
    assert_eq!(app.current_screen(), Screen::Config);
    app.pop_screen();
    assert_eq!(app.current_screen(), Screen::MainMenu);
}

#[test]
fn pop_screen_keeps_main_menu() {
    let mut app = TuiApp::new();
    app.pop_screen();
    assert_eq!(app.screens.len(), 1);
    assert_eq!(app.current_screen(), Screen::MainMenu);
}

#[test]
fn test_main_menu_items() {
    let items = Screen::main_menu_items();
    assert_eq!(items.len(), 7);
    assert!(items.contains(&"Config"));
    assert!(items.contains(&"Parties"));
    assert!(items.contains(&"Devices"));
    assert!(items.contains(&"Notifiers"));
    assert!(items.contains(&"Test"));
    assert!(items.contains(&"Help"));
    assert!(items.contains(&"Exit"));
}

#[test]
fn test_screen_titles() {
    assert_eq!(Screen::MainMenu.title(), "proximityd Configuration");
    assert_eq!(Screen::Config.title(), "Configuration");
    assert_eq!(Screen::Parties.title(), "Parties");
    assert_eq!(Screen::Devices.title(), "Devices");
    assert_eq!(Screen::Notifiers.title(), "Notifiers");
    assert_eq!(Screen::Test.title(), "Test Notifiers");
    assert_eq!(Screen::Help.title(), "Keyboard Shortcuts");
}

#[test]
fn test_main_menu_navigation() {
    let mut app = TuiApp::new();
    let items = Screen::main_menu_items();
    app.handle_key(KeyCode::Down);
    assert_eq!(app.selected, 1);
    app.handle_key(KeyCode::Down);
    assert_eq!(app.selected, 2);
    app.handle_key(KeyCode::Up);
    assert_eq!(app.selected, 1);
    app.handle_key(KeyCode::Up);
    assert_eq!(app.selected, 0);
    app.handle_key(KeyCode::Up);
    assert_eq!(app.selected, 0);
    for _ in 0..items.len() - 1 {
        app.handle_key(KeyCode::Down);
    }
    assert_eq!(app.selected, items.len() - 1);
    app.handle_key(KeyCode::Down);
    assert_eq!(app.selected, items.len() - 1);
}

#[test]
fn main_menu_enter_opens_screen_and_exit() {
    let mut app = TuiApp::new();
    app.handle_key(KeyCode::Down);
    app.handle_key(KeyCode::Enter);
    assert_eq!(app.current_screen(), Screen::Parties);
    let mut app = TuiApp::new();
    for _ in 0..6 {
        app.handle_key(KeyCode::Down);
    }
    app.handle_key(KeyCode::Enter);
    assert!(app.should_exit);
}

#[test]
fn test_escape_exits_from_main_menu() {
    let mut app = TuiApp::new();
    assert!(!app.should_exit);
    app.handle_key(KeyCode::Esc);
    assert!(app.should_exit);
}

#[test]
fn test_escape_returns_from_subscreen() {
    let mut app = TuiApp::new();
    app.push_screen(Screen::Config);
    assert_eq!(app.current_screen(), Screen::Config);
    app.handle_key(KeyCode::Esc);
    assert_eq!(app.current_screen(), Screen::MainMenu);
    assert!(!app.should_exit);
}

#[test]
fn test_escape_exits_from_main_menu_when_only_screen() {
    let mut app = TuiApp::new();
    assert_eq!(app.screens.len(), 1);
    app.handle_key(KeyCode::Esc);
    assert!(app.should_exit);
}

#[test]
fn test_screen_equality() {
    assert_eq!(Screen::MainMenu, Screen::MainMenu);
    assert_ne!(Screen::MainMenu, Screen::Config);
}

#[test]
fn test_test_result_success() {
    let result = TestResult::Success { message: "Test passed".to_string(), timestamp: "2024-01-01 12:00:00".to_string() };
    assert!(result.is_success());
    assert!(!result.is_loading());
    assert!(result.display_message().starts_with("✓"));
}

#[test]
fn test_test_result_error() {
    let result = TestResult::Error {
        message: "Test failed".to_string(),
        details: "Connection error".to_string(),
        timestamp: "2024-01-01 12:00:00".to_string(),
    };
    assert!(!result.is_success());
    assert!(!result.is_loading());
    assert!(result.display_message().starts_with("✗"));
    assert_eq!(result.error_details(), Some("Connection error".to_string()));
}

#[test]
fn test_test_result_loading() {
    let result = TestResult::Loading;
    assert!(!result.is_success());
    assert!(result.is_loading());
    assert!(result.display_message().contains("Sending"));
}

fn notifier(kind: &str) -> NotifierConfig {
    let mut c = NotifierConfig::default();
    c.kind = kind.to_string();
    c
}

#[test]
fn test_notifier_test_manager_creation() {
    let manager = NotifierTestManager::new(Vec::new());
    assert_eq!(manager.notifier_count(), 0);
    assert_eq!(manager.selected(), 0);
}

#[test]
fn test_notifier_names_empty() {
    let manager = NotifierTestManager::new(Vec::new());
    assert!(manager.notifier_names().is_empty());
}

#[test]
fn test_clear_results() {
    let mut manager = NotifierTestManager::new(Vec::new());
    manager.test_results.push(TestResult::Loading);
    manager.clear_results();
    assert!(manager.test_results.is_empty());
}

#[test]
fn notifier_names_and_selection() {
    let mut manager = NotifierTestManager::new(vec![notifier("discord"), notifier("webhook")]);
    assert_eq!(manager.notifier_names(), vec!["discord (0)".to_string(), "webhook (1)".to_string()]);
    manager.set_selected(1);
    assert_eq!(manager.selected(), 1);
    manager.set_selected(5);
    assert_eq!(manager.selected(), 1);
}

#[test]
fn notifier_test_lifecycle() {
    let mut manager = NotifierTestManager::new(vec![notifier("discord"), notifier("slack")]);
    assert_eq!(manager.start_test(2), Err("Invalid notifier index".to_string()));
    assert!(manager.test_results.is_empty());
    assert_eq!(manager.start_test(1), Ok(()));
    assert_eq!(manager.test_results.len(), 2);
    assert!(manager.test_result(0).unwrap().is_loading());
    assert!(manager.test_result(1).unwrap().is_loading());
    manager.finish_test(1, Err("timeout".to_string()), "2024-01-01 12:00:00".to_string());
    let r = manager.test_result(1).unwrap();
    assert_eq!(r.display_message(), "✗ Failed to send to slack");
    assert_eq!(r.error_details(), Some("timeout".to_string()));
    manager.finish_test(0, Ok(()), "2024-01-01 12:00:01".to_string());
    assert_eq!(manager.test_result(0).unwrap().display_message(), "✓ Test notification sent to discord");
    assert!(manager.test_result(3).is_none());
}

#[test]
fn notifier_plans() {
    let mut d = notifier("discord");
    assert!(matches!(notifier_plan(&d, false), Err(ref m) if m == "Discord notifier requires URL"));
    d.url = "https://u".to_string();
    assert!(matches!(notifier_plan(&d, false), Ok(NotifierPlan::Discord { ref webhook_url }) if webhook_url == "https://u"));
    d.webhook_url = "https://w".to_string();
    assert!(matches!(notifier_plan(&d, false), Ok(NotifierPlan::Discord { ref webhook_url }) if webhook_url == "https://w"));
    let mut w = notifier("webhook");
    w.webhook_url = "https://w".to_string();
    assert!(matches!(notifier_plan(&w, false), Ok(NotifierPlan::Webhook { ref url, ref method, .. }) if url == "https://w" && method == "POST"));
    let mut m = notifier("mqtt");
    assert!(matches!(notifier_plan(&m, false), Err(ref e) if e == "MQTT support is not enabled in this build"));
    assert!(matches!(notifier_plan(&m, true), Err(ref e) if e == "MQTT notifier requires broker"));
    m.broker = "localhost".to_string();
    assert!(matches!(notifier_plan(&m, true), Err(ref e) if e == "MQTT notifier requires topic"));
    m.topic = "presence".to_string();
    assert!(matches!(notifier_plan(&m, true), Ok(NotifierPlan::Mqtt { .. })));
    assert!(matches!(notifier_plan(&notifier("pager"), true), Err(ref e) if e == "Unknown notifier type: pager"));
}

#[test]
fn test_result_timestamps() {
    let ok = TestResult::Success { message: "m".to_string(), timestamp: "2024-01-01 12:00:00".to_string() };
    assert_eq!(ok.timestamp(), "2024-01-01 12:00:00");
    let err = TestResult::Error { message: "m".to_string(), details: "d".to_string(), timestamp: "2024-01-02 08:30:00".to_string() };
    assert_eq!(err.timestamp(), "2024-01-02 08:30:00");
    assert_eq!(TestResult::Loading.timestamp().len(), 19);
}
