use proximityd::error::error_types;
use proximityd::error::{
    format_error_with_file, StructuredError, EXIT_FILE_NOT_FOUND, EXIT_GENERIC_ERROR, EXIT_NETWORK_ERROR, EXIT_PERMISSION_DENIED,
    EXIT_SIGINT, EXIT_SUCCESS, EXIT_USAGE_ERROR, EXIT_VALIDATION_ERROR,
};
use proximityd::health::{
    check_memory_usage, health_verdict, heartbeat_verdict, rss_entry_of, rss_from_status, verdict_of_read, HealthCheck,
};
use proximityd::text::{parse_u64_reporting, split_whitespace};

#[test]
fn test_exit_code_constants() {
    assert_eq!(EXIT_SUCCESS, 0);
    assert_eq!(EXIT_GENERIC_ERROR, 1);
    assert_eq!(EXIT_USAGE_ERROR, 2);
    assert_eq!(EXIT_NETWORK_ERROR, 3);
    assert_eq!(EXIT_VALIDATION_ERROR, 4);
    assert_eq!(EXIT_FILE_NOT_FOUND, 5);
    assert_eq!(EXIT_PERMISSION_DENIED, 6);
    assert_eq!(EXIT_SIGINT, 130);
}

#[test]
fn test_format_error_with_file() {
    let result = format_error_with_file("Config error", "/tmp/test.rs", Some(10), Some(5));
    assert!(result.contains("Config error"));
    assert!(result.contains("test.rs:10:5"));
    assert_eq!(result, "Config error (/tmp/test.rs:10:5)");
}

#[test]
fn test_structured_error_creation() {
    let error = StructuredError::new("test_type", "test message", 1);
    assert_eq!(error.error_type, "test_type");
    assert_eq!(error.message, "test message");
    assert_eq!(error.exit_code, 1);
    assert!(error.suggestion.is_none());
}

#[test]
fn test_structured_error_with_suggestion() {
    let error = StructuredError::new("test_type", "test message", 1).with_suggestion("Try this instead");
    assert_eq!(error.suggestion, Some("Try this instead".to_string()));
}

#[test]
fn test_structured_error_to_toon() {
    let error = StructuredError::new("test_type", "test message", 1).with_suggestion("Try this instead");
    let toon = error.to_toon();
    assert!(toon.contains("error_type: test_type"));
    assert!(toon.contains("message: test message"));
    assert!(toon.contains("suggestion: Try this instead"));
    assert!(toon.contains("exit_code: 1"));
}

#[test]
fn structured_error_to_toon_exact() {
    let error = StructuredError::new("t", "m", -2);
    assert_eq!(error.to_toon(), "error_type: t\nmessage: m\nexit_code: -2\n");
}

#[test]
fn test_error_types_module() {
    assert_eq!(error_types::CONFIG_ALREADY_EXISTS, "config_already_exists");
    assert_eq!(error_types::CONFIG_NOT_FOUND, "config_not_found");
    assert_eq!(error_types::INVALID_CONFIG, "invalid_config");
    assert_eq!(error_types::PERMISSION_DENIED, "permission_denied");
    assert_eq!(error_types::FILE_NOT_FOUND, "file_not_found");
    assert_eq!(error_types::NETWORK_ERROR, "network_error");
    assert_eq!(error_types::VALIDATION_ERROR, "validation_error");
    assert_eq!(error_types::USAGE_ERROR, "usage_error");
    assert_eq!(error_types::GENERIC_ERROR, "generic_error");
}

#[test]
fn test_health_check_new_is_not_healthy() {
    let health = HealthCheck::new();
    assert!(!health.is_healthy());
}

#[test]
fn test_health_check_default() {
    let health: HealthCheck = Default::default();
    assert!(!health.is_healthy());
}

#[test]
fn test_health_check_after_scan() {
    let health = HealthCheck::new();
    health.record_scan();
    assert!(health.is_healthy());
    assert!(health.scan_age().is_some());
}

#[test]
fn health_verdict_windows() {
    assert!(!health_verdict(None, None));
    assert!(health_verdict(Some(0), None));
    assert!(health_verdict(Some(0), Some(0)));
}

#[test]
fn health_after_notification_only() {
    let health = HealthCheck::new();
    health.record_notification();
    assert!(!health.is_healthy());
    assert!(health.notification_age().is_some());
    assert!(health.scan_age().is_none());
}

#[test]
fn memory_usage_verdicts() {
    assert!(check_memory_usage(None).is_ok());
    assert!(check_memory_usage(Some(1024)).is_ok());
    let err = check_memory_usage(Some(200 * 1024 * 1024)).unwrap_err();
    assert!(err.contains("200.0"), "{}", err);
}

#[test]
fn memory_rounding_matches_float_formatting() {
    for rss in [67371008u64, 67423436, 67633152, 70000000] {
        let m = check_memory_usage(Some(rss)).unwrap_err();
        assert!(m.contains(&format!("{:.1}", rss as f64 / (1024.0 * 1024.0))), "{}", m);
    }
}

#[test]
fn rss_read_from_status_text() {
    let status = "Name:\tproximityd\nVmPeak:\t  9000 kB\nVmRSS:\t    1234 kB\nThreads:\t4\n";
    assert_eq!(rss_entry_of(status), Some((1234, 1024)));
    assert_eq!(rss_from_status(status), Some(1234 * 1024));
}

#[test]
fn rss_units_and_missing_lines() {
    assert_eq!(rss_from_status("VmRSS: 3 MB\n"), Some(3 * 1024 * 1024));
    assert_eq!(rss_from_status("VmRSS: 2 gB"), Some(2 * 1024 * 1024 * 1024));
    assert_eq!(rss_from_status("VmRSS: 7 pages"), Some(7));
    assert_eq!(rss_from_status("VmRSS: 5 \u{212A}B"), Some(5 * 1024));
    assert_eq!(rss_from_status("Name: x\n"), None);
    assert_eq!(rss_from_status("VmRSS: 12\nVmRSS: 4 kB\n"), Some(4 * 1024));
    assert_eq!(rss_from_status("VmRSS: x kB\nVmRSS: 4 kB\n"), None);
    assert_eq!(rss_from_status("VmRSS: 5 kB\r\n"), Some(5 * 1024));
}

#[test]
fn heartbeat_fresh_and_stale() {
    assert_eq!(heartbeat_verdict("1000\n", 1100), Ok(()));
    assert_eq!(heartbeat_verdict("1000", 1120), Ok(()));
    assert_eq!(
        heartbeat_verdict("1000", 1150),
        Err("Health check failed: last scan was 150s ago (threshold: 120s)".to_string())
    );
    assert_eq!(heartbeat_verdict("5000", 1000), Ok(()));
}

#[test]
fn heartbeat_invalid_contents() {
    assert_eq!(
        heartbeat_verdict("  ", 10),
        Err("Invalid health file contents: cannot parse integer from empty string".to_string())
    );
    assert_eq!(
        heartbeat_verdict("12a", 10),
        Err("Invalid health file contents: invalid digit found in string".to_string())
    );
    assert_eq!(
        heartbeat_verdict("99999999999999999999", 10),
        Err("Invalid health file contents: number too large to fit in target type".to_string())
    );
}

#[test]
fn parse_u64_matches_std() {
    for text in ["", "+", "-", "+7", "-7", "007", "18446744073709551615", "18446744073709551616", "1x", "99999999999999999999x", " 1"] {
        let expected = text.parse::<u64>().map_err(|e| e.to_string());
        assert_eq!(parse_u64_reporting(text), expected, "{:?}", text);
    }
}

#[test]
fn split_whitespace_matches_std() {
    for text in ["", "  a  b ", "one", "x\ty\nz", "\u{a0}wide\u{3000}space"] {
        let expected: Vec<String> = text.split_whitespace().map(|w| w.to_string()).collect();
        assert_eq!(split_whitespace(text), expected);
    }
}

#[test]
fn heartbeat_written_stamp_reads_back() {
    let stamp: u64 = 1_700_000_000;
    let text = stamp.to_string();
    assert_eq!(heartbeat_verdict(&text, stamp + 120), Ok(()));
    assert_eq!(heartbeat_verdict(&text, stamp - 5), Ok(()));
    assert_eq!(
        heartbeat_verdict(&text, stamp + 121),
        Err("Health check failed: last scan was 121s ago (threshold: 120s)".to_string())
    );
}

#[test]
fn test_structured_error_to_json() {
    let error = StructuredError::new("test_type", "test message", 1).with_suggestion("Try this instead");
    let json = error.to_json().unwrap();
    assert!(json.contains("test_type"));
    assert!(json.contains("test message"));
    assert!(json.contains("Try this instead"));
    assert!(json.contains("1"));
}

#[test]
fn structured_error_json_exact() {
    let error = StructuredError::new("io", "say \"hi\"\n", -3);
    assert_eq!(
        error.to_json().unwrap(),
        "{\n  \"error_type\": \"io\",\n  \"message\": \"say \\\"hi\\\"\\n\",\n  \"suggestion\": null,\n  \"exit_code\": -3\n}"
    );
}

#[test]
fn json_strings_escaped_as_serde_json_does() {
    let msg = "a\u{1}\u{7f}\u{e9}\t\u{8}\u{c}\r\\\"\u{1f}";
    let error = StructuredError::new("t", msg, 0);
    let expected = format!(
        "{{\n  \"error_type\": \"t\",\n  \"message\": {},\n  \"suggestion\": null,\n  \"exit_code\": 0\n}}",
        serde_json::to_string(msg).unwrap()
    );
    assert_eq!(error.to_json().unwrap(), expected);
}

#[test]
fn health_shared_between_clones() {
    let health = HealthCheck::new();
    let clone = health.clone();
    clone.record_scan();
    assert!(health.is_healthy());
    assert!(health.scan_age().is_some());
}

#[test]
fn health_verdict_on_reads() {
    assert!(!verdict_of_read(None));
    assert!(verdict_of_read(Some((Some(5), None))));
    assert!(!verdict_of_read(Some((Some(121_000_000_000), None))));
    assert!(!verdict_of_read(Some((Some(5), Some(601_000_000_000)))));
}
