use proximityd::cli::export::{export_format, export_rows, ExportFormat, SignalRow, CSV_HEADER};
use proximityd::cli::limits::{LimitError, MemoryLimit};
use proximityd::cli::logging::{log_as_json, resolve_log_level};

fn row() -> SignalRow {
    SignalRow {
        ts: "2024-01-01T00:00:00Z".to_string(),
        scanner: "ble".to_string(),
        id_type: "ble_mac".to_string(),
        id_value: "aa:bb".to_string(),
        rssi: Some(-60),
        party_name: None,
        device_name: Some("Phone \"A\"".to_string()),
        location_building: Some("Home".to_string()),
        location_floor: Some(2),
        location_room: None,
        location_zone: None,
    }
}

#[test]
fn export_format_names() {
    assert_eq!(export_format("jsonl"), Ok(ExportFormat::Jsonl));
    assert_eq!(export_format("csv"), Ok(ExportFormat::Csv));
    assert_eq!(export_format("xml"), Err("Unsupported format: xml. Supported formats: jsonl, csv".to_string()));
}

#[test]
fn csv_export_text() {
    let text = export_rows(ExportFormat::Csv, &vec![row()], &MemoryLimit::new(None)).unwrap();
    assert_eq!(text, format!("{}2024-01-01T00:00:00Z,ble,ble_mac,aa:bb,-60,,Phone \"A\",Home,2,,\n", CSV_HEADER));
}

#[test]
fn empty_exports() {
    assert_eq!(export_rows(ExportFormat::Csv, &vec![], &MemoryLimit::new(Some(0))).unwrap(), CSV_HEADER);
    assert_eq!(export_rows(ExportFormat::Jsonl, &vec![], &MemoryLimit::new(Some(0))).unwrap(), "");
}

#[test]
fn jsonl_export_text() {
    let text = export_rows(ExportFormat::Jsonl, &vec![row()], &MemoryLimit::new(None)).unwrap();
    assert_eq!(
        text,
        "{\"device_name\":\"Phone \\\"A\\\"\",\"id_type\":\"ble_mac\",\"id_value\":\"aa:bb\",\"location\":{\"building\":\"Home\",\"floor\":2,\"room\":null,\"zone\":null},\"party_name\":null,\"rssi\":-60,\"scanner\":\"ble\",\"ts\":\"2024-01-01T00:00:00Z\"}\n"
    );
    let parsed: serde_json::Value = serde_json::from_str(text.trim_end()).unwrap();
    assert_eq!(parsed["location"]["floor"], 2);
}

#[test]
fn export_respects_memory_limit() {
    let rows = vec![row(), row()];
    let full = export_rows(ExportFormat::Csv, &rows, &MemoryLimit::new(None)).unwrap();
    let exact = MemoryLimit::new(Some(full.len() as u64));
    assert!(export_rows(ExportFormat::Csv, &rows, &exact).is_ok());
    let small = MemoryLimit::new(Some(full.len() as u64 - 1));
    assert_eq!(
        export_rows(ExportFormat::Csv, &rows, &small).unwrap_err(),
        LimitError::MemoryLimitExceeded { max: full.len() as u64 - 1 }
    );
}

#[test]
fn log_level_precedence() {
    assert_eq!(resolve_log_level(Some("TRACE"), true, 0, Some("warn")), "TRACE");
    assert_eq!(resolve_log_level(None, true, 2, Some("warn")), "ERROR");
    assert_eq!(resolve_log_level(None, false, 1, Some("warn")), "DEBUG");
    assert_eq!(resolve_log_level(None, false, 3, None), "TRACE");
    assert_eq!(resolve_log_level(None, false, 0, Some("warn")), "warn");
    assert_eq!(resolve_log_level(None, false, 0, None), "INFO");
}

#[test]
fn log_format_choice() {
    assert_eq!(log_as_json(Some("json"), true), (true, false));
    assert_eq!(log_as_json(Some("pretty"), false), (false, false));
    assert_eq!(log_as_json(Some("xml"), false), (true, true));
    assert_eq!(log_as_json(None, true), (false, false));
}
