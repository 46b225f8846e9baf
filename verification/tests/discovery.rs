use proximityd::discovery::clusters::find_clusters;
use proximityd::discovery::correlator::{
    group_by_window, identifiers, window_key, windows_of_signals, Correlator, TimeWindow,
};
use proximityd::discovery::report::{cluster_identifiers, infer_id_type};

fn s(x: &str) -> String {
    x.to_string()
}

fn rows() -> Vec<(String, String)> {
    vec![
        (s("w1"), s("A")),
        (s("w1"), s("B")),
        (s("w2"), s("A")),
        (s("w2"), s("B")),
        (s("w3"), s("A")),
        (s("w3"), s("C")),
        (s("w1"), s("A")),
    ]
}

#[test]
fn test_correlator_creation() {
    let correlator = Correlator::new(5);
    assert_eq!(correlator.hours, 5);
}

#[test]
fn windows_group_rows_by_key() {
    let ws = group_by_window(&rows());
    assert_eq!(ws.len(), 3);
    assert_eq!(ws[0].key, "w1");
    assert_eq!(ws[0].ids, vec![s("A"), s("B")]);
    assert_eq!(ws[2].ids, vec![s("A"), s("C")]);
    assert_eq!(identifiers(&ws), vec![s("A"), s("B"), s("C")]);
}

#[test]
fn jaccard_counts() {
    let ws = group_by_window(&rows());
    let c = Correlator::new(24);
    assert_eq!(c.compute_jaccard(&ws, "A", "B"), (2, 3));
    assert_eq!(c.compute_jaccard(&ws, "B", "C"), (0, 3));
    assert_eq!(c.compute_jaccard(&ws, "C", "Z"), (0, 1));
    let pairs = c.pair_overlaps(&ws);
    assert_eq!(pairs.len(), 3);
    let ab = pairs.iter().find(|p| p.id1 == "A" && p.id2 == "B").unwrap();
    assert_eq!((ab.intersection, ab.union), (2, 3));
}

#[test]
fn jaccard_of_empty_windows() {
    let c = Correlator::new(1);
    let ws: Vec<TimeWindow> = Vec::new();
    assert_eq!(c.compute_jaccard(&ws, "A", "B"), (0, 0));
    assert!(c.pair_overlaps(&ws).is_empty());
}

#[test]
fn clusters_are_connected_components() {
    let edges = vec![(s("a"), s("b")), (s("c"), s("d")), (s("b"), s("e")), (s("f"), s("f"))];
    let mut clusters = find_clusters(&edges);
    for c in clusters.iter_mut() {
        c.sort();
    }
    clusters.sort();
    assert_eq!(clusters, vec![vec![s("a"), s("b"), s("e")], vec![s("c"), s("d")], vec![s("f")]]);
    assert!(find_clusters(&[]).is_empty());
}

#[test]
fn test_infer_id_type() {
    assert_eq!(infer_id_type("AA:BB:CC:DD:EE:FF", false, false), "ble_mac");
    assert_eq!(infer_id_type("AA:BB:CC:DD:EE", false, false), "wifi_mac");
    assert_eq!(infer_id_type("192.168.1.1", false, true), "ip_v4");
    assert_eq!(infer_id_type("::1", true, false), "ip_v6");
    assert_eq!(infer_id_type("example.local", false, false), "hostname");
    assert_eq!(infer_id_type("unknown", false, false), "unknown");
}

#[test]
fn cluster_identifiers_guess_types() {
    let cluster = vec![s("AA:BB:CC:DD:EE:FF"), s("fe80::1")];
    let ids = cluster_identifiers(&cluster, &vec![false, true], &vec![false, false]);
    assert_eq!(ids[0].id_type, "ble_mac");
    assert_eq!(ids[1].id_type, "ip_v6");
    assert_eq!(ids[1].id_value, "fe80::1");
    assert!(ids[0].notes.is_none());
}

#[test]
fn test_infer_id_type_ble_mac() {
    assert_eq!(infer_id_type("AA:BB:CC:DD:EE:FF", false, false), "ble_mac");
}

#[test]
fn test_infer_id_type_wifi_mac() {
    assert_eq!(infer_id_type("AA:BB:CC:DD:EE", false, false), "wifi_mac");
}

#[test]
fn test_infer_id_type_ipv4() {
    assert_eq!(infer_id_type("192.168.1.1", false, true), "ip_v4");
}

#[test]
fn test_infer_id_type_ipv6() {
    assert_eq!(infer_id_type("::1", true, false), "ip_v6");
    assert_eq!(infer_id_type("fe80::1", true, false), "ip_v6");
}

#[test]
fn test_infer_id_type_hostname() {
    assert_eq!(infer_id_type("example.local", false, false), "hostname");
    assert_eq!(infer_id_type("my-device.home", false, false), "hostname");
}

#[test]
fn test_infer_id_type_unknown() {
    assert_eq!(infer_id_type("unknown", false, false), "unknown");
}

#[test]
fn window_keys_round_to_five_minutes() {
    assert_eq!(window_key("2024-01-01T12:03:00Z", 5), Some("2024-01-01T12:05:00+00:00".to_string()));
    assert_eq!(window_key("2024-01-01T12:02:00+01:00", 5), Some("2024-01-01T11:00:00+00:00".to_string()));
    assert_eq!(window_key("not a time", 5), None);
    assert_eq!(window_key("2024-01-01T12:07:00Z", 15), Some("2024-01-01T12:00:00+00:00".to_string()));
}

#[test]
fn signals_grouped_into_windows() {
    let rows = vec![
        ("aa".to_string(), "2024-01-01T12:03:00Z".to_string()),
        ("bb".to_string(), "2024-01-01T12:06:00Z".to_string()),
        ("cc".to_string(), "2024-01-01T12:20:00Z".to_string()),
    ];
    let ws = windows_of_signals(&rows).unwrap();
    assert_eq!(ws.len(), 2);
    assert_eq!(ws[0].key, "2024-01-01T12:05:00+00:00");
    assert_eq!(ws[0].ids, vec!["aa".to_string(), "bb".to_string()]);
    assert_eq!(ws[1].key, "2024-01-01T12:20:00+00:00");
    let bad = vec![("aa".to_string(), "2024-01-01T12:03:00Z".to_string()), ("bb".to_string(), "x".to_string())];
    assert!(matches!(windows_of_signals(&bad), Err(1)));
}
