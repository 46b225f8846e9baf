use proximityd::cli::listing::{
    devices_listing, last_seen_text, location_text, parties_listing, push_padded, status_listing, StatusRow,
};
use proximityd::state::PresenceState;
use proximityd::config::presence::{Device, Location, Party};

fn party(name: &str, location: Option<Location>, devices: Vec<Device>) -> Party {
    Party { name: name.to_string(), location, devices }
}

fn device(name: &str, location: Option<Location>) -> Device {
    Device { name: name.to_string(), location, identifiers: vec![] }
}

#[test]
fn location_text_joins_set_parts() {
    let l = Location { building: Some("Home".to_string()), floor: Some(2), room: None, zone: Some("North".to_string()) };
    assert_eq!(location_text(&l), "Home, Floor 2, North");
    assert_eq!(location_text(&Location::default()), "");
}

#[test]
fn parties_listing_text() {
    let home = Location { building: Some("Home".to_string()), floor: None, room: None, zone: None };
    let parties = vec![party("Alice", Some(home), vec![device("Phone", None)]), party("Bob", Some(Location::default()), vec![])];
    assert_eq!(
        parties_listing(&parties, true, true),
        "Configured Parties\n==================\nTotal parties: 2\n\nName: Alice\n  Devices: 1\n  Location: Home\n\nName: Bob\n  Devices: 0\n\n"
    );
    assert_eq!(parties_listing(&vec![], true, true), "Configured Parties\n==================\nTotal parties: 0\n\nNo parties configured.");
}

#[test]
fn devices_listing_text() {
    let home = Location { building: Some("Home".to_string()), floor: None, room: None, zone: None };
    let office = Location { building: None, floor: Some(3), room: None, zone: None };
    let parties = vec![party("Alice", Some(home), vec![device("Phone", None), device("Laptop", Some(office))]), party("Bob", None, vec![])];
    assert_eq!(
        devices_listing(&parties, true, true, true),
        "Configured Devices\n==================\nTotal devices: 2\n\nName: Phone\n  Identifiers: 0\n  Status: configured\n  Location: Home\n\nName: Laptop\n  Identifiers: 0\n  Status: configured\n  Location: Floor 3\n\n"
    );
    assert_eq!(
        devices_listing(&vec![party("Bob", None, vec![])], false, false, false),
        "Configured Devices\n==================\nTotal devices: 0\n\nNo devices configured."
    );
}

#[test]
fn last_seen_units() {
    assert_eq!(last_seen_text(59), "59s");
    assert_eq!(last_seen_text(60), "1m");
    assert_eq!(last_seen_text(3599), "59m");
    assert_eq!(last_seen_text(7300), "2h");
}

#[test]
fn padding_matches_format_width() {
    let mut s = String::new();
    push_padded(&mut s, "ab", 5);
    assert_eq!(s, format!("{:<5}", "ab"));
    push_padded(&mut s, "toolong", 3);
    assert_eq!(s, format!("{:<5}{:<3}", "ab", "toolong"));
}

#[test]
fn status_listing_empty() {
    assert_eq!(
        status_listing(&vec![], true, true, true),
        "Presence Status\n================\nDaemon Status: running\nActive Parties: 0\nActive Devices: 0\n\nNo devices currently present."
    );
    assert_eq!(
        status_listing(&vec![], false, true, false),
        "Presence Status\n================\nActive Parties: 0\n\nNo devices currently present."
    );
}

#[test]
fn status_listing_rows() {
    let rows = vec![
        StatusRow { name: String::new(), mac: "AA:BB".to_string(), state: PresenceState::Entered, last_seen_secs: 90, rssi: -60 },
        StatusRow { name: "Phone".to_string(), mac: "CC:DD".to_string(), state: PresenceState::Pending, last_seen_secs: 5, rssi: -70 },
    ];
    let mut expected = String::new();
    expected.push_str("Presence Status\n================\nDaemon Status: running\nActive Parties: 2\nActive Devices: 2\n\n");
    expected.push_str(&format!("{:<20} {:<20} {:<10} {:<15} {:<10}\n", "Name", "MAC", "State", "Last Seen", "RSSI"));
    expected.push_str(&"-".repeat(85));
    expected.push('\n');
    expected.push_str(&format!("{:<20} {:<20} {:<10} {:<15} {:<10}\n", "AA:BB", "AA:BB", "Entered", "1m", -60));
    expected.push_str(&format!("{:<20} {:<20} {:<10} {:<15} {:<10}\n", "Phone", "CC:DD", "Pending", "5s", -70));
    assert_eq!(status_listing(&rows, true, true, true), expected);
}
