use proximityd::cli::tui::presence::{DeviceEditor, IdentifierEditor, IdentifierField, PartyEditor, PresenceManager};
use proximityd::config::devices::{DeviceConfig, DevicesConfig};
use proximityd::config::loader::normalize_presence;
use proximityd::config::migrate::presence_from_legacy;
use proximityd::config::presence::{Device, Identifier, IdentifierType, Location, Party, PresenceConfig};
use proximityd::location::{resolve_location, LocationSource};

fn manager() -> PresenceManager {
    PresenceManager::from_config(PresenceConfig::default())
}

#[test]
fn test_presence_manager_creation() {
    let manager = manager();
    assert_eq!(manager.party_count(), 0);
}

#[test]
fn test_add_party() {
    let mut manager = manager();
    let initial_count = manager.party_count();
    manager.add_party();
    assert_eq!(manager.party_count(), initial_count + 1);
    assert_eq!(manager.selected_party, Some(initial_count));
}

#[test]
fn test_delete_party() {
    let mut manager = manager();
    manager.add_party();
    let initial_count = manager.party_count();
    manager.delete_party();
    assert_eq!(manager.party_count(), initial_count - 1);
    assert_eq!(manager.selected_party, None);
}

#[test]
fn test_add_device() {
    let mut manager = manager();
    manager.add_party();
    manager.add_device();
    assert_eq!(manager.device_count(), 1);
    assert_eq!(manager.selected_device, Some(0));
}

#[test]
fn test_delete_device() {
    let mut manager = manager();
    manager.add_party();
    manager.add_device();
    manager.delete_device();
    assert_eq!(manager.device_count(), 0);
    assert_eq!(manager.selected_device, None);
}

#[test]
fn test_add_identifier() {
    let mut manager = manager();
    manager.add_party();
    manager.add_device();
    manager.add_identifier();
    assert_eq!(manager.identifier_count(), 1);
    assert_eq!(manager.selected_identifier, Some(0));
}

#[test]
fn test_delete_identifier() {
    let mut manager = manager();
    manager.add_party();
    manager.add_device();
    manager.add_identifier();
    manager.delete_identifier();
    assert_eq!(manager.identifier_count(), 0);
    assert_eq!(manager.selected_identifier, None);
}

#[test]
fn test_validate_mac_address() {
    assert!(PresenceManager::validate_identifier(&IdentifierType::BleMac, "aa:bb:cc:dd:ee:ff").is_ok());
    assert!(PresenceManager::validate_identifier(&IdentifierType::BleMac, "invalid").is_err());
}

#[test]
fn test_validate_ipv4() {
    assert!(PresenceManager::validate_identifier(&IdentifierType::IpV4, "192.168.1.1").is_ok());
    assert!(PresenceManager::validate_identifier(&IdentifierType::IpV4, "invalid").is_err());
}

#[test]
fn validate_ipv4_octet_range() {
    let err = PresenceManager::validate_identifier(&IdentifierType::IpV4, "192.168.1.256").unwrap_err();
    assert_eq!(err.message(), "Invalid IPv4 octet: 256");
}

#[test]
fn test_validate_hostname() {
    assert!(PresenceManager::validate_identifier(&IdentifierType::Hostname, "my-device").is_ok());
    assert!(PresenceManager::validate_identifier(&IdentifierType::Hostname, "").is_err());
}

#[test]
fn test_party_editor_from_party() {
    let party = Party {
        name: "Test Party".to_string(),
        location: Some(Location { building: Some("Home".to_string()), floor: Some(1), room: Some("Living Room".to_string()), zone: None }),
        devices: vec![],
    };
    let editor = PartyEditor::from_party(&party);
    assert_eq!(editor.name, "Test Party");
    assert_eq!(editor.location.building, Some("Home".to_string()));
}

#[test]
fn test_device_editor_from_device() {
    let device = Device {
        name: "Test Device".to_string(),
        location: Some(Location { building: Some("Office".to_string()), floor: Some(2), room: Some("Desk".to_string()), zone: None }),
        identifiers: vec![],
    };
    let editor = DeviceEditor::from_device(&device);
    assert_eq!(editor.name, "Test Device");
    assert_eq!(editor.location.building, Some("Office".to_string()));
}

#[test]
fn test_identifier_editor_from_identifier() {
    let identifier = Identifier { name: "BLE MAC".to_string(), id_type: IdentifierType::BleMac, value: "aa:bb:cc:dd:ee:ff".to_string() };
    let editor = IdentifierEditor::from_identifier(&identifier);
    assert_eq!(editor.name, "BLE MAC");
    assert_eq!(editor.id_type, IdentifierType::BleMac);
    assert_eq!(editor.value, "aa:bb:cc:dd:ee:ff");
}

#[test]
fn test_identifier_editor_validation() {
    let mut editor = IdentifierEditor {
        name: "Test".to_string(),
        id_type: IdentifierType::BleMac,
        value: "aa:bb:cc:dd:ee:ff".to_string(),
        editing_field: IdentifierField::Name,
        dirty: false,
    };
    assert!(editor.validate().is_ok());
    editor.value = "invalid".to_string();
    assert!(editor.validate().is_err());
}

#[test]
fn identifier_normalization() {
    assert_eq!(Identifier::normalize_value("  AA:BB:CC:DD:EE:FF  ".to_string()), "aa:bb:cc:dd:ee:ff");
    assert_eq!(Identifier::normalize_value("192.168.1.10".to_string()), "192.168.1.10");
    assert_eq!(Identifier::normalize_value("  My-Device  ".to_string()), "my-device");
}

#[test]
fn normalize_presence_normalizes_every_identifier() {
    let presence = PresenceConfig {
        parties: vec![Party {
            name: "Alice".to_string(),
            location: None,
            devices: vec![Device {
                name: "Phone".to_string(),
                location: None,
                identifiers: vec![
                    Identifier { name: "a".to_string(), id_type: IdentifierType::BleMac, value: " AA:BB:CC:DD:EE:FF ".to_string() },
                    Identifier { name: "b".to_string(), id_type: IdentifierType::Hostname, value: "Alice-Phone".to_string() },
                ],
            }],
        }],
    };
    let n = normalize_presence(presence);
    let ids = &n.parties[0].devices[0].identifiers;
    assert_eq!(ids[0].value, "aa:bb:cc:dd:ee:ff");
    assert_eq!(ids[1].value, "alice-phone");
    assert_eq!(ids[1].name, "b");
}

#[test]
fn legacy_devices_migrate_to_one_party() {
    assert!(presence_from_legacy(&DevicesConfig::default()).is_none());
    let mut legacy = DevicesConfig::default();
    legacy.insert("AA:BB:CC:DD:EE:FF".to_string(), DeviceConfig { mac: "AA:BB:CC:DD:EE:FF".to_string(), name: "Phone".to_string() });
    let p = presence_from_legacy(&legacy).unwrap();
    assert_eq!(p.parties.len(), 1);
    assert_eq!(p.parties[0].name, "Unknown");
    let d = &p.parties[0].devices[0];
    assert_eq!(d.name, "Phone");
    assert_eq!(d.identifiers[0].name, "BLE MAC (Phone)");
    assert_eq!(d.identifiers[0].value, "aa:bb:cc:dd:ee:ff");
    assert_eq!(d.identifiers[0].id_type, IdentifierType::BleMac);
}

fn loc(building: &str, floor: u32) -> Location {
    Location { building: Some(building.to_string()), floor: Some(floor), room: Some("Room".to_string()), zone: Some("Zone".to_string()) }
}

#[test]
fn test_device_location_override_takes_priority() {
    let device = Device { name: "Test Device".to_string(), location: Some(loc("Device Building", 3)), identifiers: vec![] };
    let party = Party { name: "Test Party".to_string(), location: Some(loc("Party Building", 1)), devices: vec![] };
    let scanner_location = Some(loc("Scanner Building", 2));
    let resolved = resolve_location(&device, &party, scanner_location.as_ref());
    assert_eq!(resolved.source, LocationSource::Device);
    assert_eq!(resolved.location.building, Some("Device Building".to_string()));
    assert_eq!(resolved.location.floor, Some(3));
}

#[test]
fn test_party_location_fallback_when_device_missing() {
    let device = Device { name: "Test Device".to_string(), location: None, identifiers: vec![] };
    let party = Party { name: "Test Party".to_string(), location: Some(loc("Party Building", 1)), devices: vec![] };
    let scanner_location = Some(loc("Scanner Building", 2));
    let resolved = resolve_location(&device, &party, scanner_location.as_ref());
    assert_eq!(resolved.source, LocationSource::Party);
    assert_eq!(resolved.location.building, Some("Party Building".to_string()));
    assert_eq!(resolved.location.floor, Some(1));
}

#[test]
fn test_scanner_location_fallback_when_party_missing() {
    let device = Device { name: "Test Device".to_string(), location: None, identifiers: vec![] };
    let party = Party { name: "Test Party".to_string(), location: None, devices: vec![] };
    let scanner_location = Some(loc("Scanner Building", 2));
    let resolved = resolve_location(&device, &party, scanner_location.as_ref());
    assert_eq!(resolved.source, LocationSource::Scanner);
    assert_eq!(resolved.location.building, Some("Scanner Building".to_string()));
    assert_eq!(resolved.location.floor, Some(2));
}

#[test]
fn test_no_location_when_all_missing() {
    let device = Device { name: "Test Device".to_string(), location: None, identifiers: vec![] };
    let party = Party { name: "Test Party".to_string(), location: None, devices: vec![] };
    let resolved = resolve_location(&device, &party, None);
    assert_eq!(resolved.source, LocationSource::Unavailable);
    assert_eq!(resolved.location.building, None);
    assert_eq!(resolved.location.floor, None);
    assert_eq!(resolved.location.room, None);
    assert_eq!(resolved.location.zone, None);
}

#[test]
fn test_partial_location_fields() {
    let device = Device {
        name: "Test Device".to_string(),
        location: Some(Location { building: Some("Building".to_string()), floor: None, room: None, zone: None }),
        identifiers: vec![],
    };
    let party = Party { name: "Test Party".to_string(), location: None, devices: vec![] };
    let resolved = resolve_location(&device, &party, None);
    assert_eq!(resolved.source, LocationSource::Device);
    assert_eq!(resolved.location.building, Some("Building".to_string()));
    assert_eq!(resolved.location.floor, None);
}

#[test]
fn party_editor_round_trip() {
    let loc = Location { building: Some("Home".to_string()), floor: Some(1), room: None, zone: None };
    let party = Party { name: "Alice".to_string(), location: Some(loc), devices: vec![] };
    let editor = PartyEditor::from_party(&party);
    let mut out = Party { name: "x".to_string(), location: None, devices: vec![] };
    editor.apply_to_party(&mut out);
    assert_eq!(out.name, "Alice");
    assert_eq!(out.location.as_ref().and_then(|l| l.building.clone()), Some("Home".to_string()));
    assert_eq!(out.location.as_ref().and_then(|l| l.floor), Some(1));
    let plain = Party { name: "Bob".to_string(), location: Some(Location::default()), devices: vec![] };
    let mut out2 = Party { name: "x".to_string(), location: None, devices: vec![] };
    PartyEditor::from_party(&plain).apply_to_party(&mut out2);
    assert!(out2.location.is_none());
}

#[test]
fn ipv4_unicode_digits_fail_as_octets() {
    let err = PresenceManager::validate_identifier(&IdentifierType::IpV4, "\u{661}.2.3.4").unwrap_err();
    assert_eq!(err.message(), "Invalid IPv4 octet: \u{661}");
    let err = PresenceManager::validate_identifier(&IdentifierType::IpV4, "1.2.3").unwrap_err();
    assert_eq!(err.message(), "Invalid IPv4 address format");
    let err = PresenceManager::validate_identifier(&IdentifierType::IpV4, "1.2.3.4444").unwrap_err();
    assert_eq!(err.message(), "Invalid IPv4 address format");
}

#[test]
fn init_plan_writes_missing_or_forced() {
    let p = proximityd::config::templates::init_plan(true, false, false);
    assert!(!p.write_config && p.write_presence);
    let p = proximityd::config::templates::init_plan(true, true, true);
    assert!(p.write_config && p.write_presence);
    assert!(proximityd::config::templates::DEFAULT_PRESENCE_TEMPLATE.starts_with("# proximityd presence configuration"));
}
