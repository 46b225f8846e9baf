//! The hierarchical identity model: parties own devices, devices own identifiers.
use vstd::prelude::*;
use crate::text::{lowercase_of, to_lowercase, trim, trimmed};

verus! {

/// Identifier type for device identity resolution.
#[derive(Debug, Clone, Copy, PartialEq, Eq, Hash, Structural)]
pub enum IdentifierType {
    /// Bluetooth MAC address (e.g., "aa:bb:cc:dd:ee:ff")
    BleMac,
    /// WiFi MAC address (e.g., "aa:bb:cc:dd:ee:ff")
    WifiMac,
    /// IPv4 address (e.g., "192.168.1.10")
    IpV4,
    /// IPv6 address (e.g., "2001:db8::1")
    IpV6,
    /// Hostname (e.g., "alice-iphone")
    Hostname,
    /// RFID card ID
    CardId,
    /// Door sensor ID
    DoorSensor,
}

/// A single identifier for a device (e.g., a MAC address, IP, or hostname).
#[derive(Debug, Clone)]
pub struct Identifier {
    /// Human-readable name for this identifier (e.g., "BLE MAC (main)")
    pub name: String,
    /// Type of identifier.
    pub id_type: IdentifierType,
    /// The identifier value (normalized to lowercase and trimmed on load).
    pub value: String,
}

/// A device with one or more identifiers.
#[derive(Debug, Clone)]
pub struct Device {
    /// Human-readable device name (e.g., "Alice's iPhone").
    pub name: String,
    /// Optional location override for this device (overrides party-level location).
    pub location: Option<Location>,
    /// List of identifiers for this device.
    pub identifiers: Vec<Identifier>,
}

/// Hierarchical location model.
#[derive(Debug, Clone, PartialEq, Eq)]
pub struct Location {
    /// Building name.
    pub building: Option<String>,
    /// Floor number.
    pub floor: Option<u32>,
    /// Room name.
    pub room: Option<String>,
    /// Zone name.
    pub zone: Option<String>,
}

/// A party (person or entity) with one or more devices.
#[derive(Debug, Clone)]
pub struct Party {
    /// Party name (e.g., "Alice", "Bob").
    pub name: String,
    /// Optional location for this party (can be overridden per-device).
    pub location: Option<Location>,
    /// List of devices belonging to this party.
    pub devices: Vec<Device>,
}

/// Top-level presence configuration containing all parties.
#[derive(Debug, Clone)]
pub struct PresenceConfig {
    /// List of parties.
    pub parties: Vec<Party>,
}

impl Default for Location {
    fn default() -> (r: Self)
        ensures
            r.is_unset(),
    {
        Location { building: None, floor: None, room: None, zone: None }
    }
}

impl Default for PresenceConfig {
    fn default() -> (r: Self)
        ensures
            r.parties@.len() == 0,
    {
        PresenceConfig { parties: Vec::new() }
    }
}

/// Copies an optional string.
pub fn copy_opt_string(s: &Option<String>) -> (r: Option<String>)
    ensures
        r == *s,
{
    match s {
        Some(v) => Some(v.clone()),
        None => None,
    }
}

impl Location {
    /// Whether no field of the location is set (the default location).
    pub open spec fn is_unset(&self) -> bool {
        &&& self.building.is_none()
        &&& self.floor.is_none()
        &&& self.room.is_none()
        &&& self.zone.is_none()
    }

    /// A field-for-field copy.
    pub fn copy(&self) -> (r: Location)
        ensures
            r == *self,
    {
        Location {
            building: copy_opt_string(&self.building),
            floor: self.floor,
            room: copy_opt_string(&self.room),
            zone: copy_opt_string(&self.zone),
        }
    }

    /// Whether this location equals the default (all fields unset).
    pub fn is_default(&self) -> (r: bool)
        ensures
            r == self.is_unset(),
    {
        self.building.is_none() && self.floor.is_none() && self.room.is_none()
            && self.zone.is_none()
    }
}

/// Copies an optional location.
pub fn copy_opt_location(l: &Option<Location>) -> (r: Option<Location>)
    ensures
        r == *l,
{
    match l {
        Some(v) => Some(v.copy()),
        None => None,
    }
}

/// What `Identifier::normalize_value` gives: the trimmed text, lowercased.
pub open spec fn normalized(value: Seq<char>) -> Seq<char> {
    lowercase_of(trimmed(value))
}

impl Identifier {
    /// Normalize the identifier value (lowercase and trim).
    pub fn normalize_value(value: String) -> (r: String)
        ensures
            r@ == normalized(value@),
    {
        let t = trim(value.as_str());
        to_lowercase(t.as_str())
    }
}

} // verus!
