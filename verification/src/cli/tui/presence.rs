//! Presence management for the interactive screens: selecting, adding and
//! deleting parties, devices and identifiers, the entity editors and
//! identifier validation.
use vstd::prelude::*;
use vstd::string::*;
use crate::cli::keys::KeyCode;
use crate::config::presence::{
    copy_opt_location, Device, Identifier, IdentifierType, Location, Party, PresenceConfig,
};
use crate::text::{
    all_digits, byte_len, char_is_hex, char_string, chars_of, digit_value, digits_value, is_digit,
    is_hex, parse_unsigned, parse_unsigned_spec, pop_char, push_char, split_char, split_on,
};

verus! {

/// Presence management state for TUI
pub struct PresenceManager {
    /// Loaded presence config
    pub config: PresenceConfig,
    /// Currently selected party index
    pub selected_party: Option<usize>,
    /// Currently selected device index (within selected party)
    pub selected_device: Option<usize>,
    /// Currently selected identifier index (within selected device)
    pub selected_identifier: Option<usize>,
    /// Editor for adding/editing entities
    pub editor: Option<PresenceEditor>,
    /// Confirmation dialog state
    pub confirmation: Option<ConfirmationDialog>,
    /// Save message
    pub save_message: Option<String>,
}

/// Editor for presence entities
pub enum PresenceEditor {
    Party(PartyEditor),
    Device(DeviceEditor),
    Identifier(IdentifierEditor),
}

/// Editor for party fields
pub struct PartyEditor {
    pub name: String,
    pub location: Location,
    pub editing_field: PartyField,
    pub dirty: bool,
}

/// Editor for device fields
pub struct DeviceEditor {
    pub name: String,
    pub location: Location,
    pub editing_field: DeviceField,
    pub dirty: bool,
}

/// Editor for identifier fields
pub struct IdentifierEditor {
    pub name: String,
    pub id_type: IdentifierType,
    pub value: String,
    pub editing_field: IdentifierField,
    pub dirty: bool,
}

/// Fields in party editor
#[derive(Debug, Clone, Copy, PartialEq, Eq, Structural)]
pub enum PartyField {
    Name,
    Building,
    Floor,
    Room,
    Zone,
}

/// Fields in device editor
#[derive(Debug, Clone, Copy, PartialEq, Eq, Structural)]
pub enum DeviceField {
    Name,
    Building,
    Floor,
    Room,
    Zone,
}

/// Fields in identifier editor
#[derive(Debug, Clone, Copy, PartialEq, Eq, Structural)]
pub enum IdentifierField {
    Name,
    Type,
    Value,
}

/// The deletion a confirmation dialog asks about.
#[derive(Debug, Clone, Copy, PartialEq, Eq, Structural)]
pub enum ConfirmAction {
    DeleteParty,
    DeleteDevice,
    DeleteIdentifier,
}

/// Confirmation dialog state
pub struct ConfirmationDialog {
    pub message: String,
    pub confirmed: bool,
    /// What happens to the manager when the dialog is confirmed.
    pub callback: ConfirmAction,
}

/// No entity of the needed kind is selected.
#[derive(Debug, Clone, Copy, PartialEq, Eq, Structural)]
pub enum SelectionError {
    NoPartySelected,
    NoDeviceSelected,
    NoIdentifierSelected,
}

impl SelectionError {
    /// The message of the error.
    pub fn message(&self) -> (r: &'static str)
        ensures
            r@ == match *self {
                SelectionError::NoPartySelected => "No party selected"@,
                SelectionError::NoDeviceSelected => "No device selected"@,
                SelectionError::NoIdentifierSelected => "No identifier selected"@,
            },
    {
        match self {
            SelectionError::NoPartySelected => "No party selected",
            SelectionError::NoDeviceSelected => "No device selected",
            SelectionError::NoIdentifierSelected => "No identifier selected",
        }
    }
}

/// Why an identifier is not valid.
#[derive(Debug, Clone)]
pub enum IdentifierError {
    InvalidMac,
    InvalidIpv4Format,
    /// An octet of an otherwise well-formed IPv4 address does not fit a byte.
    InvalidIpv4Octet(String),
    InvalidIpv6,
    EmptyHostname,
    HostnameTooLong,
    EmptyValue,
    EmptyName,
}

impl IdentifierError {
    /// The message of the error.
    pub fn message(&self) -> (r: String)
        ensures
            r@ == match *self {
                IdentifierError::InvalidMac => "Invalid MAC address format. Expected format: aa:bb:cc:dd:ee:ff"@,
                IdentifierError::InvalidIpv4Format => "Invalid IPv4 address format"@,
                IdentifierError::InvalidIpv4Octet(o) => "Invalid IPv4 octet: "@ + o@,
                IdentifierError::InvalidIpv6 => "Invalid IPv6 address format"@,
                IdentifierError::EmptyHostname => "Hostname cannot be empty"@,
                IdentifierError::HostnameTooLong => "Hostname too long (max 253 characters)"@,
                IdentifierError::EmptyValue => "Identifier value cannot be empty"@,
                IdentifierError::EmptyName => "Identifier name cannot be empty"@,
            },
    {
        match self {
            IdentifierError::InvalidMac => "Invalid MAC address format. Expected format: aa:bb:cc:dd:ee:ff".to_owned(),
            IdentifierError::InvalidIpv4Format => "Invalid IPv4 address format".to_owned(),
            IdentifierError::InvalidIpv4Octet(o) => {
                let mut s = "Invalid IPv4 octet: ".to_owned();
                s.append(o.as_str());
                s
            },
            IdentifierError::InvalidIpv6 => "Invalid IPv6 address format".to_owned(),
            IdentifierError::EmptyHostname => "Hostname cannot be empty".to_owned(),
            IdentifierError::HostnameTooLong => "Hostname too long (max 253 characters)".to_owned(),
            IdentifierError::EmptyValue => "Identifier value cannot be empty".to_owned(),
            IdentifierError::EmptyName => "Identifier name cannot be empty".to_owned(),
        }
    }
}

/// A MAC address: six pairs of hex digits separated by colons.
pub open spec fn mac_format(s: Seq<char>) -> bool {
    s.len() == 17 && forall|i: int|
        0 <= i < 17 ==> if i % 3 == 2 {
            #[trigger] s[i] == ':'
        } else {
            is_hex(s[i])
        }
}

/// Whether the `regex` crate accepts `pattern` and its regex matches
/// `value` (`Regex::new`, then `is_match`).
pub uninterp spec fn regex_matches(pattern: Seq<char>, value: Seq<char>) -> bool;

/// Matches a value against a regular expression with the `regex` crate
/// (`Regex::new`, then `is_match`); a pattern that does not compile matches
/// nothing. Trusted: the result is named `regex_matches` of the pattern and
/// the value; regular-expression semantics are not stated.
#[verifier::external_body]
fn regex_is_match(pattern: &str, value: &str) -> (r: bool)
    ensures
        r == regex_matches(pattern@, value@),
{
    regex::Regex::new(pattern).map(|re| re.is_match(value)).unwrap_or(false)
}

/// The shape of an IPv4 address: four dot-separated groups of one to three
/// decimal digits, Unicode digits included (`\d` of the `regex` crate).
pub const IPV4_PATTERN: &'static str = "^\\d{1,3}\\.\\d{1,3}\\.\\d{1,3}\\.\\d{1,3}$";

/// Whether the value has the shape of an IPv4 address (`IPV4_PATTERN`).
pub open spec fn ipv4_shaped(value: Seq<char>) -> bool {
    regex_matches(IPV4_PATTERN@, value)
}

/// Index of the first dot-separated group, from `k` on, that does not read
/// as a byte (`str::parse::<u8>`), or the number of groups.
pub open spec fn first_bad_octet(parts: Seq<Seq<char>>, k: int) -> int
    decreases parts.len() - k,
{
    if k >= parts.len() {
        parts.len() as int
    } else if parse_unsigned_spec(parts[k], 255) is None {
        k
    } else {
        first_bad_octet(parts, k + 1)
    }
}

/// The shape of an IPv6 address as accepted here: two to seven colons, the
/// colon-separated groups each of at most four hex digits.
pub open spec fn ipv6_format(s: Seq<char>) -> bool {
    let parts = split_on(s, ':');
    3 <= parts.len() <= 8 && forall|k: int|
        0 <= k < parts.len() ==> #[trigger] parts[k].len() <= 4 && forall|i: int|
            0 <= i < parts[k].len() ==> is_hex(parts[k][i])
}

/// The outcome for a MAC address value.
pub open spec fn mac_check(value: Seq<char>, check: Result<(), IdentifierError>) -> bool {
    if mac_format(value) {
        check is Ok
    } else {
        check matches Err(IdentifierError::InvalidMac)
    }
}

/// The outcome for a value that only has to be non-empty.
pub open spec fn nonempty_check(value: Seq<char>, check: Result<(), IdentifierError>) -> bool {
    if value.len() == 0 {
        check matches Err(IdentifierError::EmptyValue)
    } else {
        check is Ok
    }
}

/// Whether `check` is the validation outcome of `value` for `id_type`.
pub open spec fn identifier_check(
    id_type: IdentifierType,
    value: Seq<char>,
    check: Result<(), IdentifierError>,
) -> bool {
    match id_type {
        IdentifierType::BleMac => mac_check(value, check),
        IdentifierType::WifiMac => mac_check(value, check),
        IdentifierType::IpV4 => if !ipv4_shaped(value) {
            check matches Err(IdentifierError::InvalidIpv4Format)
        } else {
            let parts = split_on(value, '.');
            let k = first_bad_octet(parts, 0);
            if k < parts.len() {
                check matches Err(IdentifierError::InvalidIpv4Octet(o)) && o@ == parts[k]
            } else {
                check is Ok
            }
        },
        IdentifierType::IpV6 => if ipv6_format(value) {
            check is Ok
        } else {
            check matches Err(IdentifierError::InvalidIpv6)
        },
        IdentifierType::Hostname => if value.len() == 0 {
            check matches Err(IdentifierError::EmptyHostname)
        } else if (byte_len(value) as usize) > 253 {
            check matches Err(IdentifierError::HostnameTooLong)
        } else {
            check is Ok
        },
        IdentifierType::CardId => nonempty_check(value, check),
        IdentifierType::DoorSensor => nonempty_check(value, check),
    }
}

fn check_mac(value: &str) -> (r: bool)
    ensures
        r == mac_format(value@),
{
    let v = chars_of(value);
    if v.len() != 17 {
        return false;
    }
    let mut i: usize = 0;
    while i < 17
        invariant
            v@ == value@,
            v@.len() == 17,
            i <= 17,
            forall|j: int|
                0 <= j < i ==> if j % 3 == 2 {
                    #[trigger] v@[j] == ':'
                } else {
                    is_hex(v@[j])
                },
        decreases 17 - i,
    {
        let ok = if i % 3 == 2 {
            v[i] == ':'
        } else {
            char_is_hex(v[i])
        };
        if !ok {
            return false;
        }
        i = i + 1;
    }
    true
}

fn group_all(part: &String, hex: bool) -> (r: bool)
    ensures
        r == if hex {
            forall|i: int| 0 <= i < part@.len() ==> is_hex(part@[i])
        } else {
            all_digits(part@)
        },
{
    let v = chars_of(part.as_str());
    let mut i: usize = 0;
    while i < v.len()
        invariant
            v@ == part@,
            i <= v@.len(),
            forall|j: int|
                0 <= j < i ==> if hex {
                    is_hex(#[trigger] v@[j])
                } else {
                    is_digit(v@[j])
                },
        decreases v@.len() - i,
    {
        let ok = if hex {
            char_is_hex(v[i])
        } else {
            '0' <= v[i] && v[i] <= '9'
        };
        if !ok {
            return false;
        }
        i = i + 1;
    }
    true
}

impl PresenceManager {
    /// Validate an identifier value based on its type
    pub fn validate_identifier(id_type: &IdentifierType, value: &str) -> (r: Result<(), IdentifierError>)
        ensures
            identifier_check(*id_type, value@, r),
    {
        match id_type {
            IdentifierType::BleMac => {
                if !check_mac(value) {
                    return Err(IdentifierError::InvalidMac);
                }
                Ok(())
            },
            IdentifierType::WifiMac => {
                if !check_mac(value) {
                    return Err(IdentifierError::InvalidMac);
                }
                Ok(())
            },
            IdentifierType::IpV4 => {
                if !regex_is_match(IPV4_PATTERN, value) {
                    return Err(IdentifierError::InvalidIpv4Format);
                }
                let parts = split_char(value, '.');
                let ghost pv = parts@.map_values(|x: String| x@);
                assert(pv == split_on(value@, '.'));
                let mut k: usize = 0;
                while k < parts.len()
                    invariant
                        pv == parts@.map_values(|x: String| x@),
                        pv == split_on(value@, '.'),
                        *id_type == IdentifierType::IpV4,
                        ipv4_shaped(value@),
                        k <= parts@.len(),
                        first_bad_octet(pv, 0) == first_bad_octet(pv, k as int),
                    decreases parts@.len() - k,
                {
                    assert(pv[k as int] == parts@[k as int]@);
                    if parse_unsigned(parts[k].as_str(), 255).is_none() {
                        return Err(IdentifierError::InvalidIpv4Octet(parts[k].clone()));
                    }
                    k = k + 1;
                }
                Ok(())
            },
            IdentifierType::IpV6 => {
                let parts = split_char(value, ':');
                let ghost pv = parts@.map_values(|x: String| x@);
                assert(pv == split_on(value@, ':'));
                if parts.len() < 3 || parts.len() > 8 {
                    return Err(IdentifierError::InvalidIpv6);
                }
                let mut k: usize = 0;
                while k < parts.len()
                    invariant
                        pv == parts@.map_values(|x: String| x@),
                        pv == split_on(value@, ':'),
                        *id_type == IdentifierType::IpV6,
                        k <= parts@.len(),
                        forall|j: int|
                            0 <= j < k ==> #[trigger] pv[j].len() <= 4 && forall|i: int|
                                0 <= i < pv[j].len() ==> is_hex(pv[j][i]),
                    decreases parts@.len() - k,
                {
                    let n = parts[k].as_str().unicode_len();
                    if n > 4 || !group_all(&parts[k], true) {
                        assert(!(pv[k as int].len() <= 4 && forall|i: int|
                            0 <= i < pv[k as int].len() ==> is_hex(pv[k as int][i])));
                        return Err(IdentifierError::InvalidIpv6);
                    }
                    k = k + 1;
                }
                Ok(())
            },
            IdentifierType::Hostname => {
                if value.is_empty() {
                    return Err(IdentifierError::EmptyHostname);
                }
                if value.len() > 253 {
                    return Err(IdentifierError::HostnameTooLong);
                }
                Ok(())
            },
            IdentifierType::CardId => {
                if value.is_empty() {
                    return Err(IdentifierError::EmptyValue);
                }
                Ok(())
            },
            IdentifierType::DoorSensor => {
                if value.is_empty() {
                    return Err(IdentifierError::EmptyValue);
                }
                Ok(())
            },
        }
    }
}

/// The party at `i`, if `i` is a valid party position.
pub open spec fn party_at(c: PresenceConfig, i: Option<usize>) -> Option<Party> {
    match i {
        Some(k) => if k < c.parties@.len() {
            Some(c.parties@[k as int])
        } else {
            None
        },
        None => None,
    }
}

/// The device at `d` of the party at `p`, if both positions are valid.
pub open spec fn device_at(c: PresenceConfig, p: Option<usize>, d: Option<usize>) -> Option<Device> {
    match party_at(c, p) {
        Some(party) => match d {
            Some(k) => if k < party.devices@.len() {
                Some(party.devices@[k as int])
            } else {
                None
            },
            None => None,
        },
        None => None,
    }
}

/// The identifier at `k` of the selected device, if all positions are valid.
pub open spec fn identifier_at(
    c: PresenceConfig,
    p: Option<usize>,
    d: Option<usize>,
    k: Option<usize>,
) -> Option<Identifier> {
    match device_at(c, p, d) {
        Some(device) => match k {
            Some(j) => if j < device.identifiers@.len() {
                Some(device.identifiers@[j as int])
            } else {
                None
            },
            None => None,
        },
        None => None,
    }
}

impl PresenceManager {
    /// A manager over a loaded presence config, with nothing selected.
    pub fn from_config(config: PresenceConfig) -> (r: Self)
        ensures
            r.config == config,
            r.selected_party.is_none(),
            r.selected_device.is_none(),
            r.selected_identifier.is_none(),
            r.editor.is_none(),
            r.confirmation.is_none(),
            r.save_message.is_none(),
    {
        PresenceManager {
            config,
            selected_party: None,
            selected_device: None,
            selected_identifier: None,
            editor: None,
            confirmation: None,
            save_message: None,
        }
    }

    /// Get the current party count
    pub fn party_count(&self) -> (r: usize)
        ensures
            r == self.config.parties@.len(),
    {
        self.config.parties.len()
    }

    /// Get the device count for the selected party (0 without one)
    pub fn device_count(&self) -> (r: usize)
        ensures
            r == match party_at(self.config, self.selected_party) {
                Some(p) => p.devices@.len(),
                None => 0,
            },
    {
        if let Some(party_idx) = self.selected_party {
            if party_idx < self.config.parties.len() {
                return self.config.parties[party_idx].devices.len();
            }
        }
        0
    }

    /// Get the identifier count for the selected device (0 without one)
    pub fn identifier_count(&self) -> (r: usize)
        ensures
            r == match device_at(self.config, self.selected_party, self.selected_device) {
                Some(d) => d.identifiers@.len(),
                None => 0,
            },
    {
        if let Some(party_idx) = self.selected_party {
            if let Some(device_idx) = self.selected_device {
                if party_idx < self.config.parties.len() {
                    if device_idx < self.config.parties[party_idx].devices.len() {
                        return self.config.parties[party_idx].devices[device_idx].identifiers.len();
                    }
                }
            }
        }
        0
    }

    /// Add a new party and select it
    pub fn add_party(&mut self)
        ensures
            final(self).config.parties@.len() == old(self).config.parties@.len() + 1,
            final(self).config.parties@.drop_last() == old(self).config.parties@,
            final(self).config.parties@.last().name@ == "New Party"@,
            final(self).config.parties@.last().location.is_none(),
            final(self).config.parties@.last().devices@.len() == 0,
            final(self).selected_party == Some(old(self).config.parties@.len() as usize),
            final(self).selected_device.is_none(),
            final(self).selected_identifier.is_none(),
    {
        let new_party = Party { name: "New Party".to_owned(), location: None, devices: Vec::new() };
        self.config.parties.push(new_party);
        self.selected_party = Some(self.config.parties.len() - 1);
        self.selected_device = None;
        self.selected_identifier = None;
        assert(self.config.parties@.drop_last() =~= old(self).config.parties@);
    }

    /// Delete the selected party and clear the selection
    pub fn delete_party(&mut self)
        requires
            old(self).selected_party matches Some(i) ==> i < old(self).config.parties@.len(),
        ensures
            match old(self).selected_party {
                Some(i) => {
                    &&& final(self).config.parties@ == old(self).config.parties@.remove(i as int)
                    &&& final(self).selected_party.is_none()
                    &&& final(self).selected_device.is_none()
                    &&& final(self).selected_identifier.is_none()
                },
                None => final(self).config == old(self).config && final(self).selected_party
                    == old(self).selected_party && final(self).selected_device == old(
                    self,
                ).selected_device && final(self).selected_identifier == old(self).selected_identifier,
            },
    {
        if let Some(idx) = self.selected_party {
            self.config.parties.remove(idx);
            self.selected_party = None;
            self.selected_device = None;
            self.selected_identifier = None;
        }
    }

    /// Add a new device to the selected party and select it
    pub fn add_device(&mut self)
        ensures
            match party_at(old(self).config, old(self).selected_party) {
                Some(p) => {
                    let i = old(self).selected_party.unwrap() as int;
                    let q = final(self).config.parties@[i];
                    &&& final(self).config.parties@.len() == old(self).config.parties@.len()
                    &&& forall|j: int| 0 <= j < old(self).config.parties@.len() && j != i
                        ==> #[trigger] final(self).config.parties@[j] == old(self).config.parties@[j]
                    &&& q.name == p.name
                    &&& q.location == p.location
                    &&& q.devices@.len() == p.devices@.len() + 1
                    &&& q.devices@.drop_last() == p.devices@
                    &&& q.devices@.last().name@ == "New Device"@
                    &&& q.devices@.last().location.is_none()
                    &&& q.devices@.last().identifiers@.len() == 0
                    &&& final(self).selected_party == old(self).selected_party
                    &&& final(self).selected_device == Some(p.devices@.len() as usize)
                    &&& final(self).selected_identifier.is_none()
                },
                None => final(self).config == old(self).config && final(self).selected_device
                    == old(self).selected_device && final(self).selected_identifier == old(
                    self,
                ).selected_identifier && final(self).selected_party == old(self).selected_party,
            },
    {
        if let Some(party_idx) = self.selected_party {
            if party_idx < self.config.parties.len() {
                let new_device = Device {
                    name: "New Device".to_owned(),
                    location: None,
                    identifiers: Vec::new(),
                };
                self.config.parties[party_idx].devices.push(new_device);
                self.selected_device = Some(self.config.parties[party_idx].devices.len() - 1);
                self.selected_identifier = None;
                assert(self.config.parties@[party_idx as int].devices@.drop_last()
                    =~= old(self).config.parties@[party_idx as int].devices@);
            }
        }
    }

    /// Delete the selected device of the selected party
    pub fn delete_device(&mut self)
        requires
            party_at(old(self).config, old(self).selected_party) matches Some(p)
                ==> (old(self).selected_device matches Some(d) ==> d < p.devices@.len()),
        ensures
            match (party_at(old(self).config, old(self).selected_party), old(self).selected_device) {
                (Some(p), Some(d)) => {
                    let i = old(self).selected_party.unwrap() as int;
                    let q = final(self).config.parties@[i];
                    &&& final(self).config.parties@.len() == old(self).config.parties@.len()
                    &&& forall|j: int| 0 <= j < old(self).config.parties@.len() && j != i
                        ==> #[trigger] final(self).config.parties@[j] == old(self).config.parties@[j]
                    &&& q.name == p.name
                    &&& q.location == p.location
                    &&& q.devices@ == p.devices@.remove(d as int)
                    &&& final(self).selected_party == old(self).selected_party
                    &&& final(self).selected_device.is_none()
                    &&& final(self).selected_identifier.is_none()
                },
                _ => final(self).config == old(self).config && final(self).selected_device
                    == old(self).selected_device && final(self).selected_identifier == old(
                    self,
                ).selected_identifier && final(self).selected_party == old(self).selected_party,
            },
    {
        if let Some(party_idx) = self.selected_party {
            if let Some(device_idx) = self.selected_device {
                if party_idx < self.config.parties.len() {
                    self.config.parties[party_idx].devices.remove(device_idx);
                    self.selected_device = None;
                    self.selected_identifier = None;
                }
            }
        }
    }

    /// Add a new identifier to the selected device and select it
    pub fn add_identifier(&mut self)
        ensures
            match device_at(old(self).config, old(self).selected_party, old(self).selected_device) {
                Some(dv) => {
                    let i = old(self).selected_party.unwrap() as int;
                    let k = old(self).selected_device.unwrap() as int;
                    let q = final(self).config.parties@[i];
                    let p = old(self).config.parties@[i];
                    let e = q.devices@[k];
                    &&& final(self).config.parties@.len() == old(self).config.parties@.len()
                    &&& forall|j: int| 0 <= j < old(self).config.parties@.len() && j != i
                        ==> #[trigger] final(self).config.parties@[j] == old(self).config.parties@[j]
                    &&& q.name == p.name
                    &&& q.location == p.location
                    &&& q.devices@.len() == p.devices@.len()
                    &&& forall|j: int| 0 <= j < p.devices@.len() && j != k ==> #[trigger] q.devices@[j] == p.devices@[j]
                    &&& e.name == dv.name
                    &&& e.location == dv.location
                    &&& e.identifiers@.drop_last() == dv.identifiers@
                    &&& e.identifiers@.len() == dv.identifiers@.len() + 1
                    &&& e.identifiers@.last().name@ == "New Identifier"@
                    &&& e.identifiers@.last().id_type == IdentifierType::BleMac
                    &&& e.identifiers@.last().value@.len() == 0
                    &&& final(self).selected_party == old(self).selected_party
                    &&& final(self).selected_device == old(self).selected_device
                    &&& final(self).selected_identifier == Some(dv.identifiers@.len() as usize)
                },
                None => final(self).config == old(self).config && final(self).selected_device
                    == old(self).selected_device && final(self).selected_identifier == old(
                    self,
                ).selected_identifier && final(self).selected_party == old(self).selected_party,
            },
    {
        if let Some(party_idx) = self.selected_party {
            if let Some(device_idx) = self.selected_device {
                if party_idx < self.config.parties.len() {
                    if device_idx < self.config.parties[party_idx].devices.len() {
                        let new_identifier = Identifier {
                            name: "New Identifier".to_owned(),
                            id_type: IdentifierType::BleMac,
                            value: String::new(),
                        };
                        self.config.parties[party_idx].devices[device_idx].identifiers.push(new_identifier);
                        self.selected_identifier = Some(self.config.parties[party_idx].devices[device_idx].identifiers.len() - 1);
                        assert(self.config.parties@[party_idx as int].devices@[device_idx as int].identifiers@.drop_last()
                            =~= old(self).config.parties@[party_idx as int].devices@[device_idx as int].identifiers@);
                    }
                }
            }
        }
    }

    /// Delete the selected identifier of the selected device
    pub fn delete_identifier(&mut self)
        requires
            device_at(old(self).config, old(self).selected_party, old(self).selected_device) matches Some(dv)
                ==> (old(self).selected_identifier matches Some(x) ==> x < dv.identifiers@.len()),
        ensures
            match (device_at(old(self).config, old(self).selected_party, old(self).selected_device), old(self).selected_identifier) {
                (Some(dv), Some(x)) => {
                    let i = old(self).selected_party.unwrap() as int;
                    let k = old(self).selected_device.unwrap() as int;
                    let q = final(self).config.parties@[i];
                    let p = old(self).config.parties@[i];
                    let e = q.devices@[k];
                    &&& final(self).config.parties@.len() == old(self).config.parties@.len()
                    &&& forall|j: int| 0 <= j < old(self).config.parties@.len() && j != i
                        ==> #[trigger] final(self).config.parties@[j] == old(self).config.parties@[j]
                    &&& q.name == p.name
                    &&& q.location == p.location
                    &&& q.devices@.len() == p.devices@.len()
                    &&& forall|j: int| 0 <= j < p.devices@.len() && j != k ==> #[trigger] q.devices@[j] == p.devices@[j]
                    &&& e.name == dv.name
                    &&& e.location == dv.location
                    &&& e.identifiers@ == dv.identifiers@.remove(x as int)
                    &&& final(self).selected_party == old(self).selected_party
                    &&& final(self).selected_device == old(self).selected_device
                    &&& final(self).selected_identifier.is_none()
                },
                _ => final(self).config == old(self).config && final(self).selected_device
                    == old(self).selected_device && final(self).selected_identifier == old(
                    self,
                ).selected_identifier && final(self).selected_party == old(self).selected_party,
            },
    {
        if let Some(party_idx) = self.selected_party {
            if let Some(device_idx) = self.selected_device {
                if let Some(identifier_idx) = self.selected_identifier {
                    if party_idx < self.config.parties.len() {
                        if device_idx < self.config.parties[party_idx].devices.len() {
                            self.config.parties[party_idx].devices[device_idx].identifiers.remove(identifier_idx);
                            self.selected_identifier = None;
                        }
                    }
                }
            }
        }
    }

    /// Get the selected party
    pub fn get_selected_party(&self) -> (r: Option<&Party>)
        ensures
            match party_at(self.config, self.selected_party) {
                Some(p) => r == Some(&p),
                None => r.is_none(),
            },
    {
        match self.selected_party {
            Some(idx) => if idx < self.config.parties.len() {
                Some(&self.config.parties[idx])
            } else {
                None
            },
            None => None,
        }
    }

    /// Get the selected device
    pub fn get_selected_device(&self) -> (r: Option<&Device>)
        ensures
            match device_at(self.config, self.selected_party, self.selected_device) {
                Some(d) => r == Some(&d),
                None => r.is_none(),
            },
    {
        match self.get_selected_party() {
            Some(party) => match self.selected_device {
                Some(idx) => if idx < party.devices.len() {
                    Some(&party.devices[idx])
                } else {
                    None
                },
                None => None,
            },
            None => None,
        }
    }

    /// Get the selected identifier
    pub fn get_selected_identifier(&self) -> (r: Option<&Identifier>)
        ensures
            match identifier_at(self.config, self.selected_party, self.selected_device, self.selected_identifier) {
                Some(x) => r == Some(&x),
                None => r.is_none(),
            },
    {
        match self.get_selected_device() {
            Some(device) => match self.selected_identifier {
                Some(idx) => if idx < device.identifiers.len() {
                    Some(&device.identifiers[idx])
                } else {
                    None
                },
                None => None,
            },
            None => None,
        }
    }

    /// Update the selected party with new values: the updater runs on it, and
    /// it becomes what the updater made of it; an error when no party is
    /// selected. Only the selected party can change.
    pub fn update_selected_party<F: FnOnce(&mut Party)>(&mut self, updater: F) -> (r: Result<(), SelectionError>)
        requires
            forall|p: &mut Party| #[trigger] updater.requires((p,)),
        ensures
            party_at(old(self).config, old(self).selected_party).is_some() <==> r.is_ok(),
            r.is_err() ==> r == Err::<(), SelectionError>(SelectionError::NoPartySelected) && final(self).config == old(self).config,
            final(self).config.parties@.len() == old(self).config.parties@.len(),
            forall|j: int| 0 <= j < old(self).config.parties@.len() && Some(j as usize) != old(self).selected_party
                ==> #[trigger] final(self).config.parties@[j] == old(self).config.parties@[j],
            final(self).selected_party == old(self).selected_party,
            final(self).selected_device == old(self).selected_device,
            final(self).selected_identifier == old(self).selected_identifier,
            final(self).editor == old(self).editor,
            final(self).confirmation == old(self).confirmation,
            final(self).save_message == old(self).save_message,
            r.is_err() ==> *final(self) == *old(self),
            r.is_ok() ==> exists|p: &mut Party|
                *p == old(self).config.parties@[old(self).selected_party.unwrap() as int]
                && *final(p) == final(self).config.parties@[old(self).selected_party.unwrap() as int]
                && #[trigger] updater.ensures((p,), ()),
    {
        if let Some(party_idx) = self.selected_party {
            if party_idx < self.config.parties.len() {
                updater(&mut self.config.parties[party_idx]);
                return Ok(());
            }
        }
        Err(SelectionError::NoPartySelected)
    }
}

impl PresenceManager {
    /// Update the selected device with new values: the updater runs on it, and
    /// it becomes what the updater made of it; an error when no device is
    /// selected. Only the selected device can change.
    pub fn update_selected_device<F: FnOnce(&mut Device)>(&mut self, updater: F) -> (r: Result<(), SelectionError>)
        requires
            forall|d: &mut Device| #[trigger] updater.requires((d,)),
        ensures
            device_at(old(self).config, old(self).selected_party, old(self).selected_device).is_some() <==> r.is_ok(),
            r.is_err() ==> r == Err::<(), SelectionError>(SelectionError::NoDeviceSelected) && final(self).config == old(self).config,
            final(self).config.parties@.len() == old(self).config.parties@.len(),
            forall|j: int| 0 <= j < old(self).config.parties@.len() && Some(j as usize) != old(self).selected_party
                ==> #[trigger] final(self).config.parties@[j] == old(self).config.parties@[j],
            r.is_ok() ==> ({
                let i = old(self).selected_party.unwrap() as int;
                let k = old(self).selected_device.unwrap() as int;
                let q = final(self).config.parties@[i];
                let p = old(self).config.parties@[i];
                &&& q.name == p.name
                &&& q.location == p.location
                &&& q.devices@.len() == p.devices@.len()
                &&& forall|j: int| 0 <= j < p.devices@.len() && j != k ==> #[trigger] q.devices@[j] == p.devices@[j]
            }),
            final(self).selected_party == old(self).selected_party,
            final(self).selected_device == old(self).selected_device,
            final(self).selected_identifier == old(self).selected_identifier,
            final(self).editor == old(self).editor,
            final(self).confirmation == old(self).confirmation,
            final(self).save_message == old(self).save_message,
            r.is_err() ==> *final(self) == *old(self),
            r.is_ok() ==> exists|d: &mut Device|
                *d == old(self).config.parties@[old(self).selected_party.unwrap() as int].devices@[
                    old(self).selected_device.unwrap() as int]
                && *final(d) == final(self).config.parties@[old(self).selected_party.unwrap() as int].devices@[
                    old(self).selected_device.unwrap() as int]
                && #[trigger] updater.ensures((d,), ()),
    {
        if let Some(party_idx) = self.selected_party {
            if party_idx < self.config.parties.len() {
                if let Some(device_idx) = self.selected_device {
                    if device_idx < self.config.parties[party_idx].devices.len() {
                        updater(&mut self.config.parties[party_idx].devices[device_idx]);
                        return Ok(());
                    }
                }
            }
        }
        Err(SelectionError::NoDeviceSelected)
    }

    /// Update the selected identifier with new values: the updater runs on
    /// it, and it becomes what the updater made of it; an error when no
    /// identifier is selected. Only the selected identifier can change.
    pub fn update_selected_identifier<F: FnOnce(&mut Identifier)>(&mut self, updater: F) -> (r: Result<(), SelectionError>)
        requires
            forall|x: &mut Identifier| #[trigger] updater.requires((x,)),
        ensures
            identifier_at(old(self).config, old(self).selected_party, old(self).selected_device, old(self).selected_identifier).is_some() <==> r.is_ok(),
            r.is_err() ==> r == Err::<(), SelectionError>(SelectionError::NoIdentifierSelected) && final(self).config == old(self).config,
            final(self).config.parties@.len() == old(self).config.parties@.len(),
            forall|j: int| 0 <= j < old(self).config.parties@.len() && Some(j as usize) != old(self).selected_party
                ==> #[trigger] final(self).config.parties@[j] == old(self).config.parties@[j],
            r.is_ok() ==> ({
                let i = old(self).selected_party.unwrap() as int;
                let k = old(self).selected_device.unwrap() as int;
                let x = old(self).selected_identifier.unwrap() as int;
                let q = final(self).config.parties@[i];
                let p = old(self).config.parties@[i];
                &&& q.name == p.name
                &&& q.location == p.location
                &&& q.devices@.len() == p.devices@.len()
                &&& forall|j: int| 0 <= j < p.devices@.len() && j != k ==> #[trigger] q.devices@[j] == p.devices@[j]
                &&& q.devices@[k].name == p.devices@[k].name
                &&& q.devices@[k].location == p.devices@[k].location
                &&& q.devices@[k].identifiers@.len() == p.devices@[k].identifiers@.len()
                &&& forall|j: int| 0 <= j < p.devices@[k].identifiers@.len() && j != x
                    ==> #[trigger] q.devices@[k].identifiers@[j] == p.devices@[k].identifiers@[j]
            }),
            final(self).selected_party == old(self).selected_party,
            final(self).selected_device == old(self).selected_device,
            final(self).selected_identifier == old(self).selected_identifier,
            final(self).editor == old(self).editor,
            final(self).confirmation == old(self).confirmation,
            final(self).save_message == old(self).save_message,
            r.is_err() ==> *final(self) == *old(self),
            r.is_ok() ==> exists|x: &mut Identifier|
                *x == old(self).config.parties@[old(self).selected_party.unwrap() as int].devices@[
                    old(self).selected_device.unwrap() as int].identifiers@[old(self).selected_identifier.unwrap() as int]
                && *final(x) == final(self).config.parties@[old(self).selected_party.unwrap() as int].devices@[
                    old(self).selected_device.unwrap() as int].identifiers@[old(self).selected_identifier.unwrap() as int]
                && #[trigger] updater.ensures((x,), ()),
    {
        if let Some(party_idx) = self.selected_party {
            if party_idx < self.config.parties.len() {
                if let Some(device_idx) = self.selected_device {
                    if device_idx < self.config.parties[party_idx].devices.len() {
                        if let Some(id_idx) = self.selected_identifier {
                            if id_idx < self.config.parties[party_idx].devices[device_idx].identifiers.len() {
                                updater(&mut self.config.parties[party_idx].devices[device_idx].identifiers[id_idx]);
                                return Ok(());
                            }
                        }
                    }
                }
            }
        }
        Err(SelectionError::NoIdentifierSelected)
    }
}

/// An optional text as its characters.
pub open spec fn text_view(s: Option<String>) -> Option<Seq<char>> {
    match s {
        Some(v) => Some(v@),
        None => None,
    }
}

/// A location as plain values.
pub struct LocationView {
    pub building: Option<Seq<char>>,
    pub floor: Option<u32>,
    pub room: Option<Seq<char>>,
    pub zone: Option<Seq<char>>,
}

pub open spec fn location_view(l: Location) -> LocationView {
    LocationView {
        building: text_view(l.building),
        floor: l.floor,
        room: text_view(l.room),
        zone: text_view(l.zone),
    }
}

/// A location field being edited.
pub enum LocationPart {
    Building,
    Floor,
    Room,
    Zone,
}

/// A text field after typing `c`: appended, or started.
pub open spec fn typed_text(t: Option<Seq<char>>, c: char) -> Option<Seq<char>> {
    match t {
        Some(v) => Some(v.push(c)),
        None => Some(seq![c]),
    }
}

/// A text field after Backspace: the last character removed, and the field
/// cleared when that leaves it empty.
pub open spec fn erased_text(t: Option<Seq<char>>) -> Option<Seq<char>> {
    match t {
        Some(v) => {
            let w = if v.len() > 0 {
                v.drop_last()
            } else {
                v
            };
            if w.len() == 0 {
                None
            } else {
                Some(w)
            }
        },
        None => None,
    }
}

/// The floor after typing `c`: a digit is appended to the number, other
/// characters are ignored.
pub open spec fn typed_floor(f: Option<u32>, c: char) -> Option<u32> {
    if is_digit(c) {
        match f {
            Some(v) => Some((v * 10 + digit_value(c)) as u32),
            None => Some(digit_value(c) as u32),
        }
    } else {
        f
    }
}

/// The floor after Backspace: the last digit dropped, cleared at zero.
pub open spec fn erased_floor(f: Option<u32>) -> Option<u32> {
    match f {
        Some(v) => if v / 10 == 0 {
            None
        } else {
            Some((v / 10) as u32)
        },
        None => None,
    }
}

/// Whether typing `c` into the floor keeps it within `u32`.
pub open spec fn floor_fits(f: Option<u32>, c: char) -> bool {
    is_digit(c) && f.is_some() ==> f.unwrap() * 10 + digit_value(c) <= u32::MAX
}

/// The location after typing `c` into one of its fields.
pub open spec fn typed_location(l: LocationView, part: LocationPart, c: char) -> LocationView {
    match part {
        LocationPart::Building => LocationView { building: typed_text(l.building, c), ..l },
        LocationPart::Floor => LocationView { floor: typed_floor(l.floor, c), ..l },
        LocationPart::Room => LocationView { room: typed_text(l.room, c), ..l },
        LocationPart::Zone => LocationView { zone: typed_text(l.zone, c), ..l },
    }
}

/// The location after Backspace in one of its fields.
pub open spec fn erased_location(l: LocationView, part: LocationPart) -> LocationView {
    match part {
        LocationPart::Building => LocationView { building: erased_text(l.building), ..l },
        LocationPart::Floor => LocationView { floor: erased_floor(l.floor), ..l },
        LocationPart::Room => LocationView { room: erased_text(l.room), ..l },
        LocationPart::Zone => LocationView { zone: erased_text(l.zone), ..l },
    }
}

fn type_text(t: &mut Option<String>, c: char)
    ensures
        text_view(*final(t)) == typed_text(text_view(*old(t)), c),
{
    match t {
        Some(v) => push_char(v, c),
        None => {
            *t = Some(char_string(c));
        },
    }
}

fn erase_text(t: &mut Option<String>)
    ensures
        text_view(*final(t)) == erased_text(text_view(*old(t))),
{
    let clear = match t {
        Some(v) => {
            pop_char(v);
            v.as_str().is_empty()
        },
        None => false,
    };
    if clear {
        *t = None;
    }
}

fn digit_of(c: char) -> (r: u32)
    requires
        is_digit(c),
    ensures
        r == digit_value(c),
{
    (c as u32) - 48
}

/// Types `c` into a location field.
pub fn type_into_location(l: &mut Location, part: LocationPart, c: char)
    requires
        part is Floor ==> floor_fits(old(l).floor, c),
    ensures
        location_view(*final(l)) == typed_location(location_view(*old(l)), part, c),
{
    match part {
        LocationPart::Building => type_text(&mut l.building, c),
        LocationPart::Floor => {
            if '0' <= c && c <= '9' {
                let d = digit_of(c);
                l.floor = match l.floor {
                    Some(f) => Some(f * 10 + d),
                    None => Some(d),
                };
            }
        },
        LocationPart::Room => type_text(&mut l.room, c),
        LocationPart::Zone => type_text(&mut l.zone, c),
    }
}

/// Erases the last character (or digit) of a location field.
pub fn erase_from_location(l: &mut Location, part: LocationPart)
    ensures
        location_view(*final(l)) == erased_location(location_view(*old(l)), part),
{
    match part {
        LocationPart::Building => erase_text(&mut l.building),
        LocationPart::Floor => {
            l.floor = match l.floor {
                Some(f) => if f / 10 == 0 {
                    None
                } else {
                    Some(f / 10)
                },
                None => None,
            };
        },
        LocationPart::Room => erase_text(&mut l.room),
        LocationPart::Zone => erase_text(&mut l.zone),
    }
}

/// The location part a party field edits (`None` for the name).
pub open spec fn party_part(f: PartyField) -> Option<LocationPart> {
    match f {
        PartyField::Name => None,
        PartyField::Building => Some(LocationPart::Building),
        PartyField::Floor => Some(LocationPart::Floor),
        PartyField::Room => Some(LocationPart::Room),
        PartyField::Zone => Some(LocationPart::Zone),
    }
}

/// The party field above (arrow up, stopping at the name).
pub open spec fn party_field_up(f: PartyField) -> PartyField {
    match f {
        PartyField::Name => PartyField::Name,
        PartyField::Building => PartyField::Name,
        PartyField::Floor => PartyField::Building,
        PartyField::Room => PartyField::Floor,
        PartyField::Zone => PartyField::Room,
    }
}

/// The party field below (arrow down, stopping at the zone).
pub open spec fn party_field_down(f: PartyField) -> PartyField {
    match f {
        PartyField::Name => PartyField::Building,
        PartyField::Building => PartyField::Floor,
        PartyField::Floor => PartyField::Room,
        PartyField::Room => PartyField::Zone,
        PartyField::Zone => PartyField::Zone,
    }
}

/// The device field above (arrow up, stopping at the name).
pub open spec fn device_field_up(f: DeviceField) -> DeviceField {
    match f {
        DeviceField::Name => DeviceField::Name,
        DeviceField::Building => DeviceField::Name,
        DeviceField::Floor => DeviceField::Building,
        DeviceField::Room => DeviceField::Floor,
        DeviceField::Zone => DeviceField::Room,
    }
}

/// The device field below (arrow down, stopping at the zone).
pub open spec fn device_field_down(f: DeviceField) -> DeviceField {
    match f {
        DeviceField::Name => DeviceField::Building,
        DeviceField::Building => DeviceField::Floor,
        DeviceField::Floor => DeviceField::Room,
        DeviceField::Room => DeviceField::Zone,
        DeviceField::Zone => DeviceField::Zone,
    }
}

/// The location part a device field edits (`None` for the name).
pub open spec fn device_part(f: DeviceField) -> Option<LocationPart> {
    match f {
        DeviceField::Name => None,
        DeviceField::Building => Some(LocationPart::Building),
        DeviceField::Floor => Some(LocationPart::Floor),
        DeviceField::Room => Some(LocationPart::Room),
        DeviceField::Zone => Some(LocationPart::Zone),
    }
}

fn party_part_of(f: PartyField) -> (r: Option<LocationPart>)
    ensures
        r == party_part(f),
{
    match f {
        PartyField::Name => None,
        PartyField::Building => Some(LocationPart::Building),
        PartyField::Floor => Some(LocationPart::Floor),
        PartyField::Room => Some(LocationPart::Room),
        PartyField::Zone => Some(LocationPart::Zone),
    }
}

fn device_part_of(f: DeviceField) -> (r: Option<LocationPart>)
    ensures
        r == device_part(f),
{
    match f {
        DeviceField::Name => None,
        DeviceField::Building => Some(LocationPart::Building),
        DeviceField::Floor => Some(LocationPart::Floor),
        DeviceField::Room => Some(LocationPart::Room),
        DeviceField::Zone => Some(LocationPart::Zone),
    }
}

/// Whether a key keeps the floor within `u32` when typed into `part`.
pub open spec fn key_fits(part: Option<LocationPart>, floor: Option<u32>, key: KeyCode) -> bool {
    match key {
        KeyCode::Char(c) => (part matches Some(LocationPart::Floor)) ==> floor_fits(floor, c),
        _ => true,
    }
}

/// A name and location after a key in an entity editor: characters are
/// typed into the edited field, Backspace erases from it.
pub open spec fn edited_entity(
    name: Seq<char>,
    loc: LocationView,
    part: Option<LocationPart>,
    key: KeyCode,
) -> (Seq<char>, LocationView) {
    match key {
        KeyCode::Char(c) => match part {
            None => (name.push(c), loc),
            Some(p) => (name, typed_location(loc, p, c)),
        },
        KeyCode::Backspace => match part {
            None => (if name.len() > 0 { name.drop_last() } else { name }, loc),
            Some(p) => (name, erased_location(loc, p)),
        },
        _ => (name, loc),
    }
}

impl PartyEditor {
    /// Create a new party editor from a party
    pub fn from_party(party: &Party) -> (r: Self)
        ensures
            r.name@ == party.name@,
            location_view(r.location) == match party.location {
                Some(l) => location_view(l),
                None => LocationView { building: None, floor: None, room: None, zone: None },
            },
            r.editing_field == PartyField::Name,
            !r.dirty,
    {
        PartyEditor {
            name: party.name.clone(),
            location: match &party.location {
                Some(l) => l.copy(),
                None => Location::default(),
            },
            editing_field: PartyField::Name,
            dirty: false,
        }
    }

    /// Apply editor values to a party: the name, and the location unless it
    /// is empty (then the party has none).
    pub fn apply_to_party(&self, party: &mut Party)
        ensures
            final(party).name@ == self.name@,
            final(party).location == if self.location.is_unset() {
                None
            } else {
                Some(self.location)
            },
            final(party).devices == old(party).devices,
    {
        party.name = self.name.clone();
        if !self.location.is_default() {
            party.location = Some(self.location.copy());
        } else {
            party.location = None;
        }
    }

    /// Handle key input: arrows move between fields, characters are typed
    /// into the edited field, Backspace erases from it.
    pub fn handle_key(&mut self, key: KeyCode)
        requires
            key_fits(party_part(old(self).editing_field), old(self).location.floor, key),
        ensures
            final(self).editing_field == match key {
                KeyCode::Up => party_field_up(old(self).editing_field),
                KeyCode::Down => party_field_down(old(self).editing_field),
                _ => old(self).editing_field,
            },
            (final(self).name@, location_view(final(self).location)) == edited_entity(
                old(self).name@,
                location_view(old(self).location),
                party_part(old(self).editing_field),
                key,
            ),
            final(self).dirty == (old(self).dirty || key is Char || key is Backspace),
    {
        match key {
            KeyCode::Up => {
                self.editing_field = match self.editing_field {
                    PartyField::Name => PartyField::Name,
                    PartyField::Building => PartyField::Name,
                    PartyField::Floor => PartyField::Building,
                    PartyField::Room => PartyField::Floor,
                    PartyField::Zone => PartyField::Room,
                };
            },
            KeyCode::Down => {
                self.editing_field = match self.editing_field {
                    PartyField::Name => PartyField::Building,
                    PartyField::Building => PartyField::Floor,
                    PartyField::Floor => PartyField::Room,
                    PartyField::Room => PartyField::Zone,
                    PartyField::Zone => PartyField::Zone,
                };
            },
            KeyCode::Char(c) => {
                self.dirty = true;
                match party_part_of(self.editing_field) {
                    None => push_char(&mut self.name, c),
                    Some(p) => type_into_location(&mut self.location, p, c),
                }
            },
            KeyCode::Backspace => {
                self.dirty = true;
                match party_part_of(self.editing_field) {
                    None => {
                        pop_char(&mut self.name);
                    },
                    Some(p) => erase_from_location(&mut self.location, p),
                }
            },
            _ => {},
        }
    }
}

impl DeviceEditor {
    /// Create a new device editor from a device
    pub fn from_device(device: &Device) -> (r: Self)
        ensures
            r.name@ == device.name@,
            location_view(r.location) == match device.location {
                Some(l) => location_view(l),
                None => LocationView { building: None, floor: None, room: None, zone: None },
            },
            r.editing_field == DeviceField::Name,
            !r.dirty,
    {
        DeviceEditor {
            name: device.name.clone(),
            location: match &device.location {
                Some(l) => l.copy(),
                None => Location::default(),
            },
            editing_field: DeviceField::Name,
            dirty: false,
        }
    }

    /// Apply editor values to a device: the name, and the location unless it
    /// is empty (then the device has none).
    pub fn apply_to_device(&self, device: &mut Device)
        ensures
            final(device).name@ == self.name@,
            final(device).location == if self.location.is_unset() {
                None
            } else {
                Some(self.location)
            },
            final(device).identifiers == old(device).identifiers,
    {
        device.name = self.name.clone();
        if !self.location.is_default() {
            device.location = Some(self.location.copy());
        } else {
            device.location = None;
        }
    }

    /// Handle key input: arrows move between fields, characters are typed
    /// into the edited field, Backspace erases from it.
    pub fn handle_key(&mut self, key: KeyCode)
        requires
            key_fits(device_part(old(self).editing_field), old(self).location.floor, key),
        ensures
            final(self).editing_field == match key {
                KeyCode::Up => device_field_up(old(self).editing_field),
                KeyCode::Down => device_field_down(old(self).editing_field),
                _ => old(self).editing_field,
            },
            (final(self).name@, location_view(final(self).location)) == edited_entity(
                old(self).name@,
                location_view(old(self).location),
                device_part(old(self).editing_field),
                key,
            ),
            final(self).dirty == (old(self).dirty || key is Char || key is Backspace),
    {
        match key {
            KeyCode::Up => {
                self.editing_field = match self.editing_field {
                    DeviceField::Name => DeviceField::Name,
                    DeviceField::Building => DeviceField::Name,
                    DeviceField::Floor => DeviceField::Building,
                    DeviceField::Room => DeviceField::Floor,
                    DeviceField::Zone => DeviceField::Room,
                };
            },
            KeyCode::Down => {
                self.editing_field = match self.editing_field {
                    DeviceField::Name => DeviceField::Building,
                    DeviceField::Building => DeviceField::Floor,
                    DeviceField::Floor => DeviceField::Room,
                    DeviceField::Room => DeviceField::Zone,
                    DeviceField::Zone => DeviceField::Zone,
                };
            },
            KeyCode::Char(c) => {
                self.dirty = true;
                match device_part_of(self.editing_field) {
                    None => push_char(&mut self.name, c),
                    Some(p) => type_into_location(&mut self.location, p, c),
                }
            },
            KeyCode::Backspace => {
                self.dirty = true;
                match device_part_of(self.editing_field) {
                    None => {
                        pop_char(&mut self.name);
                    },
                    Some(p) => erase_from_location(&mut self.location, p),
                }
            },
            _ => {},
        }
    }
}

/// The identifier type after the given one, in a fixed cycle.
pub open spec fn next_identifier_type(t: IdentifierType) -> IdentifierType {
    match t {
        IdentifierType::BleMac => IdentifierType::WifiMac,
        IdentifierType::WifiMac => IdentifierType::IpV4,
        IdentifierType::IpV4 => IdentifierType::IpV6,
        IdentifierType::IpV6 => IdentifierType::Hostname,
        IdentifierType::Hostname => IdentifierType::CardId,
        IdentifierType::CardId => IdentifierType::DoorSensor,
        IdentifierType::DoorSensor => IdentifierType::BleMac,
    }
}

impl IdentifierEditor {
    /// Create a new identifier editor from an identifier
    pub fn from_identifier(identifier: &Identifier) -> (r: Self)
        ensures
            r.name@ == identifier.name@,
            r.id_type == identifier.id_type,
            r.value@ == identifier.value@,
            r.editing_field == IdentifierField::Name,
            !r.dirty,
    {
        IdentifierEditor {
            name: identifier.name.clone(),
            id_type: identifier.id_type,
            value: identifier.value.clone(),
            editing_field: IdentifierField::Name,
            dirty: false,
        }
    }

    /// Apply editor values to an identifier
    pub fn apply_to_identifier(&self, identifier: &mut Identifier)
        ensures
            final(identifier).name@ == self.name@,
            final(identifier).id_type == self.id_type,
            final(identifier).value@ == self.value@,
    {
        identifier.name = self.name.clone();
        identifier.id_type = self.id_type;
        identifier.value = self.value.clone();
    }

    /// Handle key input: arrows move between fields, characters are typed
    /// into the name or value (any character on the type field cycles the
    /// type), Backspace erases from the name or value.
    pub fn handle_key(&mut self, key: KeyCode)
        ensures
            final(self).editing_field == match key {
                KeyCode::Up => match old(self).editing_field {
                    IdentifierField::Value => IdentifierField::Type,
                    _ => IdentifierField::Name,
                },
                KeyCode::Down => match old(self).editing_field {
                    IdentifierField::Name => IdentifierField::Type,
                    _ => IdentifierField::Value,
                },
                _ => old(self).editing_field,
            },
            final(self).name@ == match (key, old(self).editing_field) {
                (KeyCode::Char(c), IdentifierField::Name) => old(self).name@.push(c),
                (KeyCode::Backspace, IdentifierField::Name) => if old(self).name@.len() > 0 {
                    old(self).name@.drop_last()
                } else {
                    old(self).name@
                },
                _ => old(self).name@,
            },
            final(self).value@ == match (key, old(self).editing_field) {
                (KeyCode::Char(c), IdentifierField::Value) => old(self).value@.push(c),
                (KeyCode::Backspace, IdentifierField::Value) => if old(self).value@.len() > 0 {
                    old(self).value@.drop_last()
                } else {
                    old(self).value@
                },
                _ => old(self).value@,
            },
            final(self).id_type == match (key, old(self).editing_field) {
                (KeyCode::Char(_), IdentifierField::Type) => next_identifier_type(old(self).id_type),
                _ => old(self).id_type,
            },
            final(self).dirty == (old(self).dirty || key is Char || key is Backspace),
    {
        match key {
            KeyCode::Up => {
                self.editing_field = match self.editing_field {
                    IdentifierField::Name => IdentifierField::Name,
                    IdentifierField::Type => IdentifierField::Name,
                    IdentifierField::Value => IdentifierField::Type,
                };
            },
            KeyCode::Down => {
                self.editing_field = match self.editing_field {
                    IdentifierField::Name => IdentifierField::Type,
                    IdentifierField::Type => IdentifierField::Value,
                    IdentifierField::Value => IdentifierField::Value,
                };
            },
            KeyCode::Char(c) => {
                self.dirty = true;
                match self.editing_field {
                    IdentifierField::Name => push_char(&mut self.name, c),
                    IdentifierField::Value => push_char(&mut self.value, c),
                    IdentifierField::Type => {
                        self.id_type = match self.id_type {
                            IdentifierType::BleMac => IdentifierType::WifiMac,
                            IdentifierType::WifiMac => IdentifierType::IpV4,
                            IdentifierType::IpV4 => IdentifierType::IpV6,
                            IdentifierType::IpV6 => IdentifierType::Hostname,
                            IdentifierType::Hostname => IdentifierType::CardId,
                            IdentifierType::CardId => IdentifierType::DoorSensor,
                            IdentifierType::DoorSensor => IdentifierType::BleMac,
                        };
                    },
                }
            },
            KeyCode::Backspace => {
                self.dirty = true;
                match self.editing_field {
                    IdentifierField::Name => {
                        pop_char(&mut self.name);
                    },
                    IdentifierField::Value => {
                        pop_char(&mut self.value);
                    },
                    IdentifierField::Type => {},
                }
            },
            _ => {},
        }
    }

    /// Validate the current identifier: the name must be non-empty, then
    /// the value must be valid for the type.
    pub fn validate(&self) -> (r: Result<(), IdentifierError>)
        ensures
            self.name@.len() == 0 ==> r matches Err(IdentifierError::EmptyName),
            self.name@.len() > 0 ==> identifier_check(self.id_type, self.value@, r),
    {
        if self.name.as_str().is_empty() {
            return Err(IdentifierError::EmptyName);
        }
        PresenceManager::validate_identifier(&self.id_type, self.value.as_str())
    }
}

/// Cycling the identifier type seven times returns to the starting type.
pub proof fn law_identifier_type_cycle(t: IdentifierType)
    ensures
        next_identifier_type(next_identifier_type(next_identifier_type(next_identifier_type(
            next_identifier_type(next_identifier_type(next_identifier_type(t))),
        )))) == t,
{
}


/// Editing a party without changes gives it back: an editor made by
/// `from_party` and applied with `apply_to_party` leaves the party's name and
/// location as they were, except that a location with no part set becomes
/// none. `e` stands for the editor `from_party(p)` makes and `q` for the
/// party after `e.apply_to_party`, as their contracts state them.
pub proof fn law_party_round_trip(p: Party, e: PartyEditor, q: Party)
    requires
        e.name@ == p.name@,
        location_view(e.location) == match p.location {
            Some(l) => location_view(l),
            None => LocationView { building: None, floor: None, room: None, zone: None },
        },
        q.name@ == e.name@,
        q.location == if e.location.is_unset() {
            None
        } else {
            Some(e.location)
        },
    ensures
        q.name@ == p.name@,
        match q.location {
            None => p.location is None || p.location.unwrap().is_unset(),
            Some(l) => p.location matches Some(pl) && !pl.is_unset() && location_view(l) == location_view(pl),
        },
{
    let v = location_view(e.location);
    assert(e.location.is_unset() <==> (v.building is None && v.floor is None && v.room is None && v.zone is None));
    match p.location {
        Some(pl) => {
            assert(pl.is_unset() <==> (location_view(pl).building is None && location_view(pl).floor is None
                && location_view(pl).room is None && location_view(pl).zone is None));
        },
        None => {},
    }
}

/// Whether `t` is `s` with some ASCII letters switched between upper and
/// lower case.
pub open spec fn same_up_to_ascii_case(s: Seq<char>, t: Seq<char>) -> bool {
    s.len() == t.len() && forall|i: int|
        0 <= i < s.len() ==> {
            ||| #[trigger] s[i] == #[trigger] t[i]
            ||| ('a' <= s[i] && s[i] <= 'z' && (s[i] as int) - (t[i] as int) == 32)
            ||| ('a' <= t[i] && t[i] <= 'z' && (t[i] as int) - (s[i] as int) == 32)
        }
}

/// A MAC address value (BLE or WiFi) is accepted exactly when it is six pairs
/// of ASCII hex digits, upper or lower case, separated by `:`; any other
/// value is refused as an invalid MAC address.
pub proof fn law_mac_accepted_shape(id_type: IdentifierType, value: Seq<char>, check: Result<(), IdentifierError>)
    requires
        id_type == IdentifierType::BleMac || id_type == IdentifierType::WifiMac,
        identifier_check(id_type, value, check),
    ensures
        check is Ok <==> (value.len() == 17 && forall|i: int|
            0 <= i < 17 ==> if i % 3 == 2 {
                #[trigger] value[i] == ':'
            } else {
                ('0' <= value[i] && value[i] <= '9') || ('a' <= value[i] && value[i] <= 'f') || (
                'A' <= value[i] && value[i] <= 'F')
            }),
        !(check is Ok) ==> check matches Err(IdentifierError::InvalidMac),
{
}

/// Letter case does not matter to MAC validation: two values that differ only
/// in the case of ASCII letters are both accepted or both refused.
pub proof fn law_mac_case_insensitive(
    id_type: IdentifierType,
    s: Seq<char>,
    t: Seq<char>,
    check_s: Result<(), IdentifierError>,
    check_t: Result<(), IdentifierError>,
)
    requires
        id_type == IdentifierType::BleMac || id_type == IdentifierType::WifiMac,
        same_up_to_ascii_case(s, t),
        identifier_check(id_type, s, check_s),
        identifier_check(id_type, t, check_t),
    ensures
        check_s is Ok <==> check_t is Ok,
{
    law_mac_accepted_shape(id_type, s, check_s);
    law_mac_accepted_shape(id_type, t, check_t);
    if check_s is Ok {
        assert forall|i: int| 0 <= i < 17 implies if i % 3 == 2 {
            #[trigger] t[i] == ':'
        } else {
            ('0' <= t[i] && t[i] <= '9') || ('a' <= t[i] && t[i] <= 'f') || ('A' <= t[i] && t[i] <= 'F')
        } by {
            assert(s[i] == t[i] || ('a' <= s[i] && s[i] <= 'z' && (s[i] as int) - (t[i] as int) == 32) || (
            'a' <= t[i] && t[i] <= 'z' && (t[i] as int) - (s[i] as int) == 32));
        }
    }
    if check_t is Ok {
        assert forall|i: int| 0 <= i < 17 implies if i % 3 == 2 {
            #[trigger] s[i] == ':'
        } else {
            ('0' <= s[i] && s[i] <= '9') || ('a' <= s[i] && s[i] <= 'f') || ('A' <= s[i] && s[i] <= 'F')
        } by {
            assert(s[i] == t[i] || ('a' <= s[i] && s[i] <= 'z' && (s[i] as int) - (t[i] as int) == 32) || (
            'a' <= t[i] && t[i] <= 'z' && (t[i] as int) - (s[i] as int) == 32));
        }
    }
}

} // verus!
