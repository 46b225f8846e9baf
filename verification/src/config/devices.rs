//! The legacy device map: MAC address to display name.
use vstd::prelude::*;
use crate::text::str_eq;

verus! {

/// A single mapped device with its display name.
#[derive(Debug, Clone)]
pub struct DeviceConfig {
    /// Bluetooth MAC address (e.g., "AA:BB:CC:DD:EE:FF").
    pub mac: String,
    /// Human-readable display name for the device.
    pub name: String,
}

/// Collection of known device mappings keyed by MAC address.
///
/// The map is held as key/value entries in insertion order; no key occurs twice.
#[derive(Debug, Clone)]
pub struct DevicesConfig {
    /// Map entries: MAC address and device config.
    pub devices: Vec<(String, DeviceConfig)>,
}

/// Whether no key occurs twice among the entries.
pub open spec fn keys_distinct(entries: Seq<(String, DeviceConfig)>) -> bool {
    forall|i: int, j: int|
        0 <= i < entries.len() && 0 <= j < entries.len() && i != j ==> #[trigger] entries[i].0@
            != #[trigger] entries[j].0@
}

/// Index of the entry whose key is `key`, if any.
pub open spec fn entry_index(entries: Seq<(String, DeviceConfig)>, key: Seq<char>) -> Option<int> {
    if exists|i: int| 0 <= i < entries.len() && #[trigger] entries[i].0@ == key {
        Some(choose|i: int| 0 <= i < entries.len() && #[trigger] entries[i].0@ == key)
    } else {
        None
    }
}

impl Default for DevicesConfig {
    fn default() -> (r: Self)
        ensures
            r.devices@.len() == 0,
    {
        DevicesConfig { devices: Vec::new() }
    }
}

impl DevicesConfig {
    /// Whether the entries satisfy the map invariant.
    pub open spec fn wf(&self) -> bool {
        keys_distinct(self.devices@)
    }

    /// Look up a device by its MAC address.
    pub fn get(&self, mac: &str) -> (r: Option<&DeviceConfig>)
        requires
            self.wf(),
        ensures
            match entry_index(self.devices@, mac@) {
                Some(i) => r == Some(&self.devices@[i].1),
                None => r.is_none(),
            },
    {
        let mut i: usize = 0;
        while i < self.devices.len()
            invariant
                i <= self.devices@.len(),
                self.wf(),
                forall|j: int| 0 <= j < i ==> #[trigger] self.devices@[j].0@ != mac@,
            decreases self.devices@.len() - i,
        {
            if str_eq(self.devices[i].0.as_str(), mac) {
                assert(entry_index(self.devices@, mac@) == Some(i as int));
                return Some(&self.devices[i].1);
            }
            i = i + 1;
        }
        None
    }

    /// Inserts or replaces the device stored under `mac`.
    pub fn insert(&mut self, mac: String, device: DeviceConfig)
        requires
            old(self).wf(),
        ensures
            final(self).wf(),
            match entry_index(old(self).devices@, mac@) {
                Some(i) => final(self).devices@ == old(self).devices@.update(i, (mac, device)),
                None => final(self).devices@ == old(self).devices@.push((mac, device)),
            },
    {
        let mut i: usize = 0;
        while i < self.devices.len()
            invariant
                i <= self.devices@.len(),
                self.wf(),
                self.devices@ == old(self).devices@,
                forall|j: int| 0 <= j < i ==> #[trigger] self.devices@[j].0@ != mac@,
            decreases self.devices@.len() - i,
        {
            if str_eq(self.devices[i].0.as_str(), mac.as_str()) {
                assert(entry_index(self.devices@, mac@) == Some(i as int));
                self.devices.set(i, (mac, device));
                return;
            }
            i = i + 1;
        }
        self.devices.push((mac, device));
    }

    /// Returns true if no devices are configured.
    pub fn is_empty(&self) -> (r: bool)
        ensures
            r == (self.devices@.len() == 0),
    {
        self.devices.len() == 0
    }
}

} // verus!
