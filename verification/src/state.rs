//! Presence states, presence events and the table of tracked devices.
use vstd::prelude::*;
use crate::text::str_eq;

verus! {

/// Presence state of a tracked device.
#[derive(Debug, Clone, Copy, PartialEq, Eq, Structural)]
pub enum PresenceState {
    /// Seen, but not (yet) considered present.
    Pending,
    /// Considered present.
    Entered,
    /// Considered gone after having been present.
    Exited,
}

/// A presence transition reported by the detection engine.
#[derive(Debug, Clone)]
pub enum PresenceEvent {
    /// The device entered.
    Entered {
        /// Display name of the device.
        name: String,
        /// Identifier of the device.
        mac: String,
    },
    /// The device exited.
    Exited {
        /// Display name of the device.
        name: String,
        /// Identifier of the device.
        mac: String,
    },
}

/// A presence event as plain text values.
pub enum EventView {
    Entered { name: Seq<char>, mac: Seq<char> },
    Exited { name: Seq<char>, mac: Seq<char> },
}

impl PresenceEvent {
    /// The event with its texts as character sequences.
    pub open spec fn view(&self) -> EventView {
        match self {
            PresenceEvent::Entered { name, mac } => EventView::Entered { name: name@, mac: mac@ },
            PresenceEvent::Exited { name, mac } => EventView::Exited { name: name@, mac: mac@ },
        }
    }
}

/// A tracked device: its identifier, last RSSI and presence state.
#[derive(Debug, Clone)]
pub struct DeviceState {
    /// Identifier (MAC address) of the device.
    pub mac: String,
    /// Last recorded RSSI.
    pub rssi: i16,
    /// Current presence state.
    pub state: PresenceState,
}

/// Whether no identifier occurs twice.
pub open spec fn macs_distinct(devices: Seq<DeviceState>) -> bool {
    forall|i: int, j: int|
        0 <= i < devices.len() && 0 <= j < devices.len() && i != j ==> #[trigger] devices[i].mac@
            != #[trigger] devices[j].mac@
}

/// Position of the device with identifier `mac`, if tracked.
pub open spec fn device_index(devices: Seq<DeviceState>, mac: Seq<char>) -> Option<int> {
    if exists|i: int| 0 <= i < devices.len() && #[trigger] devices[i].mac@ == mac {
        Some(choose|i: int| 0 <= i < devices.len() && #[trigger] devices[i].mac@ == mac)
    } else {
        None
    }
}

/// With distinct identifiers, the position of a tracked identifier is its index.
pub proof fn lemma_device_index(devices: Seq<DeviceState>, i: int)
    requires
        macs_distinct(devices),
        0 <= i < devices.len(),
    ensures
        device_index(devices, devices[i].mac@) == Some(i),
{
}

/// Table of tracked devices and their presence states, in the order they were
/// first seen.
#[derive(Debug, Clone)]
pub struct PresenceStateTable {
    devices: Vec<DeviceState>,
}

impl PresenceStateTable {
    /// The tracked devices in first-seen order.
    pub closed spec fn entries(&self) -> Seq<DeviceState> {
        self.devices@
    }

    /// The table invariant: no identifier is tracked twice.
    pub open spec fn wf(&self) -> bool {
        macs_distinct(self.entries())
    }

    /// Creates an empty table.
    pub fn new() -> (r: Self)
        ensures
            r.entries().len() == 0,
            r.wf(),
    {
        PresenceStateTable { devices: Vec::new() }
    }

    /// Position of `mac` in the table, if tracked.
    pub fn find(&self, mac: &str) -> (r: Option<usize>)
        requires
            self.wf(),
        ensures
            match r {
                Some(i) => i < self.entries().len() && device_index(self.entries(), mac@) == Some(
                    i as int,
                ),
                None => device_index(self.entries(), mac@).is_none(),
            },
    {
        let mut i: usize = 0;
        while i < self.devices.len()
            invariant
                i <= self.devices@.len(),
                macs_distinct(self.devices@),
                forall|j: int| 0 <= j < i ==> #[trigger] self.devices@[j].mac@ != mac@,
            decreases self.devices@.len() - i,
        {
            if str_eq(self.devices[i].mac.as_str(), mac) {
                proof { lemma_device_index(self.devices@, i as int); }
                return Some(i);
            }
            i = i + 1;
        }
        None
    }

    /// Records a sighting: updates the RSSI of a tracked device, or starts
    /// tracking the device as `Pending`.
    pub fn update(&mut self, mac: &str, rssi: i16)
        requires
            old(self).wf(),
        ensures
            final(self).wf(),
            match device_index(old(self).entries(), mac@) {
                Some(i) => final(self).entries() == old(self).entries().update(
                    i,
                    DeviceState { rssi, ..old(self).entries()[i] },
                ),
                None => final(self).entries().len() == old(self).entries().len() + 1
                    && final(self).entries().drop_last() == old(self).entries()
                    && final(self).entries().last().mac@ == mac@
                    && final(self).entries().last().rssi == rssi
                    && final(self).entries().last().state == PresenceState::Pending,
            },
    {
        match self.find(mac) {
            Some(i) => {
                let ghost before = self.devices@;
                let mut d = self.devices[i].clone_state();
                d.rssi = rssi;
                self.devices.set(i, d);
                assert(self.devices@ =~= before.update(i as int, DeviceState { rssi, ..before[i as int] }));
            },
            None => {
                let ghost before = self.devices@;
                self.devices.push(DeviceState { mac: mac.to_owned(), rssi, state: PresenceState::Pending });
                assert(self.devices@.drop_last() =~= before);
            },
        }
    }

    /// The tracked device with identifier `mac`, if any.
    pub fn get(&self, mac: &str) -> (r: Option<&DeviceState>)
        requires
            self.wf(),
        ensures
            match device_index(self.entries(), mac@) {
                Some(i) => r == Some(&self.entries()[i]),
                None => r.is_none(),
            },
    {
        match self.find(mac) {
            Some(i) => Some(&self.devices[i]),
            None => None,
        }
    }

    /// The presence state of `mac`, if tracked.
    pub fn get_state(&self, mac: &str) -> (r: Option<PresenceState>)
        requires
            self.wf(),
        ensures
            match device_index(self.entries(), mac@) {
                Some(i) => r == Some(self.entries()[i].state),
                None => r.is_none(),
            },
    {
        match self.find(mac) {
            Some(i) => Some(self.devices[i].state),
            None => None,
        }
    }

    /// Sets the presence state of a tracked device; an untracked identifier
    /// leaves the table unchanged.
    pub fn set_state(&mut self, mac: &str, state: PresenceState)
        requires
            old(self).wf(),
        ensures
            final(self).wf(),
            match device_index(old(self).entries(), mac@) {
                Some(i) => final(self).entries() == old(self).entries().update(
                    i,
                    DeviceState { state, ..old(self).entries()[i] },
                ),
                None => final(self).entries() == old(self).entries(),
            },
    {
        if let Some(i) = self.find(mac) {
            self.set_state_at(i, state);
        }
    }

    /// Sets the presence state of the device at position `i`.
    pub fn set_state_at(&mut self, i: usize, state: PresenceState)
        requires
            old(self).wf(),
            i < old(self).entries().len(),
        ensures
            final(self).wf(),
            final(self).entries() == old(self).entries().update(
                i as int,
                DeviceState { state, ..old(self).entries()[i as int] },
            ),
    {
        let ghost before = self.devices@;
        let mut d = self.devices[i].clone_state();
        d.state = state;
        self.devices.set(i, d);
        assert(self.devices@ =~= before.update(i as int, DeviceState { state, ..before[i as int] }));
    }

    /// The device at position `i`.
    pub fn at(&self, i: usize) -> (r: &DeviceState)
        requires
            i < self.entries().len(),
        ensures
            *r == self.entries()[i as int],
    {
        &self.devices[i]
    }

    /// Number of tracked devices.
    pub fn len(&self) -> (r: usize)
        ensures
            r == self.entries().len(),
    {
        self.devices.len()
    }

    /// Copies of the devices currently considered present, in table order.
    pub fn list_present(&self) -> (r: Vec<DeviceState>)
        ensures
            r@ == self.entries().filter(|d: DeviceState| d.state == PresenceState::Entered),
    {
        let mut out: Vec<DeviceState> = Vec::new();
        let mut i: usize = 0;
        while i < self.devices.len()
            invariant
                i <= self.devices@.len(),
                out@ == self.devices@.subrange(0, i as int).filter(
                    |d: DeviceState| d.state == PresenceState::Entered,
                ),
            decreases self.devices@.len() - i,
        {
            reveal_with_fuel(Seq::<_>::filter, 1);
            assert(self.devices@.subrange(0, i + 1).drop_last() =~= self.devices@.subrange(
                0,
                i as int,
            ));
            if self.devices[i].state == PresenceState::Entered {
                out.push(self.devices[i].clone_state());
            }
            i = i + 1;
        }
        assert(self.devices@.subrange(0, self.devices@.len() as int) =~= self.devices@);
        out
    }
}

impl DeviceState {
    /// A field-for-field copy.
    pub fn clone_state(&self) -> (r: DeviceState)
        ensures
            r == *self,
    {
        DeviceState { mac: self.mac.clone(), rssi: self.rssi, state: self.state }
    }
}

} // verus!
