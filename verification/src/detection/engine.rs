//! The detection engine: evaluates sightings against the thresholds and keeps
//! per-device debounce state.
//!
//! The engine's behaviour is stated over a model (`EngineView`): a step for a
//! sighting (`scan_step`) and a step for the periodic exit check
//! (`exits_step`). Times are nanoseconds since the engine was created.
use vstd::prelude::*;
use std::time::Instant;
use crate::clock::{elapsed_nanos, now, NANOS_PER_SEC};
use crate::config::app::DetectionThresholds;
use crate::config::devices::{entry_index, DevicesConfig};
use crate::state::{
    device_index, lemma_device_index, DeviceState, EventView, PresenceEvent, PresenceState,
    PresenceStateTable,
};

verus! {

/// Debounce times of one tracked device.
#[derive(Debug, Clone, Copy)]
pub struct SightingTimer {
    /// When the device was first seen at or above the enter threshold since
    /// the last reset.
    pub first_qualified_at: Option<u128>,
    /// When the device was last seen.
    pub last_seen_at: u128,
}

/// A tracked device in the model.
pub struct Track {
    pub mac: Seq<char>,
    pub rssi: i16,
    pub state: PresenceState,
    pub first_qualified: Option<u128>,
    pub last_seen: u128,
}

/// The engine as a model: thresholds, the device map and the tracked devices
/// in first-seen order.
pub struct EngineView {
    pub config: DetectionThresholds,
    pub devices: Seq<(String, crate::config::devices::DeviceConfig)>,
    pub tracks: Seq<Track>,
}

/// Position of the track of `mac`, if tracked.
pub open spec fn track_index(tracks: Seq<Track>, mac: Seq<char>) -> Option<int> {
    if exists|i: int| 0 <= i < tracks.len() && #[trigger] tracks[i].mac == mac {
        Some(choose|i: int| 0 <= i < tracks.len() && #[trigger] tracks[i].mac == mac)
    } else {
        None
    }
}

/// Whether no device is tracked twice.
pub open spec fn tracks_distinct(tracks: Seq<Track>) -> bool {
    forall|i: int, j: int|
        0 <= i < tracks.len() && 0 <= j < tracks.len() && i != j ==> #[trigger] tracks[i].mac
            != #[trigger] tracks[j].mac
}

/// Time from `t` to `now`, zero if `now` is earlier.
pub open spec fn elapsed_since(now: u128, t: u128) -> int {
    if now >= t {
        now - t
    } else {
        0
    }
}

/// A number of seconds in nanoseconds.
pub open spec fn secs_to_nanos(s: u64) -> int {
    s * NANOS_PER_SEC
}

/// Whether a device is known by the device map.
pub open spec fn is_known(devices: Seq<(String, crate::config::devices::DeviceConfig)>, mac: Seq<char>) -> bool {
    entry_index(devices, mac).is_some()
}

/// The name shown for a device: its configured name, else its identifier.
pub open spec fn display_name(
    devices: Seq<(String, crate::config::devices::DeviceConfig)>,
    mac: Seq<char>,
) -> Seq<char> {
    match entry_index(devices, mac) {
        Some(i) => devices[i].1.name@,
        None => mac,
    }
}

/// The track of `mac` after a sighting with `rssi` at `now`, from its previous
/// track if any (a new track starts `Pending` with no qualified sighting).
pub open spec fn sighted_track(
    config: DetectionThresholds,
    prev: Option<Track>,
    mac: Seq<char>,
    rssi: i16,
    now: u128,
) -> Track {
    let first0 = match prev {
        Some(t) => t.first_qualified,
        None => None,
    };
    let state0 = match prev {
        Some(t) => t.state,
        None => PresenceState::Pending,
    };
    let first = if first0.is_none() && rssi >= config.enter_rssi_threshold_dbm {
        Some(now)
    } else {
        first0
    };
    let enters = rssi >= config.enter_rssi_threshold_dbm && first.is_some() && elapsed_since(
        now,
        first.unwrap(),
    ) >= secs_to_nanos(config.enter_duration_seconds) && state0 != PresenceState::Entered;
    Track {
        mac,
        rssi,
        state: if enters {
            PresenceState::Entered
        } else {
            state0
        },
        first_qualified: first,
        last_seen: now,
    }
}

/// The engine after a sighting of `mac` with `rssi` at `now`, and the event
/// it reports: unknown devices are ignored unless unknown devices are
/// tracked; otherwise the device's track is updated (or started) and an entry
/// is reported when the RSSI is at the threshold, the first qualified
/// sighting is at least the enter duration ago and the device is not already
/// entered.
pub open spec fn scan_step(v: EngineView, mac: Seq<char>, rssi: i16, now: u128) -> (
    EngineView,
    Option<EventView>,
) {
    if !is_known(v.devices, mac) && !v.config.track_unknown {
        (v, None)
    } else {
        let idx = track_index(v.tracks, mac);
        let prev = match idx {
            Some(i) => Some(v.tracks[i]),
            None => None,
        };
        let t = sighted_track(v.config, prev, mac, rssi, now);
        let tracks = match idx {
            Some(i) => v.tracks.update(i, t),
            None => v.tracks.push(t),
        };
        let entered = t.state == PresenceState::Entered && (match prev {
            Some(p) => p.state != PresenceState::Entered,
            None => true,
        });
        (
            EngineView { tracks, ..v },
            if entered {
                Some(EventView::Entered { name: display_name(v.devices, mac), mac })
            } else {
                None
            },
        )
    }
}

/// Whether a track is present and has not been seen for the exit timeout.
pub open spec fn expired(config: DetectionThresholds, t: Track, now: u128) -> bool {
    t.state == PresenceState::Entered && elapsed_since(now, t.last_seen) >= secs_to_nanos(
        config.exit_timeout_seconds,
    )
}

/// A track after its device exited: `Exited`, with the enter debounce reset.
pub open spec fn exited_track(t: Track) -> Track {
    Track { state: PresenceState::Exited, first_qualified: None, ..t }
}

/// The engine after the exit check at `now`, and the exits it reports in
/// tracking order: every present device not seen for the exit timeout exits.
pub open spec fn exits_step(v: EngineView, now: u128) -> (EngineView, Seq<EventView>) {
    (
        EngineView {
            tracks: v.tracks.map_values(
                |t: Track|
                    if expired(v.config, t, now) {
                        exited_track(t)
                    } else {
                        t
                    },
            ),
            ..v
        },
        v.tracks.filter(|t: Track| expired(v.config, t, now)).map_values(
            |t: Track| EventView::Exited { name: display_name(v.devices, t.mac), mac: t.mac },
        ),
    )
}

/// Core detection engine that evaluates BLE scan results against configured
/// thresholds and manages per-device debounce timers.
pub struct DetectionEngine {
    config: DetectionThresholds,
    devices: DevicesConfig,
    state_table: PresenceStateTable,
    timers: Vec<SightingTimer>,
    epoch: Instant,
}

/// The model track of a table entry and its timer.
pub open spec fn track_of(d: DeviceState, t: SightingTimer) -> Track {
    Track {
        mac: d.mac@,
        rssi: d.rssi,
        state: d.state,
        first_qualified: t.first_qualified_at,
        last_seen: t.last_seen_at,
    }
}

impl DetectionEngine {
    /// The engine as a model.
    pub closed spec fn view(&self) -> EngineView {
        EngineView {
            config: self.config,
            devices: self.devices.devices@,
            tracks: Seq::new(
                self.state_table.entries().len(),
                |i: int| track_of(self.state_table.entries()[i], self.timers@[i]),
            ),
        }
    }

    /// The engine invariant.
    pub closed spec fn wf(&self) -> bool {
        &&& self.devices.wf()
        &&& self.state_table.wf()
        &&& self.timers@.len() == self.state_table.entries().len()
    }

    /// The presence table the engine keeps.
    pub closed spec fn table(&self) -> PresenceStateTable {
        self.state_table
    }

    proof fn lemma_view_tracks(&self)
        requires
            self.wf(),
        ensures
            tracks_distinct(self.view().tracks),
            self.view().tracks.len() == self.state_table.entries().len(),
            forall|m: Seq<char>|
                #[trigger] track_index(self.view().tracks, m) == device_index(
                    self.state_table.entries(),
                    m,
                ),
    {
        let tr = self.view().tracks;
        let en = self.state_table.entries();
        assert forall|m: Seq<char>| #[trigger]
            track_index(tr, m) == device_index(en, m) by {
            if exists|i: int| 0 <= i < en.len() && #[trigger] en[i].mac@ == m {
                let i = choose|i: int| 0 <= i < en.len() && #[trigger] en[i].mac@ == m;
                assert(tr[i].mac == m);
                lemma_device_index(en, i);
                let j = choose|j: int| 0 <= j < tr.len() && #[trigger] tr[j].mac == m;
                assert(en[j].mac@ == m);
            } else {
                if exists|j: int| 0 <= j < tr.len() && #[trigger] tr[j].mac == m {
                    let j = choose|j: int| 0 <= j < tr.len() && #[trigger] tr[j].mac == m;
                    assert(en[j].mac@ == m);
                }
            }
        }
    }

    /// Create a new detection engine.
    pub fn new(config: DetectionThresholds, devices: DevicesConfig) -> (r: Self)
        requires
            devices.wf(),
        ensures
            r.wf(),
            r.view().config == config,
            r.view().devices == devices.devices@,
            r.view().tracks.len() == 0,
    {
        let r = DetectionEngine {
            config,
            devices,
            state_table: PresenceStateTable::new(),
            timers: Vec::new(),
            epoch: now(),
        };
        assert(r.view().tracks =~= Seq::<Track>::empty());
        r
    }

    /// Evaluate a sighting of `mac` with `rssi` at time `now` (nanoseconds since
    /// the engine was created) and return a presence event if a state
    /// transition occurs.
    pub fn evaluate_scan_at(&mut self, mac: &str, rssi: i16, now: u128) -> (r: Option<PresenceEvent>)
        requires
            old(self).wf(),
        ensures
            final(self).wf(),
            (final(self).view(), match r {
                Some(e) => Some(e.view()),
                None => None,
            }) == scan_step(old(self).view(), mac@, rssi, now),
    {
        proof {
            self.lemma_view_tracks();
        }
        let ghost v0 = self.view();
        let known = self.devices.get(mac).is_some();
        if !known && !self.config.track_unknown {
            return None;
        }
        let idx = self.state_table.find(mac);
        self.state_table.update(mac, rssi);
        let i: usize = match idx {
            Some(i) => i,
            None => {
                self.timers.push(SightingTimer { first_qualified_at: None, last_seen_at: now });
                self.timers.len() - 1
            },
        };
        let mut t = self.timers[i];
        t.last_seen_at = now;
        if rssi >= self.config.enter_rssi_threshold_dbm && t.first_qualified_at.is_none() {
            t.first_qualified_at = Some(now);
        }
        self.timers.set(i, t);
        let state = self.state_table.at(i).state;
        let mut event: Option<PresenceEvent> = None;
        if rssi >= self.config.enter_rssi_threshold_dbm {
            if let Some(first) = t.first_qualified_at {
                let waited: u128 = if now >= first {
                    now - first
                } else {
                    0
                };
                if waited >= (self.config.enter_duration_seconds as u128) * NANOS_PER_SEC && state
                    != PresenceState::Entered {
                    let name = match self.devices.get(mac) {
                        Some(d) => d.name.clone(),
                        None => mac.to_owned(),
                    };
                    self.state_table.set_state_at(i, PresenceState::Entered);
                    event = Some(PresenceEvent::Entered { name, mac: mac.to_owned() });
                }
            }
        }
        proof {
            let (v1, e1) = scan_step(v0, mac@, rssi, now);
            assert(self.view().tracks =~= v1.tracks);
        }
        event
    }

    /// Check all tracked devices for exit conditions at time `now` and return
    /// the exit events, in tracking order.
    pub fn check_exits_at(&mut self, now: u128) -> (r: Vec<PresenceEvent>)
        requires
            old(self).wf(),
        ensures
            final(self).wf(),
            (final(self).view(), r@.map_values(|e: PresenceEvent| e.view())) == exits_step(
                old(self).view(),
                now,
            ),
    {
        let ghost v0 = self.view();
        let ghost cfg = self.config;
        let mut events: Vec<PresenceEvent> = Vec::new();
        let n = self.state_table.len();
        let timeout: u128 = (self.config.exit_timeout_seconds as u128) * NANOS_PER_SEC;
        let mut i: usize = 0;
        while i < n
            invariant
                self.wf(),
                n == self.state_table.entries().len(),
                n == v0.tracks.len(),
                self.config == cfg,
                v0.config == cfg,
                timeout == secs_to_nanos(cfg.exit_timeout_seconds),
                self.devices.devices@ == v0.devices,
                i <= n,
                forall|j: int|
                    0 <= j < i ==> #[trigger] self.view().tracks[j] == if expired(
                        cfg,
                        v0.tracks[j],
                        now,
                    ) {
                        exited_track(v0.tracks[j])
                    } else {
                        v0.tracks[j]
                    },
                forall|j: int| i <= j < n ==> #[trigger] self.view().tracks[j] == v0.tracks[j],
                events@.map_values(|e: PresenceEvent| e.view()) == v0.tracks.take(i as int).filter(
                    |t: Track| expired(cfg, t, now),
                ).map_values(
                    |t: Track| EventView::Exited { name: display_name(v0.devices, t.mac), mac: t.mac },
                ),
            decreases n - i,
        {
            let ghost before = self.view().tracks;
            let ghost ev_before = events@;
            reveal_with_fuel(Seq::<_>::filter, 1);
            assert(v0.tracks.take(i + 1).drop_last() =~= v0.tracks.take(i as int));
            let t = self.timers[i];
            let is_entered = self.state_table.at(i).state == PresenceState::Entered;
            let waited: u128 = if now >= t.last_seen_at {
                now - t.last_seen_at
            } else {
                0
            };
            assert(before[i as int] == v0.tracks[i as int]);
            if is_entered && waited >= timeout {
                let mac = self.state_table.at(i).mac.clone();
                let name = match self.devices.get(mac.as_str()) {
                    Some(d) => d.name.clone(),
                    None => mac.clone(),
                };
                self.state_table.set_state_at(i, PresenceState::Exited);
                self.timers.set(i, SightingTimer { first_qualified_at: None, last_seen_at: t.last_seen_at });
                events.push(PresenceEvent::Exited { name, mac });
                assert(events@.map_values(|e: PresenceEvent| e.view()) =~= ev_before.map_values(
                    |e: PresenceEvent| e.view(),
                ).push(EventView::Exited { name: display_name(v0.devices, v0.tracks[i as int].mac), mac: v0.tracks[i as int].mac }));
            }
            assert forall|j: int| 0 <= j < n && j != i implies #[trigger] self.view().tracks[j]
                == before[j] by {}
            i = i + 1;
        }
        proof {
            assert(v0.tracks.take(n as int) =~= v0.tracks);
            let (v1, e1) = exits_step(v0, now);
            assert(self.view().tracks =~= v1.tracks);
        }
        events
    }

    /// Evaluate a single scan result, read against the engine's clock, and
    /// return a presence event if a state transition occurs.
    pub fn evaluate_scan(&mut self, mac: &str, rssi: i16) -> (r: Option<PresenceEvent>)
        requires
            old(self).wf(),
        ensures
            final(self).wf(),
            exists|t: u128|
                (final(self).view(), match r {
                    Some(e) => Some(e.view()),
                    None => None,
                }) == #[trigger] scan_step(old(self).view(), mac@, rssi, t),
    {
        let t = elapsed_nanos(&self.epoch);
        self.evaluate_scan_at(mac, rssi, t)
    }

    /// Check all tracked devices for exit conditions, against the engine's
    /// clock, and return any exit events.
    pub fn check_exits(&mut self) -> (r: Vec<PresenceEvent>)
        requires
            old(self).wf(),
        ensures
            final(self).wf(),
            exists|t: u128|
                (final(self).view(), r@.map_values(|e: PresenceEvent| e.view()))
                    == #[trigger] exits_step(old(self).view(), t),
    {
        let t = elapsed_nanos(&self.epoch);
        self.check_exits_at(t)
    }

    /// Check if a specific device is currently considered present (Entered).
    pub fn is_present(&self, mac: &str) -> (r: bool)
        requires
            self.wf(),
        ensures
            r == match track_index(self.view().tracks, mac@) {
                Some(i) => self.view().tracks[i].state == PresenceState::Entered,
                None => false,
            },
    {
        proof {
            self.lemma_view_tracks();
        }
        match self.state_table.get_state(mac) {
            Some(s) => s == PresenceState::Entered,
            None => false,
        }
    }

    /// Total number of devices currently tracked by the engine.
    pub fn tracked_count(&self) -> (r: usize)
        requires
            self.wf(),
        ensures
            r == self.view().tracks.len(),
    {
        self.timers.len()
    }

    /// The presence table: one entry per tracked device, in tracking order,
    /// with the identifier, RSSI and state of its track.
    pub fn state_table(&self) -> (r: &PresenceStateTable)
        requires
            self.wf(),
        ensures
            r.wf(),
            r.entries().len() == self.view().tracks.len(),
            forall|i: int|
                0 <= i < r.entries().len() ==> {
                    &&& #[trigger] r.entries()[i].mac@ == self.view().tracks[i].mac
                    &&& r.entries()[i].rssi == self.view().tracks[i].rssi
                    &&& r.entries()[i].state == self.view().tracks[i].state
                },
    {
        &self.state_table
    }
}

} // verus!
