//! Laws of the detection engine, stated over its model.
use vstd::prelude::*;
use crate::detection::engine::{
    display_name, elapsed_since, exits_step, expired, is_known, scan_step, secs_to_nanos,
    sighted_track, track_index, tracks_distinct, EngineView, Track,
};
use crate::config::devices::{entry_index, keys_distinct, DeviceConfig};
use crate::state::{EventView, PresenceState};

verus! {

/// A sighting keeps the tracked devices distinct.
pub proof fn lemma_scan_keeps_distinct(v: EngineView, mac: Seq<char>, rssi: i16, now: u128)
    requires
        tracks_distinct(v.tracks),
    ensures
        tracks_distinct(scan_step(v, mac, rssi, now).0.tracks),
        scan_step(v, mac, rssi, now).0.config == v.config,
        scan_step(v, mac, rssi, now).0.devices == v.devices,
{
    let v1 = scan_step(v, mac, rssi, now).0;
    if is_known(v.devices, mac) || v.config.track_unknown {
        match track_index(v.tracks, mac) {
            Some(i) => {
                assert forall|a: int, b: int|
                    0 <= a < v1.tracks.len() && 0 <= b < v1.tracks.len() && a != b implies #[trigger] v1.tracks[a].mac
                    != #[trigger] v1.tracks[b].mac by {
                    assert(v1.tracks[i].mac == v.tracks[i].mac);
                }
            },
            None => {
                assert forall|a: int, b: int|
                    0 <= a < v1.tracks.len() && 0 <= b < v1.tracks.len() && a != b implies #[trigger] v1.tracks[a].mac
                    != #[trigger] v1.tracks[b].mac by {
                    if a == v.tracks.len() {
                        assert(v.tracks[b].mac != mac);
                    } else if b == v.tracks.len() {
                        assert(v.tracks[a].mac != mac);
                    }
                }
            },
        }
    }
}

/// With distinct tracks, the track found for a device is the one at its index.
pub proof fn lemma_track_index(tracks: Seq<Track>, i: int)
    requires
        tracks_distinct(tracks),
        0 <= i < tracks.len(),
    ensures
        track_index(tracks, tracks[i].mac) == Some(i),
{
}

/// After a sighting of a tracked (or newly tracked) device, its track is the
/// sighted track.
pub proof fn lemma_scan_track(v: EngineView, mac: Seq<char>, rssi: i16, now: u128)
    requires
        tracks_distinct(v.tracks),
        is_known(v.devices, mac) || v.config.track_unknown,
    ensures
        ({
            let v1 = scan_step(v, mac, rssi, now).0;
            let prev = match track_index(v.tracks, mac) {
                Some(i) => Some(v.tracks[i]),
                None => None,
            };
            &&& track_index(v1.tracks, mac).is_some()
            &&& v1.tracks[track_index(v1.tracks, mac).unwrap()] == sighted_track(
                v.config,
                prev,
                mac,
                rssi,
                now,
            )
        }),
{
    lemma_scan_keeps_distinct(v, mac, rssi, now);
    let v1 = scan_step(v, mac, rssi, now).0;
    match track_index(v.tracks, mac) {
        Some(i) => {
            lemma_track_index(v1.tracks, i);
        },
        None => {
            lemma_track_index(v1.tracks, v.tracks.len() as int);
        },
    }
}

/// Unknown devices are ignored while unknown devices are not tracked: the
/// engine is unchanged and nothing is reported.
pub proof fn law_unknown_device_ignored(v: EngineView, mac: Seq<char>, rssi: i16, now: u128)
    requires
        !is_known(v.devices, mac),
        !v.config.track_unknown,
    ensures
        scan_step(v, mac, rssi, now) == (v, None::<EventView>),
{
}

/// An entry is reported only for a sighting at or above the RSSI threshold
/// whose device has been seen at or above the threshold, without reset, for
/// at least the enter duration; the device is then present.
pub proof fn law_entry_requires_debounce(v: EngineView, mac: Seq<char>, rssi: i16, now: u128)
    requires
        tracks_distinct(v.tracks),
        scan_step(v, mac, rssi, now).1.is_some(),
    ensures
        ({
            let v1 = scan_step(v, mac, rssi, now).0;
            let t = v1.tracks[track_index(v1.tracks, mac).unwrap()];
            &&& rssi >= v.config.enter_rssi_threshold_dbm
            &&& t.first_qualified.is_some()
            &&& elapsed_since(now, t.first_qualified.unwrap()) >= secs_to_nanos(
                v.config.enter_duration_seconds,
            )
            &&& t.state == PresenceState::Entered
            &&& scan_step(v, mac, rssi, now).1 == Some(
                EventView::Entered { name: display_name(v.devices, mac), mac },
            )
        }),
{
    lemma_scan_track(v, mac, rssi, now);
}

/// A present device is not reported as entering again: after a reported
/// entry, the next sighting of the same device reports nothing.
pub proof fn law_no_repeated_entry(
    v: EngineView,
    mac: Seq<char>,
    rssi1: i16,
    t1: u128,
    rssi2: i16,
    t2: u128,
)
    requires
        tracks_distinct(v.tracks),
        scan_step(v, mac, rssi1, t1).1.is_some(),
    ensures
        scan_step(scan_step(v, mac, rssi1, t1).0, mac, rssi2, t2).1.is_none(),
{
    lemma_scan_track(v, mac, rssi1, t1);
    lemma_scan_keeps_distinct(v, mac, rssi1, t1);
}

/// A sighting starts tracking a device at most once: the number of tracked
/// devices grows by one exactly when a device not yet tracked is sighted and
/// is not ignored.
pub proof fn law_tracked_devices_unique(v: EngineView, mac: Seq<char>, rssi: i16, now: u128)
    requires
        tracks_distinct(v.tracks),
    ensures
        scan_step(v, mac, rssi, now).0.tracks.len() == v.tracks.len() + if (is_known(v.devices, mac)
            || v.config.track_unknown) && track_index(v.tracks, mac).is_none() {
            1int
        } else {
            0int
        },
{
}

/// The exit check keeps the tracked devices, in order.
pub proof fn lemma_exits_keep_devices(v: EngineView, now: u128)
    ensures
        exits_step(v, now).0.tracks.len() == v.tracks.len(),
        forall|i: int|
            0 <= i < v.tracks.len() ==> #[trigger] exits_step(v, now).0.tracks[i].mac
                == v.tracks[i].mac,
        exits_step(v, now).0.config == v.config,
        exits_step(v, now).0.devices == v.devices,
{
}

/// An exit is reported once: a second exit check at the same time reports
/// nothing.
pub proof fn law_exit_reported_once(v: EngineView, now: u128)
    ensures
        exits_step(exits_step(v, now).0, now).1.len() == 0,
{
    let v1 = exits_step(v, now).0;
    let f = |t: Track| expired(v1.config, t, now);
    assert(v1.tracks.all(|x: Track| !f(x)));
    v1.tracks.lemma_all_neg_filter_empty(f);
}

/// Re-entry requires the full debounce: after a device exits, no sighting
/// right after reports an entry (unless the enter duration is zero), since
/// the exit reset its qualified sighting.
pub proof fn law_reentry_requires_full_debounce(
    v: EngineView,
    now: u128,
    i: int,
    rssi: i16,
    t: u128,
)
    requires
        tracks_distinct(v.tracks),
        0 <= i < v.tracks.len(),
        expired(v.config, v.tracks[i], now),
        v.config.enter_duration_seconds > 0,
    ensures
        exits_step(v, now).0.tracks[i].state == PresenceState::Exited,
        exits_step(v, now).0.tracks[i].first_qualified.is_none(),
        scan_step(exits_step(v, now).0, v.tracks[i].mac, rssi, t).1.is_none(),
{
    let v1 = exits_step(v, now).0;
    lemma_exits_keep_devices(v, now);
    assert(tracks_distinct(v1.tracks)) by {
        assert forall|a: int, b: int|
            0 <= a < v1.tracks.len() && 0 <= b < v1.tracks.len() && a != b implies #[trigger] v1.tracks[a].mac
            != #[trigger] v1.tracks[b].mac by {
            assert(v1.tracks[a].mac == v.tracks[a].mac);
            assert(v1.tracks[b].mac == v.tracks[b].mac);
        }
    }
    lemma_track_index(v1.tracks, i);
}

/// In a device map with distinct keys, the entry found for the key of entry
/// `k` is entry `k`.
proof fn lemma_entry_at(devices: Seq<(String, DeviceConfig)>, k: int)
    requires
        keys_distinct(devices),
        0 <= k < devices.len(),
    ensures
        entry_index(devices, devices[k].0@) == Some(k),
{
    let key = devices[k].0@;
    assert(devices[k].0@ == key);
    let i = entry_index(devices, key).unwrap();
    if i != k {
        assert(devices[i].0@ != devices[k].0@);
    }
}

/// An entry is reported under the device's configured name: for a device in
/// the device map, the name of its entry there (`k`); a device the map does
/// not hold is named by its identifier. The event carries the sighted
/// identifier.
pub proof fn law_entry_named_by_device_map(
    v: EngineView,
    mac: Seq<char>,
    rssi: i16,
    now: u128,
    k: int,
)
    requires
        keys_distinct(v.devices),
        scan_step(v, mac, rssi, now).1 is Some,
    ensures
        0 <= k < v.devices.len() && v.devices[k].0@ == mac ==> scan_step(v, mac, rssi, now).1
            == Some(EventView::Entered { name: v.devices[k].1.name@, mac }),
        (forall|j: int| 0 <= j < v.devices.len() ==> #[trigger] v.devices[j].0@ != mac) ==> scan_step(
            v,
            mac,
            rssi,
            now,
        ).1 == Some(EventView::Entered { name: mac, mac }),
{
    if 0 <= k < v.devices.len() && v.devices[k].0@ == mac {
        lemma_entry_at(v.devices, k);
    }
}

/// An exit is reported under the device's configured name: each reported
/// exit names a device by the name of its entry in the device map (`k`), or
/// by its identifier when the map does not hold it.
pub proof fn law_exit_named_by_device_map(v: EngineView, now: u128, e: int, k: int)
    requires
        keys_distinct(v.devices),
        0 <= e < exits_step(v, now).1.len(),
    ensures
        exits_step(v, now).1[e] is Exited,
        0 <= k < v.devices.len() && v.devices[k].0@ == exits_step(v, now).1[e]->Exited_mac
            ==> exits_step(v, now).1[e]->Exited_name == v.devices[k].1.name@,
        (forall|j: int|
            0 <= j < v.devices.len() ==> #[trigger] v.devices[j].0@ != exits_step(v, now).1[e]->Exited_mac)
            ==> exits_step(v, now).1[e]->Exited_name == exits_step(v, now).1[e]->Exited_mac,
{
    let gone = v.tracks.filter(|t: Track| expired(v.config, t, now));
    let ev = exits_step(v, now).1;
    assert(ev[e] == EventView::Exited { name: display_name(v.devices, gone[e].mac), mac: gone[e].mac });
    if 0 <= k < v.devices.len() && v.devices[k].0@ == gone[e].mac {
        lemma_entry_at(v.devices, k);
    }
}

} // verus!
