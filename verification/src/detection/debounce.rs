//! Per-device debounce timer.
use vstd::prelude::*;
use std::time::{Duration, Instant};
use crate::clock::{elapsed, now};

verus! {

/// Per-device debounce timer tracking first qualified sighting and last sighting.
#[derive(Debug, Clone)]
pub struct DebounceTimer {
    /// When the device was first seen with RSSI above the enter threshold.
    pub first_qualified_seen: Option<Instant>,
    /// When the device was most recently seen (any RSSI).
    pub last_seen: Instant,
    /// Last recorded RSSI value.
    pub last_rssi: i16,
}

impl DebounceTimer {
    /// Create a new timer for a device with the given initial RSSI.
    pub fn new(rssi: i16) -> (r: Self)
        ensures
            r.first_qualified_seen.is_none(),
            r.last_rssi == rssi,
    {
        DebounceTimer { first_qualified_seen: None, last_seen: now(), last_rssi: rssi }
    }

    /// Record a new sighting at the current time. If RSSI meets the threshold,
    /// the qualified timer is started (if not already running). The clock is
    /// read once and the reading handed to [`DebounceTimer::record_sighting_at`].
    pub fn record_sighting(&mut self, rssi: i16, threshold: i16)
        ensures
            final(self).last_rssi == rssi,
            final(self).first_qualified_seen == if old(self).first_qualified_seen.is_none()
                && rssi >= threshold {
                Some(final(self).last_seen)
            } else {
                old(self).first_qualified_seen
            },
    {
        let at = now();
        self.record_sighting_at(rssi, threshold, at);
    }

    /// Record a sighting made at `at`: the last-seen time becomes `at`, the
    /// RSSI is kept, and a qualifying RSSI (at or above `threshold`) starts the
    /// qualified timer at `at` unless it is already running.
    pub fn record_sighting_at(&mut self, rssi: i16, threshold: i16, at: Instant)
        ensures
            final(self).last_seen == at,
            final(self).last_rssi == rssi,
            final(self).first_qualified_seen == if old(self).first_qualified_seen.is_none()
                && rssi >= threshold {
                Some(at)
            } else {
                old(self).first_qualified_seen
            },
    {
        self.last_seen = at;
        self.last_rssi = rssi;
        if rssi >= threshold && self.first_qualified_seen.is_none() {
            self.first_qualified_seen = Some(at);
        }
    }

    /// Reset the enter debounce so re-entry requires the full duration again.
    pub fn reset_enter(&mut self)
        ensures
            final(self).first_qualified_seen.is_none(),
            final(self).last_seen == old(self).last_seen,
            final(self).last_rssi == old(self).last_rssi,
    {
        self.first_qualified_seen = None;
    }

    /// Elapsed time since the first qualified sighting, if any.
    pub fn enter_elapsed(&self) -> (r: Option<Duration>)
        ensures
            r.is_some() == self.first_qualified_seen.is_some(),
    {
        match &self.first_qualified_seen {
            Some(t) => Some(elapsed(t)),
            None => None,
        }
    }

    /// Elapsed time since the most recent sighting.
    pub fn last_seen_elapsed(&self) -> Duration {
        elapsed(&self.last_seen)
    }
}

} // verus!
