//! The decisions of the daemon's two loops: the scan loop, which forwards
//! sightings and paces the scan cycles, and the detection loop, which feeds
//! sightings to the engine and polls it for exits. The loops themselves
//! (timers, channels, the radio) run outside the library.
use vstd::prelude::*;
use crate::config::app::ScannerConfig;

verus! {

/// Seconds to wait before scanning again after the radio stopped answering.
pub const RECOVERY_INTERVAL_SECS: u64 = 30;

/// Seconds a scan cycle listens for devices.
pub const SCAN_WINDOW_SECS: u64 = 5;

/// What happens to the scan loop.
#[derive(Debug, Clone, Copy, PartialEq, Eq, Structural)]
pub enum ScanEvent {
    /// Shutdown was requested.
    Shutdown,
    /// A device was sighted during the scan window.
    Sighting,
    /// The receiving side of the sightings went away.
    ReceiverGone,
    /// The radio's stream of sightings ended before the window closed.
    StreamEnded,
    /// The scan window closed.
    WindowClosed,
}

/// What the scan loop does next.
#[derive(Debug, Clone, Copy, PartialEq, Eq, Structural)]
pub enum ScanAction {
    /// Stop the loop.
    Stop,
    /// Pass the sighting on and keep listening.
    Forward,
    /// Wait this many seconds (or for shutdown), then scan again.
    Recover { wait_secs: u64 },
    /// Write the heartbeat, check memory use, then wait this many seconds
    /// (or for shutdown) and scan again.
    Rest { wait_secs: u64 },
}

/// The scan loop's decision on an event, with cycles `scan_interval_secs`
/// apart: shutdown and a vanished receiver stop it, sightings are passed on,
/// a stream that ended early means a recovery wait, and a completed window
/// records health and rests for the interval.
pub fn scan_loop_step(event: ScanEvent, scan_interval_secs: u64) -> (r: ScanAction)
    ensures
        r == match event {
            ScanEvent::Shutdown | ScanEvent::ReceiverGone => ScanAction::Stop,
            ScanEvent::Sighting => ScanAction::Forward,
            ScanEvent::StreamEnded => ScanAction::Recover { wait_secs: RECOVERY_INTERVAL_SECS },
            ScanEvent::WindowClosed => ScanAction::Rest { wait_secs: scan_interval_secs },
        },
{
    match event {
        ScanEvent::Shutdown | ScanEvent::ReceiverGone => ScanAction::Stop,
        ScanEvent::Sighting => ScanAction::Forward,
        ScanEvent::StreamEnded => ScanAction::Recover { wait_secs: RECOVERY_INTERVAL_SECS },
        ScanEvent::WindowClosed => ScanAction::Rest { wait_secs: scan_interval_secs },
    }
}

/// What happens to the detection loop.
#[derive(Debug, Clone, Copy, PartialEq, Eq, Structural)]
pub enum DetectionEvent {
    /// Shutdown was requested.
    Shutdown,
    /// A sighting arrived, with its signal strength when it has one.
    Sighting { rssi: Option<i16> },
    /// The sending side of the sightings went away.
    SenderGone,
    /// The exit-check timer fired.
    ExitTimer,
}

/// What the detection loop does next.
#[derive(Debug, Clone, Copy, PartialEq, Eq, Structural)]
pub enum DetectionAction {
    /// Stop the loop.
    Stop,
    /// Evaluate the sighting with this signal strength and dispatch any
    /// event it gives.
    Evaluate { rssi: i16 },
    /// Ask the engine for exits and dispatch them.
    CheckExits,
}

/// The detection loop's decision on an event: a sighting without a signal
/// strength is evaluated as the weakest possible one.
pub fn detection_loop_step(event: DetectionEvent) -> (r: DetectionAction)
    ensures
        r == match event {
            DetectionEvent::Shutdown | DetectionEvent::SenderGone => DetectionAction::Stop,
            DetectionEvent::Sighting { rssi } => DetectionAction::Evaluate {
                rssi: match rssi {
                    Some(v) => v,
                    None => i16::MIN,
                },
            },
            DetectionEvent::ExitTimer => DetectionAction::CheckExits,
        },
{
    match event {
        DetectionEvent::Shutdown | DetectionEvent::SenderGone => DetectionAction::Stop,
        DetectionEvent::Sighting { rssi } => DetectionAction::Evaluate {
            rssi: match rssi {
                Some(v) => v,
                None => i16::MIN,
            },
        },
        DetectionEvent::ExitTimer => DetectionAction::CheckExits,
    }
}


/// How the daemon runs its loops.
#[derive(Debug, Clone, Copy, PartialEq, Eq, Structural)]
pub struct DaemonSettings {
    /// Whether the Bluetooth scanner runs.
    pub ble_enabled: bool,
    /// Seconds between scan cycles.
    pub scan_interval_secs: u64,
    /// Seconds between exit checks.
    pub exit_check_secs: u64,
}

/// The daemon's settings from the configuration of the `ble` scanner (when
/// there is one) and the exit timeout: an unconfigured scanner is enabled and
/// scans every 30 seconds; exits are checked at the exit timeout, but at
/// most every 5 seconds.
pub fn daemon_settings(ble: Option<&ScannerConfig>, exit_timeout_seconds: u64) -> (r: DaemonSettings)
    ensures
        r.ble_enabled == match ble {
            Some(c) => c.enabled,
            None => true,
        },
        r.scan_interval_secs == match ble {
            Some(c) => c.scan_interval_sec,
            None => 30,
        },
        r.exit_check_secs == if exit_timeout_seconds > 5 { exit_timeout_seconds } else { 5 },
{
    let (ble_enabled, scan_interval_secs) = match ble {
        Some(c) => (c.enabled, c.scan_interval_sec),
        None => (true, 30),
    };
    let exit_check_secs = if exit_timeout_seconds > 5 {
        exit_timeout_seconds
    } else {
        5
    };
    DaemonSettings { ble_enabled, scan_interval_secs, exit_check_secs }
}

} // verus!
