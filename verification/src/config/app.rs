//! Application-level settings from `config.toml`.
use vstd::prelude::*;

verus! {

/// General application settings.
#[derive(Debug, Clone)]
pub struct GeneralConfig {
    /// Log level (e.g., "trace", "debug", "info", "warn", "error").
    pub log_level: String,
    /// Signal log retention in days (1-90).
    pub max_log_age_days: u32,
    /// Enable SIGHUP config reload.
    pub config_reload: bool,
}

/// Privacy settings.
#[derive(Debug, Clone)]
pub struct PrivacyConfig {
    /// If true, disables ARP/ping/mDNS; BLE only.
    pub privacy_mode: bool,
    /// Identifiers to ignore entirely.
    pub anonymous: Vec<String>,
}

/// Scanner configuration for a specific scanner type.
#[derive(Debug, Clone)]
pub struct ScannerConfig {
    /// Whether this scanner is enabled.
    pub enabled: bool,
    /// Scan interval in seconds.
    pub scan_interval_sec: u64,
    /// Router IP address for SNMP queries (WiFi ARP scanner only).
    pub router_ip: Option<String>,
    /// SNMP community string (WiFi ARP scanner only).
    pub snmp_community: String,
    /// Subnet to scan for ping sweep (e.g., "192.168.1.0/24").
    pub subnet: Option<String>,
}

/// Detection engine settings.
#[derive(Debug, Clone, Copy)]
pub struct DetectionConfig {
    /// Debounce before party enter notification (seconds).
    pub enter_debounce_sec: u64,
    /// Debounce before party exit notification (seconds).
    pub exit_debounce_sec: u64,
}

/// Configuration for a single notifier target.
#[derive(Debug, Clone)]
pub struct NotifierConfig {
    /// Notifier type (e.g., "discord", "slack", "webhook", "mqtt").
    pub kind: String,
    /// Webhook URL (for discord, slack, webhook types).
    pub webhook_url: String,
    /// Generic URL (for webhook type).
    pub url: String,
    /// HTTP method (for webhook type).
    pub method: String,
    /// Payload template (for webhook type).
    pub payload_template: String,
    /// MQTT broker address.
    pub broker: String,
    /// MQTT port.
    pub port: u16,
    /// MQTT topic.
    pub topic: String,
    /// Optional bot token for Discord bot API access.
    pub token: Option<String>,
    /// Optional channel ID when using a bot token.
    pub channel_id: Option<String>,
    /// Include timestamp in notification messages.
    pub include_timestamp: bool,
    /// Include MAC address in notification messages.
    pub include_mac: bool,
}

/// The legacy detection thresholds that drive the detection engine
/// (`track_unknown`, `enter_rssi_threshold_dbm`, `enter_duration_seconds`,
/// `exit_timeout_seconds` of `config.toml`).
#[derive(Debug, Clone, Copy)]
pub struct DetectionThresholds {
    /// Whether to track devices not present in the device mapping.
    pub track_unknown: bool,
    /// RSSI threshold in dBm for considering a device "entered".
    pub enter_rssi_threshold_dbm: i16,
    /// Duration in seconds a device must be seen before triggering enter.
    pub enter_duration_seconds: u64,
    /// Timeout in seconds before a device is considered "exited".
    pub exit_timeout_seconds: u64,
}

impl Default for GeneralConfig {
    fn default() -> (r: Self)
        ensures
            r.log_level@ == "info"@,
            r.max_log_age_days == 7,
            r.config_reload,
    {
        GeneralConfig { log_level: "info".to_owned(), max_log_age_days: 7, config_reload: true }
    }
}

impl Default for PrivacyConfig {
    fn default() -> (r: Self)
        ensures
            !r.privacy_mode,
            r.anonymous@.len() == 0,
    {
        PrivacyConfig { privacy_mode: false, anonymous: Vec::new() }
    }
}

impl Default for ScannerConfig {
    fn default() -> (r: Self)
        ensures
            r.enabled,
            r.scan_interval_sec == 30,
            r.router_ip.is_none(),
            r.snmp_community@ == "public"@,
            r.subnet.is_none(),
    {
        ScannerConfig {
            enabled: true,
            scan_interval_sec: 30,
            router_ip: None,
            snmp_community: "public".to_owned(),
            subnet: None,
        }
    }
}

impl Default for DetectionConfig {
    fn default() -> (r: Self)
        ensures
            r.enter_debounce_sec == 30,
            r.exit_debounce_sec == 120,
    {
        DetectionConfig { enter_debounce_sec: 30, exit_debounce_sec: 120 }
    }
}

impl Default for NotifierConfig {
    fn default() -> (r: Self)
        ensures
            r.kind@.len() == 0,
            r.webhook_url@.len() == 0,
            r.url@.len() == 0,
            r.method@.len() == 0,
            r.payload_template@.len() == 0,
            r.broker@.len() == 0,
            r.port == 0,
            r.topic@.len() == 0,
            r.token.is_none(),
            r.channel_id.is_none(),
            !r.include_timestamp,
            !r.include_mac,
    {
        NotifierConfig {
            kind: String::new(),
            webhook_url: String::new(),
            url: String::new(),
            method: String::new(),
            payload_template: String::new(),
            broker: String::new(),
            port: 0,
            topic: String::new(),
            token: None,
            channel_id: None,
            include_timestamp: false,
            include_mac: false,
        }
    }
}

impl Default for DetectionThresholds {
    fn default() -> (r: Self)
        ensures
            !r.track_unknown,
            r.enter_rssi_threshold_dbm == -70,
            r.enter_duration_seconds == 5,
            r.exit_timeout_seconds == 60,
    {
        DetectionThresholds {
            track_unknown: false,
            enter_rssi_threshold_dbm: -70,
            enter_duration_seconds: 5,
            exit_timeout_seconds: 60,
        }
    }
}

} // verus!
