//! Suggestions for grouping identifiers, and the identifier type guessed
//! from an identifier's text.
use vstd::prelude::*;
use crate::text::{byte_len, contains_char, owned};

verus! {

/// A single identifier in a suggestion.
#[derive(Debug, Clone)]
pub struct IdentifierSuggestion {
    /// Identifier type (e.g., "ble_mac", "wifi_mac")
    pub id_type: String,
    /// Identifier value
    pub id_value: String,
    /// Notes about this identifier
    pub notes: Option<String>,
}

/// The identifier type guessed from a value: an IPv6 address first, then
/// a MAC address (with `:`; 17 bytes for BLE, shorter for WiFi), then an
/// IPv4 address, then a host name (with `.`), else unknown. Whether the
/// value reads as an IPv6 or IPv4 address is given.
pub open spec fn inferred_type(value: Seq<char>, is_ipv6: bool, is_ipv4: bool) -> Seq<char> {
    if is_ipv6 {
        "ip_v6"@
    } else if value.contains(':') && byte_len(value) == 17 {
        "ble_mac"@
    } else if value.contains(':') && byte_len(value) <= 17 {
        "wifi_mac"@
    } else if is_ipv4 {
        "ip_v4"@
    } else if value.contains('.') {
        "hostname"@
    } else {
        "unknown"@
    }
}

/// Infer identifier type from value (simple heuristic), given whether the
/// value parses as an IPv6 and as an IPv4 address.
pub fn infer_id_type(value: &str, is_ipv6: bool, is_ipv4: bool) -> (r: String)
    ensures
        r@ == inferred_type(value@, is_ipv6, is_ipv4),
{
    let len = value.as_bytes().len();
    let has_colon = contains_char(value, ':');
    if is_ipv6 {
        owned("ip_v6")
    } else if has_colon && len == 17 {
        owned("ble_mac")
    } else if has_colon && len <= 17 {
        owned("wifi_mac")
    } else if is_ipv4 {
        owned("ip_v4")
    } else if contains_char(value, '.') {
        owned("hostname")
    } else {
        owned("unknown")
    }
}

/// The identifiers of a cluster as suggestion entries, each with its
/// guessed type (`ipv6[i]`, `ipv4[i]`: whether the i-th value parses as such
/// an address) and no notes.
pub fn cluster_identifiers(cluster: &Vec<String>, ipv6: &Vec<bool>, ipv4: &Vec<bool>) -> (r: Vec<IdentifierSuggestion>)
    requires
        ipv6@.len() == cluster@.len(),
        ipv4@.len() == cluster@.len(),
    ensures
        r@.len() == cluster@.len(),
        forall|i: int| 0 <= i < cluster@.len() ==> {
            &&& (#[trigger] r@[i]).id_value@ == cluster@[i]@
            &&& r@[i].id_type@ == inferred_type(cluster@[i]@, ipv6@[i], ipv4@[i])
            &&& r@[i].notes is None
        },
{
    let mut out: Vec<IdentifierSuggestion> = Vec::new();
    let mut i: usize = 0;
    while i < cluster.len()
        invariant
            ipv6@.len() == cluster@.len(),
            ipv4@.len() == cluster@.len(),
            i <= cluster@.len(),
            out@.len() == i,
            forall|j: int| 0 <= j < i ==> {
                &&& (#[trigger] out@[j]).id_value@ == cluster@[j]@
                &&& out@[j].id_type@ == inferred_type(cluster@[j]@, ipv6@[j], ipv4@[j])
                &&& out@[j].notes is None
            },
        decreases cluster@.len() - i,
    {
        let id_type = infer_id_type(cluster[i].as_str(), ipv6[i], ipv4[i]);
        out.push(IdentifierSuggestion { id_type, id_value: cluster[i].clone(), notes: None });
        i = i + 1;
    }
    out
}

/// A value that is not an IP address and has no `:` is a host name when it
/// holds a `.`, whatever its length, and unknown otherwise; a value read as an
/// IPv6 address is typed so whatever its text, and an IPv4 address without
/// `:` is typed IPv4.
pub proof fn law_type_without_colon(value: Seq<char>, is_ipv6: bool, is_ipv4: bool)
    ensures
        is_ipv6 ==> inferred_type(value, is_ipv6, is_ipv4) == "ip_v6"@,
        !is_ipv6 && !value.contains(':') && is_ipv4 ==> inferred_type(value, is_ipv6, is_ipv4)
            == "ip_v4"@,
        !is_ipv6 && !is_ipv4 && !value.contains(':') && value.contains('.') ==> inferred_type(
            value,
            is_ipv6,
            is_ipv4,
        ) == "hostname"@,
        !is_ipv6 && !is_ipv4 && !value.contains(':') && !value.contains('.') ==> inferred_type(
            value,
            is_ipv6,
            is_ipv4,
        ) == "unknown"@,
{
}

/// A value with `:` that is not an IPv6 address is a MAC address: a BLE MAC
/// at 17 bytes, a WiFi MAC when shorter.
pub proof fn law_type_with_colon(value: Seq<char>, is_ipv4: bool)
    requires
        value.contains(':'),
    ensures
        byte_len(value) == 17 ==> inferred_type(value, false, is_ipv4) == "ble_mac"@,
        byte_len(value) < 17 ==> inferred_type(value, false, is_ipv4) == "wifi_mac"@,
{
}

} // verus!
