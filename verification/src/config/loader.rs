//! What loading a presence configuration does to its contents: identifier
//! values are normalized (trimmed and lowercased).
use vstd::prelude::*;
use crate::config::presence::{normalized, Device, Identifier, Party, PresenceConfig};

verus! {

/// Whether `b` is `a` with its value normalized.
pub open spec fn identifier_normalized(a: Identifier, b: Identifier) -> bool {
    &&& b.name == a.name
    &&& b.id_type == a.id_type
    &&& b.value@ == normalized(a.value@)
}

/// Whether `b` is `a` with every identifier value normalized.
pub open spec fn device_normalized(a: Device, b: Device) -> bool {
    &&& b.name == a.name
    &&& b.location == a.location
    &&& b.identifiers@.len() == a.identifiers@.len()
    &&& forall|i: int| 0 <= i < a.identifiers@.len() ==> identifier_normalized(a.identifiers@[i], #[trigger] b.identifiers@[i])
}

/// Whether `b` is `a` with every identifier value normalized.
pub open spec fn party_normalized(a: Party, b: Party) -> bool {
    &&& b.name == a.name
    &&& b.location == a.location
    &&& b.devices@.len() == a.devices@.len()
    &&& forall|i: int| 0 <= i < a.devices@.len() ==> device_normalized(a.devices@[i], #[trigger] b.devices@[i])
}

fn normalize_device(d: Device) -> (r: Device)
    ensures
        device_normalized(d, r),
{
    let ghost orig = d;
    let Device { name, location, identifiers } = d;
    let mut rest = identifiers;
    let mut out: Vec<Identifier> = Vec::new();
    while rest.len() > 0
        invariant
            out@.len() + rest@.len() == orig.identifiers@.len(),
            forall|k: int| 0 <= k < rest@.len() ==> rest@[k] == orig.identifiers@[out@.len() + k],
            forall|k: int| 0 <= k < out@.len() ==> identifier_normalized(orig.identifiers@[k], #[trigger] out@[k]),
        decreases rest@.len(),
    {
        let id = rest.remove(0);
        let Identifier { name, id_type, value } = id;
        out.push(Identifier { name, id_type, value: Identifier::normalize_value(value) });
    }
    Device { name, location, identifiers: out }
}

fn normalize_party(p: Party) -> (r: Party)
    ensures
        party_normalized(p, r),
{
    let ghost orig = p;
    let Party { name, location, devices } = p;
    let mut rest = devices;
    let mut out: Vec<Device> = Vec::new();
    while rest.len() > 0
        invariant
            out@.len() + rest@.len() == orig.devices@.len(),
            forall|k: int| 0 <= k < rest@.len() ==> rest@[k] == orig.devices@[out@.len() + k],
            forall|k: int| 0 <= k < out@.len() ==> device_normalized(orig.devices@[k], #[trigger] out@[k]),
        decreases rest@.len(),
    {
        let d = rest.remove(0);
        out.push(normalize_device(d));
    }
    Party { name, location, devices: out }
}

/// Normalize all identifier values of a presence configuration, leaving
/// everything else as it is.
pub fn normalize_presence(presence: PresenceConfig) -> (r: PresenceConfig)
    ensures
        r.parties@.len() == presence.parties@.len(),
        forall|i: int| 0 <= i < presence.parties@.len() ==> party_normalized(presence.parties@[i], #[trigger] r.parties@[i]),
{
    let ghost orig = presence;
    let mut rest = presence.parties;
    let mut out: Vec<Party> = Vec::new();
    while rest.len() > 0
        invariant
            out@.len() + rest@.len() == orig.parties@.len(),
            forall|k: int| 0 <= k < rest@.len() ==> rest@[k] == orig.parties@[out@.len() + k],
            forall|k: int| 0 <= k < out@.len() ==> party_normalized(orig.parties@[k], #[trigger] out@[k]),
        decreases rest@.len(),
    {
        let p = rest.remove(0);
        out.push(normalize_party(p));
    }
    PresenceConfig { parties: out }
}

} // verus!
