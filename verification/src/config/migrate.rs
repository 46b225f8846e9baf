//! Conversion of the legacy device map into the presence model.
use vstd::prelude::*;
use vstd::string::*;
use crate::config::devices::DevicesConfig;
use crate::config::presence::{normalized, Device, Identifier, IdentifierType, Party, PresenceConfig};
use crate::text::owned;

verus! {

/// Whether `d` is what the legacy entry (MAC key, display name) becomes: a
/// device of that name without location, with one BLE MAC identifier named
/// `BLE MAC (<name>)` whose value is the normalized key.
pub open spec fn migrated_device(d: Device, mac: Seq<char>, name: Seq<char>) -> bool {
    &&& d.name@ == name
    &&& d.location is None
    &&& d.identifiers@.len() == 1
    &&& d.identifiers@[0].name@ == "BLE MAC ("@ + name + ")"@
    &&& d.identifiers@[0].id_type == IdentifierType::BleMac
    &&& d.identifiers@[0].value@ == normalized(mac)
}

/// The presence configuration that a legacy device map becomes: nothing
/// when the map is empty; else a single party `Unknown`, without location,
/// holding one device per entry, in order.
pub fn presence_from_legacy(legacy: &DevicesConfig) -> (r: Option<PresenceConfig>)
    ensures
        legacy.devices@.len() == 0 ==> r is None,
        legacy.devices@.len() > 0 ==> (r matches Some(p) && {
            &&& p.parties@.len() == 1
            &&& p.parties@[0].name@ == "Unknown"@
            &&& p.parties@[0].location is None
            &&& p.parties@[0].devices@.len() == legacy.devices@.len()
            &&& forall|i: int| 0 <= i < legacy.devices@.len() ==> migrated_device(
                #[trigger] p.parties@[0].devices@[i],
                legacy.devices@[i].0@,
                legacy.devices@[i].1.name@,
            )
        }),
{
    if legacy.devices.len() == 0 {
        return None;
    }
    let mut devices: Vec<Device> = Vec::new();
    let mut i: usize = 0;
    while i < legacy.devices.len()
        invariant
            i <= legacy.devices@.len(),
            devices@.len() == i,
            forall|j: int| 0 <= j < i ==> migrated_device(#[trigger] devices@[j], legacy.devices@[j].0@, legacy.devices@[j].1.name@),
        decreases legacy.devices@.len() - i,
    {
        let mac: &String = &legacy.devices[i].0;
        let name: &String = &legacy.devices[i].1.name;
        let mut id_name = owned("BLE MAC (");
        id_name.append(name.as_str());
        id_name.append(")");
        let mut identifiers: Vec<Identifier> = Vec::new();
        identifiers.push(Identifier {
            name: id_name,
            id_type: IdentifierType::BleMac,
            value: Identifier::normalize_value(mac.clone()),
        });
        devices.push(Device { name: name.clone(), location: None, identifiers });
        i = i + 1;
    }
    let party = Party { name: owned("Unknown"), location: None, devices };
    let mut parties: Vec<Party> = Vec::new();
    parties.push(party);
    Some(PresenceConfig { parties })
}

} // verus!
