//! Location resolution over the identity hierarchy.
use vstd::prelude::*;
use crate::config::presence::{Device, Location, Party};

verus! {

/// Location resolution result.
#[derive(Debug, Clone, PartialEq, Eq)]
pub struct ResolvedLocation {
    /// The resolved location.
    pub location: Location,
    /// The source of the resolution (device, party, scanner, or none).
    pub source: LocationSource,
}

/// Source of a resolved location.
#[derive(Debug, Clone, Copy, PartialEq, Eq, Structural)]
pub enum LocationSource {
    /// Location came from device-level override.
    Device,
    /// Location came from party-level setting.
    Party,
    /// Location came from scanner-node default.
    Scanner,
    /// No location available.
    Unavailable,
}

/// The location the hierarchy gives a device: its own override, else its
/// party's location, else the scanner node's default, else none.
pub open spec fn resolved(
    device: Device,
    party: Party,
    scanner_location: Option<Location>,
) -> ResolvedLocation {
    if device.location.is_some() {
        ResolvedLocation { location: device.location.unwrap(), source: LocationSource::Device }
    } else if party.location.is_some() {
        ResolvedLocation { location: party.location.unwrap(), source: LocationSource::Party }
    } else if scanner_location.is_some() {
        ResolvedLocation { location: scanner_location.unwrap(), source: LocationSource::Scanner }
    } else {
        ResolvedLocation {
            location: Location { building: None, floor: None, room: None, zone: None },
            source: LocationSource::Unavailable,
        }
    }
}

/// Resolve location for a device using the priority hierarchy:
/// device-level > party-level > scanner-node default > none.
pub fn resolve_location(
    device: &Device,
    party: &Party,
    scanner_location: Option<&Location>,
) -> (r: ResolvedLocation)
    ensures
        r == resolved(
            *device,
            *party,
            match scanner_location {
                Some(l) => Some(*l),
                None => None,
            },
        ),
{
    if let Some(device_location) = &device.location {
        return ResolvedLocation { location: device_location.copy(), source: LocationSource::Device };
    }
    if let Some(party_location) = &party.location {
        return ResolvedLocation { location: party_location.copy(), source: LocationSource::Party };
    }
    if let Some(scanner_loc) = scanner_location {
        return ResolvedLocation { location: scanner_loc.copy(), source: LocationSource::Scanner };
    }
    ResolvedLocation { location: Location::default(), source: LocationSource::Unavailable }
}

/// A device's own location always wins: whenever the device has a location,
/// the resolution is that location, from the device, whatever the party's and
/// the scanner node's locations are.
pub proof fn law_device_location_wins(
    device: Device,
    party: Party,
    scanner_location: Option<Location>,
)
    requires
        device.location is Some,
    ensures
        resolved(device, party, scanner_location).source == LocationSource::Device,
        resolved(device, party, scanner_location).location == device.location->0,
{
}

/// Without a device override, the party's location wins over the scanner
/// node's default.
pub proof fn law_party_location_before_scanner(
    device: Device,
    party: Party,
    scanner_location: Option<Location>,
)
    requires
        device.location is None,
        party.location is Some,
    ensures
        resolved(device, party, scanner_location).source == LocationSource::Party,
        resolved(device, party, scanner_location).location == party.location->0,
{
}

/// The scanner node's default is used only when neither the device nor its
/// party has a location, and the resolution is unavailable only when no level
/// has one.
pub proof fn law_scanner_location_last(device: Device, party: Party, scanner_location: Option<Location>)
    ensures
        resolved(device, party, scanner_location).source == LocationSource::Scanner <==> (
        device.location is None && party.location is None && scanner_location is Some),
        resolved(device, party, scanner_location).source == LocationSource::Scanner ==> resolved(
            device,
            party,
            scanner_location,
        ).location == scanner_location->0,
        resolved(device, party, scanner_location).source == LocationSource::Unavailable <==> (
        device.location is None && party.location is None && scanner_location is None),
{
}

} // verus!
