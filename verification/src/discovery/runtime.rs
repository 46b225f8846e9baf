//! The suggestions file (`suggestions.toml`): the parties, devices and
//! identifiers it proposes.
use vstd::prelude::*;

verus! {

/// Party suggestion from suggestions.toml.
#[derive(Debug, Clone)]
pub struct PartySuggestion {
    pub name: String,
    pub devices: Vec<DeviceSuggestion>,
}

/// Device suggestion from suggestions.toml.
#[derive(Debug, Clone)]
pub struct DeviceSuggestion {
    pub name: String,
    pub identifiers: Vec<IdentifierSuggestionToml>,
}

/// Identifier suggestion from suggestions.toml.
#[derive(Debug, Clone)]
pub struct IdentifierSuggestionToml {
    pub id_type: String,
    pub value: String,
}

} // verus!
