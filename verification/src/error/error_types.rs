//! Common error type names.
use vstd::prelude::*;

verus! {

pub const CONFIG_ALREADY_EXISTS: &'static str = "config_already_exists";
pub const CONFIG_NOT_FOUND: &'static str = "config_not_found";
pub const INVALID_CONFIG: &'static str = "invalid_config";
pub const PERMISSION_DENIED: &'static str = "permission_denied";
pub const FILE_NOT_FOUND: &'static str = "file_not_found";
pub const NETWORK_ERROR: &'static str = "network_error";
pub const VALIDATION_ERROR: &'static str = "validation_error";
pub const USAGE_ERROR: &'static str = "usage_error";
pub const GENERIC_ERROR: &'static str = "generic_error";

} // verus!
