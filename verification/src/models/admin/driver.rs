//! Data models for `/api/admin/driver/*`.

use std::collections::HashMap;
use vstd::prelude::*;

verus! {

/// Driver template map keyed by driver name.
pub type DriverListResp = HashMap<String, serde_json::Value>;

/// Driver names returned by `/api/admin/driver/names`.
pub type DriverNamesResp = Vec<String>;

/// Driver template returned by `/api/admin/driver/info`.
pub type DriverInfoResp = serde_json::Value;

} // verus!
