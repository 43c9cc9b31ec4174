//! Data models for `/api/admin/role/*`.

use vstd::prelude::*;

verus! {

/// Permission bitmask scoped to a path.
#[derive(Debug, Clone, PartialEq, Eq)]
pub struct RolePermissionEntry {
    /// Path prefix.
    pub path: String,
    /// Permission bitmask.
    pub permission: i32,
}

/// Role payload used by admin role endpoints.
#[derive(Debug, Clone, PartialEq, Eq)]
pub struct Role {
    /// Role id.
    pub id: u64,
    /// Role name.
    pub name: String,
    /// Role description.
    pub description: String,
    /// Path-scoped permissions.
    pub permission_scopes: Vec<RolePermissionEntry>,
    /// Raw permission JSON string accepted by some server versions.
    pub raw_permission: Option<String>,
}

/// Request body for `/api/admin/role/create` and `/api/admin/role/update`.
pub type RoleReq = Role;

} // verus!
