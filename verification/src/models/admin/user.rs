//! Data models for `/api/admin/user/*`.

use vstd::prelude::*;

verus! {

/// User payload returned by admin user endpoints.
#[derive(Debug, Clone, PartialEq, Eq)]
pub struct AdminUser {
    /// User id.
    pub id: u64,
    /// Username.
    pub username: String,
    /// Password field. List/get responses usually return an empty string.
    pub password: String,
    /// Base path for this user.
    pub base_path: String,
    /// Legacy role id.
    pub role: i32,
    /// Whether the user is disabled.
    pub disabled: bool,
    /// Legacy permission bitmask.
    pub permission: i32,
    /// SSO id.
    pub sso_id: String,
}

/// Request body for `/api/admin/user/create` and `/api/admin/user/update`.
pub type AdminUserReq = AdminUser;

} // verus!
