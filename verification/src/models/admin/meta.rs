//! Data models for `/api/admin/meta/*`.

use vstd::prelude::*;

verus! {

/// Metadata rule used by admin meta endpoints.
#[derive(Debug, Clone, PartialEq, Eq)]
pub struct Meta {
    /// Metadata id.
    pub id: u64,
    /// Path matched by this metadata rule.
    pub path: String,
    /// Meta password.
    pub password: String,
    /// Whether the password applies to child folders.
    pub p_sub: bool,
    /// Whether writes are allowed.
    pub write: bool,
    /// Whether write permission applies to child folders.
    pub w_sub: bool,
    /// Hidden file pattern.
    pub hide: String,
    /// Whether hidden pattern applies to child folders.
    pub h_sub: bool,
    /// Readme content.
    pub readme: String,
    /// Whether readme content applies to child folders.
    pub r_sub: bool,
}

/// Request body for `/api/admin/meta/create` and `/api/admin/meta/update`.
pub type MetaReq = Meta;

} // verus!
