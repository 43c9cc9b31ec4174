//! Data models for `/api/admin/storage/*`.

use vstd::prelude::*;

verus! {

/// Storage payload returned by admin storage endpoints.
#[derive(Debug, Clone, PartialEq, Eq)]
pub struct Storage {
    /// Storage id.
    pub id: u64,
    /// Mount path.
    pub mount_path: String,
    /// Sort order.
    pub order: i32,
    /// Driver name.
    pub driver: String,
    /// Cache expiration in seconds.
    pub cache_expiration: i32,
    /// Storage status.
    pub status: String,
    /// Driver-specific addition JSON encoded as a string.
    pub addition: String,
    /// Remark name.
    pub remark: String,
    /// Last modified timestamp as returned by AList.
    pub modified: String,
    /// Whether this storage is disabled.
    pub disabled: bool,
    /// Whether signing is enabled.
    pub enable_sign: bool,
    /// Object ordering field.
    pub order_by: String,
    /// Object ordering direction.
    pub order_direction: String,
    /// Extract folder policy.
    pub extract_folder: String,
    /// Whether web proxy is enabled.
    pub web_proxy: bool,
    /// WebDAV policy.
    pub webdav_policy: String,
    /// Download proxy URL.
    pub down_proxy_url: String,
}

/// Request body for `/api/admin/storage/create` and `/api/admin/storage/update`.
#[derive(Debug, Clone, PartialEq, Eq)]
pub struct StorageReq {
    /// Storage id for updates.
    pub id: Option<String>,
    /// Mount path.
    pub mount_path: String,
    /// Sort order.
    pub order: Option<i32>,
    /// Driver name.
    pub driver: String,
    /// Remark name.
    pub remark: Option<String>,
    /// Cache expiration in seconds.
    pub cache_expiration: Option<i32>,
    /// Storage status.
    pub status: Option<String>,
    /// Whether web proxy is enabled.
    pub web_proxy: bool,
    /// WebDAV policy.
    pub webdav_policy: Option<String>,
    /// Download proxy URL.
    pub down_proxy_url: Option<String>,
    /// Object ordering field.
    pub order_by: String,
    /// Extract folder policy.
    pub extract_folder: String,
    /// Object ordering direction.
    pub order_direction: String,
    /// Driver-specific addition JSON encoded as a string.
    pub addition: String,
    /// Whether signing is enabled.
    pub enable_sign: bool,
}

/// Response payload for storage create and update endpoints.
#[derive(Debug, Clone, PartialEq, Eq)]
pub struct StorageCreateResp {
    /// Created or updated storage id.
    pub id: u64,
}

} // verus!
