//! Data models for `/api/admin/setting/*`.

use vstd::prelude::*;

verus! {

/// Setting item returned and saved by admin setting endpoints.
#[derive(Debug, Clone, PartialEq, Eq)]
pub struct Setting {
    /// Setting key.
    pub key: String,
    /// Setting value.
    pub value: String,
    /// Help text.
    pub help: String,
    /// serde_json::Value type.
    pub value_type: String,
    /// Option list encoded as a string.
    pub options: String,
    /// Setting group id.
    pub group: i32,
    /// Setting visibility flag.
    pub flag: i32,
}

/// Query parameters for `/api/admin/setting/list`.
#[derive(Debug, Clone, PartialEq, Eq, Default)]
pub struct SettingListQuery {
    /// Multiple groups such as `5,0`.
    pub groups: Option<String>,
    /// Single group id.
    pub group: Option<String>,
}

/// Query parameters for `/api/admin/setting/get`.
#[derive(Debug, Clone, PartialEq, Eq, Default)]
pub struct SettingGetQuery {
    /// Multiple setting keys.
    pub keys: Option<String>,
    /// Single setting key.
    pub key: Option<String>,
}

/// Query parameters for `/api/admin/setting/delete`.
#[derive(Debug, Clone, PartialEq, Eq)]
pub struct SettingKeyQuery {
    /// Setting key.
    pub key: String,
}

/// Request body for `/api/admin/setting/set_aria2`.
#[derive(Debug, Clone, PartialEq, Eq)]
pub struct SetAria2Req {
    /// aria2 JSON-RPC URI.
    pub uri: String,
    /// aria2 secret.
    pub secret: String,
}

/// Request body for `/api/admin/setting/set_qbit`.
#[derive(Debug, Clone, PartialEq, Eq)]
pub struct SetQbitReq {
    /// qBittorrent URL.
    pub url: String,
    /// Seed time value.
    pub seedtime: String,
}

} // verus!
