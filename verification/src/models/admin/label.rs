//! Data models for `/api/admin/label/*`.

use vstd::prelude::*;

verus! {

/// Label returned by admin label endpoints.
#[derive(Debug, Clone, PartialEq, Eq)]
pub struct Label {
    /// Label id.
    pub id: u64,
    /// Reserved label type.
    pub label_type: i32,
    /// Label name.
    pub name: String,
    /// Label description.
    pub description: Option<String>,
    /// Label background color.
    pub bg_color: Option<String>,
    /// Creation time.
    pub create_time: Option<String>,
}

/// Request body for `/api/admin/label/create`.
#[derive(Debug, Clone, PartialEq)]
pub struct LabelCreateReq {
    /// Label name.
    pub name: String,
    /// Reserved label type.
    pub label_type: Option<serde_json::Value>,
    /// Label description.
    pub description: Option<String>,
    /// Label background color.
    pub bg_color: Option<String>,
}

/// Request body for `/api/admin/label/update`.
#[derive(Debug, Clone, PartialEq)]
pub struct LabelUpdateReq {
    /// Label id.
    pub id: u64,
    /// Label name.
    pub name: String,
    /// Reserved label type.
    pub label_type: Option<serde_json::Value>,
    /// Label description.
    pub description: Option<String>,
    /// Label background color.
    pub bg_color: String,
}

/// Request body for `/api/admin/label/delete`.
#[derive(Debug, Clone, PartialEq, Eq)]
pub struct LabelDeleteReq {
    /// Label id encoded as documented by OpenAPI.
    pub id: String,
}

/// Response payload containing a created label id.
#[derive(Debug, Clone, PartialEq, Eq)]
pub struct LabelIdResp {
    /// Label id.
    pub id: u64,
}

} // verus!
