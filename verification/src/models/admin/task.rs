//! Data models for `/api/admin/task/*`.

use vstd::prelude::*;

verus! {

/// Upload task info returned by admin upload task endpoints.
#[derive(Debug, Clone, PartialEq, Eq)]
pub struct UploadTaskInfo {
    /// Task id.
    pub id: String,
    /// Task name.
    pub name: String,
    /// Task state.
    pub state: String,
    /// Status text.
    pub status: String,
    /// Progress value.
    pub progress: i32,
    /// Error text.
    pub error: String,
}

} // verus!
