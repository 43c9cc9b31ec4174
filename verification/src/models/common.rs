//! Common response envelopes and pagination payloads shared by AList APIs.

use vstd::prelude::*;

verus! {

/// Standard AList JSON response envelope.
///
/// AList normally returns HTTP 200 for API errors and puts the actual status in
/// this `code` field, so client code must inspect the envelope instead of only
/// the HTTP status.
#[derive(Debug, Clone, PartialEq, Eq)]
pub struct ApiResponse<T> {
    /// AList logical status code, for example `200`, `403`, or `500`.
    pub code: i32,
    /// Human-readable server message.
    pub message: String,
    /// Endpoint-specific payload. Error responses commonly use `null`.
    pub data: T,
}

/// Pagination request used by list/search-style APIs.
#[derive(Debug, Clone, Copy, PartialEq, Eq, Default)]
pub struct PageReq {
    /// One-based page number.
    pub page: i32,
    /// Page size. AList accepts `0` for all items on several fs endpoints.
    pub per_page: i32,
}

impl PageReq {
    /// Request all rows for endpoints that support `per_page = 0`.
    pub fn all() -> (req: Self)
        ensures
            req.page == 1,
            req.per_page == 0,
    {
        Self {
            page: 1,
            per_page: 0,
        }
    }
}

/// Generic paginated response used by search and admin-like endpoints.
#[derive(Debug, Clone, PartialEq, Eq)]
pub struct PageResp<T> {
    /// Page content.
    pub content: Vec<T>,
    /// Total number of rows reported by the server.
    pub total: i64,
}

/// Task info returned when AList accepts a long-running operation.
#[derive(Debug, Clone, PartialEq, Eq)]
pub struct TaskInfo {
    /// Task identifier.
    pub id: String,
    /// Server-generated task name.
    pub name: String,
    /// Numeric task state from AList internals.
    pub state: i32,
    /// Human-readable status text.
    pub status: String,
    /// Task progress percentage or server-defined progress value.
    pub progress: i32,
    /// Error text, empty when the task has not failed.
    pub error: String,
}

/// Response payload for upload endpoints that may either complete immediately
/// or return a background task when `As-Task` is enabled.
#[derive(Debug, Clone, PartialEq, Eq)]
pub struct UploadResp {
    /// Background task details. Some successful direct uploads return `null`
    /// data instead of this object, so callers should handle both shapes.
    pub task: TaskInfo,
}

} // verus!
