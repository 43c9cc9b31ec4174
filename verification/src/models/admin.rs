//! Data models for the `admin` OpenAPI groups.

pub mod driver;
pub mod label;
pub mod label_file_binding;
pub mod meta;
pub mod role;
pub mod setting;
pub mod storage;
pub mod task;
pub mod user;

use vstd::prelude::*;

verus! {

/// Query parameters containing a numeric id.
#[derive(Debug, Clone, Copy, PartialEq, Eq)]
pub struct IdQuery {
    /// Resource id.
    pub id: u64,
}

/// Query parameters containing a username.
#[derive(Debug, Clone, PartialEq, Eq)]
pub struct UsernameQuery {
    /// Username value.
    pub username: String,
}

/// Query parameters containing a driver name.
#[derive(Debug, Clone, PartialEq, Eq)]
pub struct DriverQuery {
    /// Driver name.
    pub driver: String,
}

/// Optional pagination query parameters used by admin list endpoints.
#[derive(Debug, Clone, Copy, PartialEq, Eq, Default)]
pub struct AdminPageQuery {
    /// One-based page number.
    pub page: Option<i32>,
    /// Page size.
    pub per_page: Option<i32>,
}

impl AdminPageQuery {
    /// Create pagination query parameters.
    pub fn new(page: i32, per_page: i32) -> (query: Self)
        ensures
            query.page == Some(page),
            query.per_page == Some(per_page),
    {
        Self {
            page: Some(page),
            per_page: Some(per_page),
        }
    }
}

} // verus!
