//! Data models for the `fs` OpenAPI group, excluding archive-specific payloads.
//! The object listings, which carry timestamps, live with the asynchronous client.

pub mod archive;

use crate::models::common::TaskInfo;
use vstd::prelude::*;

verus! {


/// Label metadata attached to a file in current `/fs/list` responses.
#[derive(Debug, Clone, PartialEq, Eq)]
pub struct LabelResp {
    /// Label id.
    pub id: u64,
    /// Label type from AList (the `type` field of the JSON object).
    pub label_type: Option<i32>,
    /// Display name.
    pub name: String,
    /// Optional label color.
    pub color: Option<String>,
}


/// Request body for `/api/fs/list`.
#[derive(Debug, Clone, PartialEq, Eq)]
pub struct FsListReq {
    /// Directory path to list.
    pub path: String,
    /// Meta password. Use an empty string when no password is needed.
    pub password: String,
    /// Force refresh the storage cache.
    pub refresh: bool,
    /// One-based page number.
    pub page: i32,
    /// Page size. Current server accepts `0` for all items.
    pub per_page: i32,
}

impl FsListReq {
    /// Build an all-items list request with no meta password and no refresh.
    pub fn all(path: &str) -> (req: Self)
        ensures
            req.path@ == path@,
            req.password@ == Seq::<char>::empty(),
            !req.refresh,
            req.page == 1,
            req.per_page == 0,
    {
        Self {
            path: path.to_string(),
            password: String::new(),
            refresh: false,
            page: 1,
            per_page: 0,
        }
    }
}


/// Request body for `/api/fs/get`.
#[derive(Debug, Clone, PartialEq, Eq)]
pub struct FsGetReq {
    /// Object path.
    pub path: String,
    /// Meta password. Use an empty string when no password is needed.
    pub password: String,
    /// Some docs/examples include pagination fields for related items.
    pub page: Option<i32>,
    /// Some docs/examples include pagination fields for related items.
    pub per_page: Option<i32>,
    /// Force refresh object metadata.
    pub refresh: Option<bool>,
}


/// Request body for `/api/fs/dirs`.
#[derive(Debug, Clone, PartialEq, Eq)]
pub struct DirsReq {
    /// Parent directory path.
    pub path: String,
    /// Meta password. Use an empty string when no password is needed.
    pub password: String,
    /// Admin-only flag to bypass the current user's base path.
    pub force_root: bool,
}


/// Request body for `/api/fs/mkdir`.
#[derive(Debug, Clone, PartialEq, Eq)]
pub struct MkdirReq {
    /// New directory path.
    pub path: String,
}

/// Request body for `/api/fs/move` and `/api/fs/copy`.
#[derive(Debug, Clone, PartialEq, Eq)]
pub struct MoveCopyReq {
    /// Source directory.
    pub src_dir: String,
    /// Destination directory.
    pub dst_dir: String,
    /// File or directory names relative to `src_dir`.
    pub names: Vec<String>,
    /// Current server supports overwrite though the OpenAPI examples omit it.
    pub overwrite: bool,
}

/// Request body for `/api/fs/rename`.
#[derive(Debug, Clone, PartialEq, Eq)]
pub struct RenameReq {
    /// Source path.
    pub path: String,
    /// New name. Must not contain `/`.
    pub name: String,
    /// Current server supports overwrite though the OpenAPI examples omit it.
    pub overwrite: bool,
}

/// Rename pair used by `/api/fs/batch_rename`.
#[derive(Debug, Clone, PartialEq, Eq)]
pub struct BatchRenameObject {
    /// Original file or directory name relative to `src_dir`.
    pub src_name: String,
    /// New file or directory name.
    pub new_name: String,
}

/// Request body for `/api/fs/batch_rename`.
#[derive(Debug, Clone, PartialEq, Eq)]
pub struct BatchRenameReq {
    /// Source directory containing the renamed objects.
    pub src_dir: String,
    /// Rename operations to apply.
    pub rename_objects: Vec<BatchRenameObject>,
}

/// Request body for `/api/fs/regex_rename`.
#[derive(Debug, Clone, PartialEq, Eq)]
pub struct RegexRenameReq {
    /// Source directory containing matched objects.
    pub src_dir: String,
    /// Regular expression used to match original file names.
    pub src_name_regex: String,
    /// Replacement expression used to build new file names.
    pub new_name_regex: String,
}

/// Request body for `/api/fs/remove`.
#[derive(Debug, Clone, PartialEq, Eq)]
pub struct RemoveReq {
    /// Parent directory.
    pub dir: String,
    /// File or directory names relative to `dir`.
    pub names: Vec<String>,
}

/// Request body for `/api/fs/remove_empty_directory`.
#[derive(Debug, Clone, PartialEq, Eq)]
pub struct RemoveEmptyDirectoryReq {
    /// Root directory to scan for empty directories.
    pub src_dir: String,
}

/// Request body for `/api/fs/search`.
#[derive(Debug, Clone, PartialEq, Eq)]
pub struct SearchReq {
    /// Parent path to search under.
    pub parent: String,
    /// Search keywords.
    pub keywords: String,
    /// Search scope: `0` all, `1` directories, `2` files.
    pub scope: i32,
    /// One-based page number.
    pub page: i32,
    /// Page size.
    pub per_page: i32,
    /// Meta password. Use an empty string when no password is needed.
    pub password: String,
}

/// Search result item returned by `/api/fs/search`.
#[derive(Debug, Clone, PartialEq, Eq)]
pub struct SearchResp {
    /// Parent path containing the result.
    pub parent: String,
    /// File or directory name.
    pub name: String,
    /// Whether this result is a directory.
    pub is_dir: bool,
    /// Size in bytes.
    pub size: i64,
    /// AList object type code.
    pub obj_type: i32,
}

/// Response payload used by copy/offline APIs when they create tasks.
#[derive(Debug, Clone, PartialEq, Eq)]
pub struct TasksResp {
    /// Created tasks.
    pub tasks: Vec<TaskInfo>,
}

} // verus!
