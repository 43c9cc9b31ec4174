//! Archive payloads for `/api/fs/archive/*` endpoints.
//!
//! OpenAPI groups these endpoints under `fs`, but the server implements them in
//! `handles/archive.go`; keeping these models separate makes the recursive tree
//! response easier to browse. The response
//! types carry timestamps and live with the asynchronous client.

use vstd::prelude::*;

verus! {

/// Request body for `/api/fs/archive/meta`.
#[derive(Debug, Clone, PartialEq, Eq)]
pub struct ArchiveMetaReq {
    /// Archive file path.
    pub path: String,
    /// Meta password. Use an empty string when no password is needed.
    pub password: String,
    /// Refresh cached archive metadata.
    pub refresh: bool,
    /// Password for encrypted archives.
    pub archive_pass: String,
}



/// Request body for `/api/fs/archive/list`.
#[derive(Debug, Clone, PartialEq, Eq)]
pub struct ArchiveListReq {
    /// Archive file path.
    pub path: String,
    /// Meta password. Use an empty string when no password is needed.
    pub password: String,
    /// Refresh cached archive metadata.
    pub refresh: bool,
    /// Password for encrypted archives.
    pub archive_pass: String,
    /// One-based page number.
    pub page: i32,
    /// Page size. AList accepts `0` for all items.
    pub per_page: i32,
    /// Path inside the archive.
    pub inner_path: String,
}


/// Request body for `/api/fs/archive/decompress`.
#[derive(Debug, Clone, PartialEq, Eq)]
pub struct ArchiveDecompressReq {
    /// Source directory containing the archive.
    pub src_dir: String,
    /// Destination directory for extracted files.
    pub dst_dir: String,
    /// Archive file names. The Go server accepts a string or array; this client
    /// sends the array form for deterministic JSON.
    pub name: Vec<String>,
    /// Password for encrypted archives.
    pub archive_pass: String,
    /// Path inside the archive to extract.
    pub inner_path: String,
    /// Whether to cache the full archive before extracting.
    pub cache_full: bool,
    /// Whether to put extracted files into a new directory.
    pub put_into_new_dir: bool,
}

} // verus!
