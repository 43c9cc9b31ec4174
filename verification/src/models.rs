//! Data models grouped by AList API tags.
//!
//! The file layout follows AList API paths such as `auth`, `fs`, and `public`.
//! Nested endpoints keep their models under the matching parent path.

pub mod admin;
pub mod auth;
pub mod common;
pub mod fs;
pub mod public;

pub use auth::{LoginReq, LoginResp};
pub use common::{ApiResponse, PageReq, PageResp, TaskInfo, UploadResp};
pub use fs::archive::{ArchiveDecompressReq, ArchiveListReq, ArchiveMetaReq};
pub use public::{KnownPublicSettings, PublicSettings};
