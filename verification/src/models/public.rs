//! Public unauthenticated API models.

use std::collections::HashMap;
use vstd::prelude::*;

verus! {

/// Site settings returned by `/api/public/settings`.
///
/// The public settings map is intentionally open-ended: AList exposes many
/// string-valued feature flags and site customization values, and the exact key
/// set changes across releases.
pub type PublicSettings = HashMap<String, String>;

/// Known public setting keys documented by the OpenAPI file.
#[derive(Debug, Clone, PartialEq, Eq)]
pub struct KnownPublicSettings {
    /// Whether indexing is allowed.
    pub allow_indexed: Option<String>,
    /// Whether remote mounting is allowed.
    pub allow_mounted: Option<String>,
    /// Site announcement.
    pub announcement: Option<String>,
    /// Default page size as a string setting.
    pub default_page_size: Option<String>,
    /// Favicon URL.
    pub favicon: Option<String>,
    /// Site title.
    pub site_title: Option<String>,
}

} // verus!
