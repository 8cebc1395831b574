//! One SDK build's metadata record.

use vstd::prelude::*;

use crate::category::JdkCategory;
use crate::category::spec_category_list;

verus! {

/// Metadata of one SDK build as a catalog or installer sees it.
///
/// The `categories` field is derived: it carries exactly what the classifier
/// resolves from `identifier`, and nothing else. The install and usage flags
/// and the two transient fields belong to collaborators that track install
/// operations; this crate only stores them.
#[derive(Clone, Debug)]
pub struct SdkVersion {
    /// Human-readable version label.
    pub version: String,
    /// Vendor-specific unique build identifier; the sole input to
    /// classification.
    pub identifier: String,
    /// Distributor name.
    pub vendor: String,
    /// Categories derived from `identifier`, enumerated without duplicates.
    pub categories: Vec<JdkCategory>,
    /// The SDK product family the build belongs to.
    pub candidate: String,
    /// Whether this build is present locally.
    pub installed: bool,
    /// Whether this build is the configured default for its candidate.
    pub is_default: bool,
    /// Whether this build is the active one in the current session.
    pub in_use: bool,
    /// Transient: an install operation is in flight (absent when not
    /// applicable).
    pub installing: Option<bool>,
    /// Transient: human-readable install progress text (absent when not
    /// applicable).
    pub install_progress: Option<String>,
}

impl SdkVersion {
    /// A well-formed record carries exactly the categories the classifier
    /// derives from its identifier.
    pub open spec fn wf(self) -> bool {
        self.categories@ == spec_category_list(self.identifier@)
    }

    /// Construct a record from catalog data.
    ///
    /// The categories are derived here, by the one classification call, and
    /// the two transient fields start absent.
    pub fn new(
        version: String,
        identifier: String,
        vendor: String,
        candidate: String,
        installed: bool,
        is_default: bool,
        in_use: bool,
    ) -> (r: SdkVersion)
        ensures
            r.wf(),
            r.version == version,
            r.identifier == identifier,
            r.vendor == vendor,
            r.candidate == candidate,
            r.installed == installed,
            r.is_default == is_default,
            r.in_use == in_use,
            r.installing is None,
            r.install_progress is None,
    {
        let categories = JdkCategory::from_identifier(identifier.as_str());
        SdkVersion {
            version,
            identifier,
            vendor,
            categories,
            candidate,
            installed,
            is_default,
            in_use,
            installing: None,
            install_progress: None,
        }
    }
}

} // verus!
