//! The parsed data model of upstream responses.
//!
//! Upstream may omit any field: every nested field is possibly-absent, and
//! a document stays usable however partial it is. Only the top-level
//! envelope of a response has to be minimally well-formed; that failure is
//! reported before a document of this model is ever built.

use std::collections::HashMap;
use vstd::prelude::*;

verus! {

/// One monetization offer attached to an item.
#[derive(Clone, PartialEq, Eq, Debug)]
pub struct Offer {
    pub micros: Option<i64>,
    pub currency_code: Option<String>,
    pub formatted_amount: Option<String>,
    pub checkout_flow_required: Option<bool>,
    pub offer_type: Option<i32>,
}

/// Developer and version information nested under an item's details.
#[derive(Clone, PartialEq, Eq, Debug)]
pub struct AppDetails {
    pub developer_name: Option<String>,
    pub version_code: Option<i32>,
    pub version_string: Option<String>,
    pub info_download_size: Option<i64>,
    pub developer_email: Option<String>,
    pub developer_website: Option<String>,
    pub info_download: Option<String>,
    pub package_name: Option<String>,
    pub recent_changes_html: Option<String>,
    pub info_updated_on: Option<String>,
    pub target_sdk_version: Option<i32>,
}

/// The details container of an item.
#[derive(Clone, PartialEq, Eq, Debug)]
pub struct DocumentDetails {
    pub app_details: Option<AppDetails>,
}

/// One label/description section of an item's app-info tree.
#[derive(Clone, PartialEq, Eq, Debug)]
pub struct AppInfoContainer {
    pub description: Option<String>,
}

/// One section of an item's app-info tree.
#[derive(Clone, PartialEq, Eq, Debug)]
pub struct AppInfoSection {
    pub label: Option<String>,
    pub container: Option<AppInfoContainer>,
}

/// The app-info tree of an item.
#[derive(Clone, PartialEq, Eq, Debug)]
pub struct AppInfo {
    pub section: Vec<AppInfoSection>,
}

/// One catalog item: identifier, naming, monetization and nested details.
#[derive(Clone, PartialEq, Eq, Debug)]
pub struct Item {
    pub id: Option<String>,
    pub sub_id: Option<String>,
    pub item_type: Option<i32>,
    pub category_id: Option<i32>,
    pub title: Option<String>,
    pub creator: Option<String>,
    pub description_html: Option<String>,
    pub promotional_description: Option<String>,
    pub mature: Option<bool>,
    pub available_for_preregistration: Option<bool>,
    pub force_shareability: Option<bool>,
    pub offer: Vec<Offer>,
    pub details: Option<DocumentDetails>,
    pub app_info: Option<AppInfo>,
}

/// The parsed representation of one app's metadata for one channel.
#[derive(Clone, PartialEq, Eq, Debug)]
pub struct SerializableDetailsResponse {
    pub item: Option<Item>,
    pub footer_html: Option<String>,
    pub enable_reviews: Option<bool>,
}

/// The details document a channel query yields; `SerializableDetailsResponse`
/// is its shape on the serialization boundary.
pub type DetailsDocument = SerializableDetailsResponse;

impl SerializableDetailsResponse {
    /// The version code nested in the document's app details, if every
    /// level of the optional chain is present.
    pub open spec fn spec_version_code(self) -> Option<i32> {
        match self.item {
            Some(item) => match item.details {
                Some(d) => match d.app_details {
                    Some(a) => a.version_code,
                    None => None,
                },
                None => None,
            },
            None => None,
        }
    }

    /// Reads the version code out of the nested app-details field.
    pub fn version_code(&self) -> (r: Option<i32>)
        ensures
            r == self.spec_version_code(),
    {
        match &self.item {
            Some(item) => match &item.details {
                Some(d) => match &d.app_details {
                    Some(a) => a.version_code,
                    None => None,
                },
                None => None,
            },
            None => None,
        }
    }
}

/// The delivery grant for one (package, channel, version): an optional
/// main-package URL, the ordered named split files (name, URL) and the
/// ordered named auxiliary files (filename, URL), exactly as upstream
/// listed them.
#[derive(Clone, PartialEq, Eq, Debug)]
pub struct DownloadBundle {
    pub main_apk_url: Option<String>,
    pub splits: Vec<(String, String)>,
    pub additional_files: Vec<(String, String)>,
}

/// One named split file of an assembled download result.
#[derive(Clone, PartialEq, Eq, Debug)]
pub struct SplitFile {
    pub name: Option<String>,
    pub download_url: Option<String>,
}

/// One named auxiliary file of an assembled download result.
#[derive(Clone, PartialEq, Eq, Debug)]
pub struct AdditionalFile {
    pub filename: Option<String>,
    pub download_url: Option<String>,
}

/// The assembled download result handed to callers: naming metadata next
/// to the granted URLs.
#[derive(Clone, PartialEq, Eq, Debug)]
pub struct DownloadInfo {
    pub suggested_filename: Option<String>,
    pub app_name: Option<String>,
    pub version_string: Option<String>,
    pub version_code: Option<i32>,
    pub channel: Option<String>,
    pub main_apk_url: Option<String>,
    pub splits: Vec<SplitFile>,
    pub additional_files: Vec<AdditionalFile>,
}

/// The single-result envelope of the serialization boundary.
#[derive(Clone, PartialEq, Eq, Debug)]
pub struct ApiResponse<T> {
    pub success: bool,
    pub data: Option<T>,
    pub error: Option<String>,
}

/// The aggregate envelope of the serialization boundary: one entry per
/// channel name that answered.
#[derive(Debug)]
pub struct MultiChannelApiResponse<T> {
    pub success: bool,
    pub data: Option<HashMap<String, T>>,
    pub error: Option<String>,
}

} // verus!
