//! A release's manifest.
use crate::authentication::utils::time::Timestamp;
use crate::game_files::release::argument::Arguments;
use crate::game_files::release::library::Library;
use crate::game_files::version_type::VersionType;
use crate::text::spec_keys_apart;
use vstd::prelude::*;

verus! {

/// What a release's manifest holds.
#[derive(Debug, Clone)]
pub struct ReleaseData {
    pub downloads: Downloads,
    pub arguments: Option<Arguments>,
    /// The logging set-ups, each under its name. No name stands twice.
    pub logging: Vec<(String, Logging)>,
    pub libraries: Vec<Library>,
    pub asset_index: AssetIndex,
    pub assets: String,
    pub minimum_launcher_version: u64,
    /// The kind of the release.
    pub release_type: VersionType,
    /// The name of the release.
    pub id: String,
    pub release_time: Timestamp,
    pub time: Timestamp,
    pub compliance_level: u8,
    pub main_class: String,
    pub java_version: JavaVersion,
}

impl ReleaseData {
    /// No name stands twice among the logging set-ups, and every library is
    /// well formed.
    pub open spec fn spec_wf(self) -> bool {
        &&& spec_keys_apart(self.logging@)
        &&& forall|i: int|
            0 <= i < self.libraries@.len() ==> (#[trigger] self.libraries@[i]).spec_wf()
    }

    /// Whether the release comes with a server.
    pub fn has_server(&self) -> (has: bool)
        ensures
            has == self.downloads.server is Some,
    {
        self.downloads.server.is_some()
    }

    /// Whether the release comes with the mappings of both the server and the
    /// client.
    pub fn has_mappings(&self) -> (has: bool)
        ensures
            has == (self.downloads.server_mapping is Some && self.downloads.client_mapping
                is Some),
    {
        self.downloads.server_mapping.is_some() && self.downloads.client_mapping.is_some()
    }
}

/// Where the list of a release's assets is.
#[derive(Debug, Clone)]
pub struct AssetIndex {
    pub id: String,
    pub sha1: String,
    pub size: u64,
    pub total_size: Option<u64>,
    pub url: String,
}

/// One file of a release.
#[derive(Debug, Clone)]
pub struct Download {
    pub sha1: String,
    pub size: u64,
    pub url: String,
}

/// The files of a release.
#[derive(Debug, Clone)]
pub struct Downloads {
    pub client: Download,
    pub server: Option<Download>,
    pub server_mapping: Option<Download>,
    pub client_mapping: Option<Download>,
}

/// The Java that a release runs on.
#[derive(Debug, Clone)]
pub struct JavaVersion {
    pub component: String,
    pub major_version: u64,
}

/// A logging set-up.
#[derive(Debug, Clone)]
pub struct Logging {
    pub argument: String,
    pub file: LoggingFile,
    pub logging_type: String,
}

/// The file of a logging set-up.
#[derive(Debug, Clone)]
pub struct LoggingFile {
    pub id: String,
    pub sha1: String,
    pub size: u64,
    pub url: String,
}

} // verus!
