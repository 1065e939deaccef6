//! The kinds of version.
use vstd::prelude::*;
use vstd::string::*;

verus! {

/// The kind of a version.
#[derive(Debug, Clone, Copy, Hash, PartialEq, Eq, Structural)]
pub enum VersionType {
    Snapshot,
    Release,
    OldBeta,
    OldAlpha,
}

impl VersionType {
    /// The name of the kind, as the manifests write it.
    pub open spec fn spec_name(self) -> Seq<char> {
        match self {
            VersionType::Snapshot => "snapshot"@,
            VersionType::Release => "release"@,
            VersionType::OldBeta => "old_beta"@,
            VersionType::OldAlpha => "old_alpha"@,
        }
    }

    /// The name of the kind, as the manifests write it.
    pub fn to_string(&self) -> (name: String)
        ensures
            name@ == self.spec_name(),
    {
        let version_name = match self {
            VersionType::Snapshot => "snapshot",
            VersionType::Release => "release",
            VersionType::OldBeta => "old_beta",
            VersionType::OldAlpha => "old_alpha",
        };
        String::from_str(version_name)
    }
}

} // verus!
