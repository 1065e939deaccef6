//! The list of all versions.
use crate::authentication::utils::time::Timestamp;
use crate::game_files::version_type::VersionType;
use crate::game_files::{parse_url, spec_parsed_url};
use crate::text::same_text;
use vstd::prelude::*;

verus! {

/// The list of all versions, with the latest of them named.
#[derive(Debug)]
pub struct VersionManifest {
    pub latest: Latest,
    pub versions: Vec<Version>,
}

/// The names of the latest versions.
#[derive(Debug)]
pub struct Latest {
    /// The latest release.
    pub release: String,
    /// The latest snapshot.
    pub snapshot: String,
}

/// A version, as the list of all versions describes it.
#[derive(Debug)]
pub struct Version {
    /// The kind of the version.
    pub release_type: VersionType,
    /// Where the release's manifest is.
    pub url: String,
    /// The name of the version.
    pub id: String,
    pub release_time: Timestamp,
    pub time: Timestamp,
    pub sha1: String,
    pub compliance_level: u8,
}

/// `at` is where the first version named `id` stands among `versions`.
pub open spec fn spec_first_named(versions: Seq<Version>, id: Seq<char>, at: int) -> bool {
    &&& 0 <= at < versions.len()
    &&& versions[at].id@ == id
    &&& forall|j: int| 0 <= j < at ==> (#[trigger] versions[j]).id@ != id
}

/// A version named `id` is among `versions`.
pub open spec fn spec_named(versions: Seq<Version>, id: Seq<char>) -> bool {
    exists|at: int| 0 <= at < versions.len() && (#[trigger] versions[at]).id@ == id
}

impl VersionManifest {
    /// The first version named `id`; `None` where no version has that name.
    pub fn get_version(&self, id: &str) -> (found: Option<&Version>)
        ensures
            match found {
                Some(version) => exists|at: int|
                    spec_first_named(self.versions@, id@, at) && *version
                        == #[trigger] self.versions@[at],
                None => !spec_named(self.versions@, id@),
            },
    {
        let mut i: usize = 0;
        while i < self.versions.len()
            invariant
                i <= self.versions.len(),
                forall|j: int| 0 <= j < i ==> (#[trigger] self.versions@[j]).id@ != id@,
            decreases self.versions.len() - i,
        {
            if same_text(self.versions[i].id.as_str(), id) {
                assert(spec_first_named(self.versions@, id@, i as int));
                return Some(&self.versions[i]);
            }
            i = i + 1;
        }
        None
    }

    /// The version that the list names as its latest snapshot. The list has
    /// to hold it.
    pub fn get_latest_snapshot(&self) -> (found: &Version)
        requires
            spec_named(self.versions@, self.latest.snapshot@),
        ensures
            exists|at: int|
                spec_first_named(self.versions@, self.latest.snapshot@, at) && *found
                    == #[trigger] self.versions@[at],
    {
        self.first_named(self.latest.snapshot.as_str())
    }

    /// The version that the list names as its latest release. The list has
    /// to hold it.
    pub fn get_latest_release(&self) -> (found: &Version)
        requires
            spec_named(self.versions@, self.latest.release@),
        ensures
            exists|at: int|
                spec_first_named(self.versions@, self.latest.release@, at) && *found
                    == #[trigger] self.versions@[at],
    {
        self.first_named(self.latest.release.as_str())
    }

    /// The first version named `id`, in a list that holds one.
    fn first_named(&self, id: &str) -> (found: &Version)
        requires
            spec_named(self.versions@, id@),
        ensures
            exists|at: int|
                spec_first_named(self.versions@, id@, at) && *found == #[trigger] self.versions@[at],
    {
        let count = self.versions.len();
        let mut i: usize = 0;
        loop
            invariant
                count == self.versions@.len(),
                exists|at: int|
                    i <= at < self.versions@.len() && (#[trigger] self.versions@[at]).id@ == id@,
                forall|j: int| 0 <= j < i ==> (#[trigger] self.versions@[j]).id@ != id@,
            decreases self.versions@.len() - i,
        {
            if same_text(self.versions[i].id.as_str(), id) {
                assert(spec_first_named(self.versions@, id@, i as int));
                return &self.versions[i];
            }
            i = i + 1;
        }
    }
}

impl Version {
    /// The URL from which the release's manifest is fetched: the version's
    /// `url`, parsed as an absolute URL; the error where it is none.
    pub fn get_release(&self) -> (url: Result<String, url::ParseError>)
        ensures
            match url {
                Ok(text) => spec_parsed_url(self.url@) == Some(text@),
                Err(_) => spec_parsed_url(self.url@) is None,
            },
    {
        parse_url(self.url.as_str())
    }
}

} // verus!
