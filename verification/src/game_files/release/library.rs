//! The libraries of a release.
use crate::game_files::release::data::ReleaseData;
use crate::game_files::release::rule::{Rule, RuleType};
use crate::text::spec_keys_apart;
use vstd::prelude::*;

verus! {

/// A library of a release.
#[derive(Debug, Clone, PartialEq, Eq)]
pub struct Library {
    pub downloads: LibraryDownloads,
    pub name: String,
    /// The rules under which the library is used; `None` for a library that
    /// is always used.
    pub rules: Option<Vec<Rule>>,
    pub extract: Option<LibraryExtract>,
    /// The classifier of the natives for each system, under the system's
    /// name. No name stands twice.
    pub natives: Option<Vec<(String, String)>>,
}

impl Library {
    /// The library's rules are each well formed, no system is named twice
    /// among its natives, and no classifier stands twice among its files.
    pub open spec fn spec_wf(self) -> bool {
        &&& spec_keys_apart(self.downloads.classifiers@)
        &&& self.natives matches Some(natives) ==> spec_keys_apart(natives@)
        &&& self.rules matches Some(rules) ==> forall|i: int|
            0 <= i < rules@.len() ==> (#[trigger] rules@[i]).requirement.spec_wf()
    }
}

/// One file of a library.
#[derive(Debug, Clone, PartialEq, Eq)]
pub struct Artifact {
    pub sha1: String,
    pub size: u64,
    pub url: String,
    pub path: String,
}

/// The files of a library.
#[derive(Debug, Clone, PartialEq, Eq)]
pub struct LibraryDownloads {
    pub artifact: Option<Artifact>,
    /// The files for single systems, each under its classifier. No
    /// classifier stands twice.
    pub classifiers: Vec<(String, Artifact)>,
}

/// What is left out when a library is unpacked.
#[derive(Debug, Clone, PartialEq, Eq)]
pub struct LibraryExtract {
    pub exclude: Vec<String>,
}

/// `rule` allows, and its requirement on the system is met.
pub open spec fn spec_allows(
    rule: Rule,
    os: Seq<char>,
    arch: Seq<char>,
    version: Option<String>,
) -> bool {
    rule.action == RuleType::Allow && rule.spec_should_do_os(os, arch, version)
}

/// `library`, once for each of `rules` that allows on the system.
pub open spec fn spec_once_per_allowing(
    library: Library,
    rules: Seq<Rule>,
    os: Seq<char>,
    arch: Seq<char>,
    version: Option<String>,
) -> Seq<Library>
    decreases rules.len(),
{
    if rules.len() == 0 {
        Seq::empty()
    } else {
        let before = spec_once_per_allowing(library, rules.drop_last(), os, arch, version);
        if spec_allows(rules.last(), os, arch, version) {
            before.push(library)
        } else {
            before
        }
    }
}

/// What `library` adds to the libraries to download: itself where it has no
/// rules, else itself once for each of its rules that allows on the system.
/// A rule that disallows takes nothing away.
pub open spec fn spec_download_of(
    library: Library,
    os: Seq<char>,
    arch: Seq<char>,
    version: Option<String>,
) -> Seq<Library> {
    match library.rules {
        Some(rules) => spec_once_per_allowing(library, rules@, os, arch, version),
        None => seq![library],
    }
}

/// The libraries to download: what each of `libraries` adds, in their order.
pub open spec fn spec_libraries_to_download(
    libraries: Seq<Library>,
    os: Seq<char>,
    arch: Seq<char>,
    version: Option<String>,
) -> Seq<Library>
    decreases libraries.len(),
{
    if libraries.len() == 0 {
        Seq::empty()
    } else {
        spec_libraries_to_download(libraries.drop_last(), os, arch, version) + spec_download_of(
            libraries.last(),
            os,
            arch,
            version,
        )
    }
}

/// A copy of a version.
fn copy_of(version: &Option<String>) -> (copy: Option<String>)
    ensures
        copy == *version,
{
    match version {
        Some(text) => Some(text.clone()),
        None => None,
    }
}

/// The libraries behind the references.
pub open spec fn spec_referred(references: Seq<&Library>) -> Seq<Library> {
    Seq::new(references.len(), |i: int| *references[i])
}

impl ReleaseData {
    /// The libraries to download on a system named `os`, of the architecture
    /// `arch`, and, where one is given, of the version `version`: see
    /// [`spec_libraries_to_download`].
    pub fn get_libraries_to_download(
        &self,
        os: String,
        arch: String,
        version: Option<String>,
    ) -> (libraries: Vec<&Library>)
        ensures
            spec_referred(libraries@) == spec_libraries_to_download(
                self.libraries@,
                os@,
                arch@,
                version,
            ),
    {
        let mut libraries: Vec<&Library> = Vec::new();
        let mut i: usize = 0;
        while i < self.libraries.len()
            invariant
                i <= self.libraries.len(),
                spec_referred(libraries@) == spec_libraries_to_download(
                    self.libraries@.take(i as int),
                    os@,
                    arch@,
                    version,
                ),
            decreases self.libraries.len() - i,
        {
            let library = &self.libraries[i];
            let ghost before = spec_referred(libraries@);
            proof {
                let upto = self.libraries@.take(i as int + 1);
                assert(upto.drop_last() =~= self.libraries@.take(i as int));
                assert(upto.last() == *library);
            }
            match &library.rules {
                Some(rules) => {
                    let mut k: usize = 0;
                    while k < rules.len()
                        invariant
                            k <= rules.len(),
                            spec_referred(libraries@) == before + spec_once_per_allowing(
                                *library,
                                rules@.take(k as int),
                                os@,
                                arch@,
                                version,
                            ),
                        decreases rules.len() - k,
                    {
                        let rule = &rules[k];
                        let ghost so_far = spec_referred(libraries@);
                        proof {
                            let upto = rules@.take(k as int + 1);
                            assert(upto.drop_last() =~= rules@.take(k as int));
                            assert(upto.last() == *rule);
                        }
                        let should_download = match rule.action {
                            RuleType::Allow => rule.should_do_os(
                                os.as_str(),
                                arch.as_str(),
                                copy_of(&version),
                            ),
                            RuleType::Disallow => false,
                        };
                        if should_download {
                            libraries.push(library);
                            assert(spec_referred(libraries@) =~= so_far.push(*library));
                        }
                        k = k + 1;
                    }
                    assert(rules@.take(k as int) =~= rules@);
                },
                None => {
                    libraries.push(library);
                    assert(spec_referred(libraries@) =~= before + seq![*library]);
                },
            }
            i = i + 1;
        }
        assert(self.libraries@.take(i as int) =~= self.libraries@);
        libraries
    }
}

} // verus!
