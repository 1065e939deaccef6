//! The rules by which a manifest ties a library or an argument to a system or
//! to features.
use crate::text::{same_text, spec_keys_apart};
use vstd::prelude::*;
use vstd::string::*;

verus! {

/// What a rule does where its requirement is met.
#[derive(Debug, Clone, Copy, PartialEq, Eq, Structural)]
pub enum RuleType {
    /// What the rule stands on is used.
    Allow,
    /// What the rule stands on is not used.
    Disallow,
}

/// What a rule requires.
#[derive(Debug, Clone, PartialEq, Eq)]
pub enum RuleRequirement {
    /// Properties of the system.
    OS(Vec<RuleOS>),
    /// Features, each with the state it is asked to be in. No feature is
    /// named twice.
    Features(Vec<(String, bool)>),
    /// Nothing.
    Default,
}

impl RuleRequirement {
    /// Where features are required, none is named twice.
    pub open spec fn spec_wf(self) -> bool {
        match self {
            RuleRequirement::Features(features) => spec_keys_apart(features@),
            _ => true,
        }
    }
}

/// One required property of the system.
#[derive(Debug, Clone, PartialEq, Eq)]
pub enum RuleOS {
    /// Its name.
    Name(String),
    /// Its architecture.
    Arch(String),
    /// Its version.
    Version(String),
    /// A property that is not known here.
    Other { key: String, value: String },
}

/// A rule on a library or an argument.
#[derive(Debug, Clone, PartialEq, Eq)]
pub struct Rule {
    /// What the rule does where its requirement is met.
    pub action: RuleType,
    /// What the rule requires.
    pub requirement: RuleRequirement,
}

/// The key under which a manifest writes the name of the system.
pub const OS_NAME_KEY: &'static str = "name";

/// The key under which a manifest writes the architecture of the system.
pub const OS_ARCH_KEY: &'static str = "arch";

/// The key under which a manifest writes the version of the system.
pub const OS_VERSION_KEY: &'static str = "version";

impl RuleOS {
    /// The property that a manifest writes as `key` with `value`: the name,
    /// the version or the architecture under their keys, and a property that
    /// is not known here under every other key.
    pub open spec fn spec_from_entry(key: String, value: String) -> RuleOS {
        if key@ == OS_NAME_KEY@ {
            RuleOS::Name(value)
        } else if key@ == OS_VERSION_KEY@ {
            RuleOS::Version(value)
        } else if key@ == OS_ARCH_KEY@ {
            RuleOS::Arch(value)
        } else {
            RuleOS::Other { key, value }
        }
    }

    /// The property that a manifest writes as `key` with `value`: see
    /// [`Self::spec_from_entry`].
    pub fn from_entry(key: String, value: String) -> (property: RuleOS)
        ensures
            property == Self::spec_from_entry(key, value),
    {
        if same_text(key.as_str(), OS_NAME_KEY) {
            RuleOS::Name(value)
        } else if same_text(key.as_str(), OS_VERSION_KEY) {
            RuleOS::Version(value)
        } else if same_text(key.as_str(), OS_ARCH_KEY) {
            RuleOS::Arch(value)
        } else {
            RuleOS::Other { key, value }
        }
    }

    /// The key and the value as which a manifest writes the property.
    pub fn entry(&self) -> (entry: (&str, &str))
        ensures
            match *self {
                RuleOS::Name(name) => entry.0@ == OS_NAME_KEY@ && entry.1@ == name@,
                RuleOS::Arch(arch) => entry.0@ == OS_ARCH_KEY@ && entry.1@ == arch@,
                RuleOS::Version(version) => entry.0@ == OS_VERSION_KEY@ && entry.1@ == version@,
                RuleOS::Other { key, value } => entry.0@ == key@ && entry.1@ == value@,
            },
    {
        match self {
            RuleOS::Name(name) => (OS_NAME_KEY, name.as_str()),
            RuleOS::Arch(arch) => (OS_ARCH_KEY, arch.as_str()),
            RuleOS::Version(version) => (OS_VERSION_KEY, version.as_str()),
            RuleOS::Other { key, value } => (key.as_str(), value.as_str()),
        }
    }
}

/// A property that is written out and read back is the property it was,
/// unless it is one that is not known here under the key of one that is.
pub proof fn lemma_entry_round_trip(property: RuleOS, key: String, value: String)
    requires
        match property {
            RuleOS::Name(name) => key@ == OS_NAME_KEY@ && value == name,
            RuleOS::Arch(arch) => key@ == OS_ARCH_KEY@ && value == arch,
            RuleOS::Version(version) => key@ == OS_VERSION_KEY@ && value == version,
            RuleOS::Other { key: other, value: held } => key == other && value == held
                && other@ != OS_NAME_KEY@ && other@ != OS_ARCH_KEY@ && other@ != OS_VERSION_KEY@,
        },
    ensures
        RuleOS::spec_from_entry(key, value) == property,
{
    reveal_strlit("name");
    reveal_strlit("arch");
    reveal_strlit("version");
    assert(OS_NAME_KEY@ != OS_VERSION_KEY@) by {
        assert(OS_NAME_KEY@.len() != OS_VERSION_KEY@.len());
    }
    assert(OS_ARCH_KEY@ != OS_VERSION_KEY@) by {
        assert(OS_ARCH_KEY@.len() != OS_VERSION_KEY@.len());
    }
    assert(OS_NAME_KEY@ != OS_ARCH_KEY@) by {
        assert(OS_NAME_KEY@[0] != OS_ARCH_KEY@[0]);
    }
}

impl Rule {
    /// The rule that a manifest writes with these parts: it has to name its
    /// action, and where it names no requirement it requires nothing.
    pub fn from_parts(action: Option<RuleType>, requirement: Option<RuleRequirement>) -> (rule:
        Option<Rule>)
        ensures
            rule == match action {
                Some(action) => Some(
                    Rule {
                        action,
                        requirement: match requirement {
                            Some(requirement) => requirement,
                            None => RuleRequirement::Default,
                        },
                    },
                ),
                None => None,
            },
    {
        match action {
            Some(action) => Some(
                Rule {
                    action,
                    requirement: match requirement {
                        Some(requirement) => requirement,
                        None => RuleRequirement::Default,
                    },
                },
            ),
            None => None,
        }
    }
}

/// Whether the last `Name` among `rules` names `os`. With no `Name` among
/// them, no name is met.
pub open spec fn spec_name_met(rules: Seq<RuleOS>, os: Seq<char>) -> bool
    decreases rules.len(),
{
    if rules.len() == 0 {
        false
    } else {
        match rules.last() {
            RuleOS::Name(name) => name@ == os,
            _ => spec_name_met(rules.drop_last(), os),
        }
    }
}

/// Whether the last `Arch` among `rules` names `arch`. With no `Arch` among
/// them, no architecture is met.
pub open spec fn spec_arch_met(rules: Seq<RuleOS>, arch: Seq<char>) -> bool
    decreases rules.len(),
{
    if rules.len() == 0 {
        false
    } else {
        match rules.last() {
            RuleOS::Arch(value) => value@ == arch,
            _ => spec_arch_met(rules.drop_last(), arch),
        }
    }
}

/// Whether the last `Version` among `rules` names `version`. With no
/// `Version` among them, every version is met.
pub open spec fn spec_version_met(rules: Seq<RuleOS>, version: Seq<char>) -> bool
    decreases rules.len(),
{
    if rules.len() == 0 {
        true
    } else {
        match rules.last() {
            RuleOS::Version(value) => version == value@,
            _ => spec_version_met(rules.drop_last(), version),
        }
    }
}

/// Whether `key` is among `enabled`.
pub open spec fn spec_enabled(enabled: Seq<String>, key: Seq<char>) -> bool {
    exists|j: int| 0 <= j < enabled.len() && (#[trigger] enabled[j])@ == key
}

impl Rule {
    /// Whether the rule's requirement on the system is met by a system named
    /// `os`, of the architecture `arch`, and, where one is given, of the
    /// version `version`. A rule that requires nothing of the system is met.
    /// One that does is met where its name and its architecture are, and its
    /// version too where a version is given; properties that are not known
    /// here are passed over.
    pub open spec fn spec_should_do_os(
        self,
        os: Seq<char>,
        arch: Seq<char>,
        version: Option<String>,
    ) -> bool {
        match self.requirement {
            RuleRequirement::OS(rules) => {
                &&& spec_arch_met(rules@, arch)
                &&& spec_name_met(rules@, os)
                &&& match version {
                    Some(given) => spec_version_met(rules@, given@),
                    None => true,
                }
            },
            _ => true,
        }
    }

    /// Whether the rule's requirement on features is met where the features
    /// `features_enabled` are on. A rule that requires no feature is met. One
    /// that does is met where every feature that it names is on.
    pub open spec fn spec_should_do_feature(self, features_enabled: Seq<String>) -> bool {
        match self.requirement {
            RuleRequirement::Features(features) => forall|i: int|
                0 <= i < features@.len() ==> spec_enabled(
                    features_enabled,
                    (#[trigger] features@[i]).0@,
                ),
            _ => true,
        }
    }

    /// Whether the rule's requirement is met, on the system and on features.
    pub fn should_do(
        &self,
        os: &str,
        arch: &str,
        version: Option<String>,
        features_enabled: Vec<String>,
    ) -> (met: bool)
        ensures
            met == (self.spec_should_do_os(os@, arch@, version) && self.spec_should_do_feature(
                features_enabled@,
            )),
    {
        self.should_do_os(os, arch, version) && self.should_do_feature(features_enabled)
    }

    /// Whether the rule's requirement on the system is met: see
    /// [`Self::spec_should_do_os`].
    pub fn should_do_os(&self, os: &str, arch: &str, version: Option<String>) -> (met: bool)
        ensures
            met == self.spec_should_do_os(os@, arch@, version),
    {
        match &self.requirement {
            RuleRequirement::OS(os_rules) => {
                let mut os_name_match = false;
                let mut os_arch_match = false;
                let mut os_version_match = true;
                let mut i: usize = 0;
                while i < os_rules.len()
                    invariant
                        i <= os_rules.len(),
                        os_name_match == spec_name_met(os_rules@.take(i as int), os@),
                        os_arch_match == spec_arch_met(os_rules@.take(i as int), arch@),
                        os_version_match == match version {
                            Some(given) => spec_version_met(os_rules@.take(i as int), given@),
                            None => true,
                        },
                    decreases os_rules.len() - i,
                {
                    proof {
                        let upto = os_rules@.take(i as int + 1);
                        assert(upto.drop_last() =~= os_rules@.take(i as int));
                        assert(upto.last() == os_rules@[i as int]);
                    }
                    match &os_rules[i] {
                        RuleOS::Name(name) => {
                            os_name_match = same_text(name.as_str(), os);
                        },
                        RuleOS::Arch(value) => {
                            os_arch_match = same_text(arch, value.as_str());
                        },
                        RuleOS::Version(value) => {
                            match &version {
                                Some(requirement) => {
                                    os_version_match = same_text(
                                        requirement.as_str(),
                                        value.as_str(),
                                    );
                                },
                                None => {},
                            }
                        },
                        RuleOS::Other { .. } => {},
                    }
                    i = i + 1;
                }
                assert(os_rules@.take(i as int) =~= os_rules@);
                os_arch_match && os_version_match && os_name_match
            },
            _ => true,
        }
    }

    /// Whether the rule's requirement on features is met: see
    /// [`Self::spec_should_do_feature`].
    pub fn should_do_feature(&self, features_enabled: Vec<String>) -> (met: bool)
        ensures
            met == self.spec_should_do_feature(features_enabled@),
    {
        match &self.requirement {
            RuleRequirement::Features(features) => {
                let mut i: usize = 0;
                while i < features.len()
                    invariant
                        i <= features.len(),
                        self.requirement matches RuleRequirement::Features(named) && named@
                            == features@,
                        forall|k: int|
                            0 <= k < i ==> spec_enabled(
                                features_enabled@,
                                (#[trigger] features@[k]).0@,
                            ),
                    decreases features.len() - i,
                {
                    if !contains_text(&features_enabled, features[i].0.as_str()) {
                        assert(!spec_enabled(features_enabled@, features@[i as int].0@));
                        return false;
                    }
                    i = i + 1;
                }
                true
            },
            _ => true,
        }
    }
}

/// Whether `key` is among `texts`.
pub fn contains_text(texts: &Vec<String>, key: &str) -> (found: bool)
    ensures
        found == spec_enabled(texts@, key@),
{
    let mut j: usize = 0;
    while j < texts.len()
        invariant
            j <= texts.len(),
            forall|k: int| 0 <= k < j ==> (#[trigger] texts@[k])@ != key@,
        decreases texts.len() - j,
    {
        if same_text(texts[j].as_str(), key) {
            return true;
        }
        j = j + 1;
    }
    false
}

} // verus!
