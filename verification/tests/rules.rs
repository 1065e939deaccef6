use minecraft_rs::game_files::release::argument::{
    from_single, string_or_array, Argument, RuledArgument, StringOrArray,
};
use minecraft_rs::game_files::release::data::{
    AssetIndex, Download, Downloads, JavaVersion, ReleaseData,
};
use minecraft_rs::game_files::release::library::{Library, LibraryDownloads};
use minecraft_rs::game_files::release::rule::{
    contains_text, Rule, RuleOS, RuleRequirement, RuleType,
};
use minecraft_rs::game_files::version_type::VersionType;
use minecraft_rs::authentication::utils::time::Timestamp;

fn rule_os(action: RuleType, properties: Vec<RuleOS>) -> Rule {
    Rule { action, requirement: RuleRequirement::OS(properties) }
}

#[test]
fn a_rule_without_a_requirement_on_the_system_is_met() {
    let rule = Rule { action: RuleType::Allow, requirement: RuleRequirement::Default };
    assert!(rule.should_do_os("linux", "x86_64", None));
    let rule = Rule { action: RuleType::Disallow, requirement: RuleRequirement::Features(vec![("is_demo_user".to_string(), true)]) };
    assert!(rule.should_do_os("linux", "x86_64", Some("5.0".to_string())));
}

#[test]
fn a_rule_on_the_system_needs_name_and_architecture() {
    let both = rule_os(RuleType::Allow, vec![RuleOS::Name("osx".to_string()), RuleOS::Arch("x86".to_string())]);
    assert!(both.should_do_os("osx", "x86", None));
    assert!(!both.should_do_os("linux", "x86", None));
    assert!(!both.should_do_os("osx", "arm64", None));
    // a missing name or a missing architecture is never met
    let name_only = rule_os(RuleType::Allow, vec![RuleOS::Name("osx".to_string())]);
    assert!(!name_only.should_do_os("osx", "x86", None));
    let arch_only = rule_os(RuleType::Allow, vec![RuleOS::Arch("x86".to_string())]);
    assert!(!arch_only.should_do_os("osx", "x86", None));
    assert!(!rule_os(RuleType::Allow, vec![]).should_do_os("osx", "x86", None));
}

#[test]
fn a_version_is_compared_only_where_one_is_given() {
    let rule = rule_os(
        RuleType::Allow,
        vec![
            RuleOS::Name("windows".to_string()),
            RuleOS::Arch("x86".to_string()),
            RuleOS::Version("^10\\.".to_string()),
            RuleOS::Other { key: "flavor".to_string(), value: "any".to_string() },
        ],
    );
    assert!(rule.should_do_os("windows", "x86", None));
    assert!(rule.should_do_os("windows", "x86", Some("^10\\.".to_string())));
    assert!(!rule.should_do_os("windows", "x86", Some("10.0".to_string())));
}

#[test]
fn the_last_property_of_a_kind_decides() {
    let rule = rule_os(
        RuleType::Allow,
        vec![
            RuleOS::Name("osx".to_string()),
            RuleOS::Arch("x86".to_string()),
            RuleOS::Name("linux".to_string()),
        ],
    );
    assert!(rule.should_do_os("linux", "x86", None));
    assert!(!rule.should_do_os("osx", "x86", None));
}

#[test]
fn a_rule_on_features_needs_every_named_feature() {
    let rule = Rule {
        action: RuleType::Allow,
        requirement: RuleRequirement::Features(vec![
            ("is_demo_user".to_string(), true),
            ("has_custom_resolution".to_string(), false),
        ]),
    };
    assert!(rule.should_do_feature(vec!["has_custom_resolution".to_string(), "x".to_string(), "is_demo_user".to_string()]));
    assert!(!rule.should_do_feature(vec!["is_demo_user".to_string()]));
    assert!(!rule.should_do_feature(vec![]));
    let none = Rule { action: RuleType::Allow, requirement: RuleRequirement::Features(vec![]) };
    assert!(none.should_do_feature(vec![]));
    assert!(rule_os(RuleType::Allow, vec![]).should_do_feature(vec![]));
}

#[test]
fn should_do_needs_both() {
    let features = Rule { action: RuleType::Allow, requirement: RuleRequirement::Features(vec![("f".to_string(), true)]) };
    assert!(features.should_do("linux", "x86", None, vec!["f".to_string()]));
    assert!(!features.should_do("linux", "x86", None, vec![]));
    let system = rule_os(RuleType::Allow, vec![RuleOS::Name("linux".to_string()), RuleOS::Arch("x86".to_string())]);
    assert!(system.should_do("linux", "x86", None, vec![]));
    assert!(!system.should_do("osx", "x86", None, vec!["f".to_string()]));
}

#[test]
fn contains_text_finds_equal_texts() {
    let texts = vec!["a".to_string(), "bc".to_string()];
    assert!(contains_text(&texts, "bc"));
    assert!(!contains_text(&texts, "b"));
    assert!(!contains_text(&Vec::new(), ""));
}

fn rules_library(name: &str, rules: Option<Vec<Rule>>) -> Library {
    Library {
        downloads: LibraryDownloads { artifact: None, classifiers: vec![] },
        name: name.to_string(),
        rules,
        extract: None,
        natives: None,
    }
}

fn rules_release(libraries: Vec<Library>, server: Option<Download>, mappings: (Option<Download>, Option<Download>)) -> ReleaseData {
    let file = Download { sha1: "s".to_string(), size: 1, url: "https://example.org/client.jar".to_string() };
    ReleaseData {
        downloads: Downloads { client: file, server, server_mapping: mappings.0, client_mapping: mappings.1 },
        arguments: None,
        logging: vec![],
        libraries,
        asset_index: AssetIndex { id: "5".to_string(), sha1: "s".to_string(), size: 1, total_size: None, url: "u".to_string() },
        assets: "5".to_string(),
        minimum_launcher_version: 21,
        release_type: VersionType::Release,
        id: "1.20.6".to_string(),
        release_time: Timestamp::new(0, 0),
        time: Timestamp::new(0, 0),
        compliance_level: 1,
        main_class: "net.minecraft.client.main.Main".to_string(),
        java_version: JavaVersion { component: "java-runtime-delta".to_string(), major_version: 21 },
    }
}

#[test]
fn libraries_to_download_follow_the_allowing_rules() {
    let osx = vec![RuleOS::Name("osx".to_string()), RuleOS::Arch("x86".to_string())];
    let linux = vec![RuleOS::Name("linux".to_string()), RuleOS::Arch("x86".to_string())];
    let release = rules_release(
        vec![
            rules_library("always", None),
            rules_library("osx-only", Some(vec![rule_os(RuleType::Allow, osx.clone())])),
            rules_library("linux-only", Some(vec![rule_os(RuleType::Allow, linux.clone())])),
            rules_library("twice", Some(vec![rule_os(RuleType::Allow, linux.clone()), rule_os(RuleType::Allow, linux.clone())])),
            rules_library("no-rule", Some(vec![])),
            rules_library("disallowed-only", Some(vec![rule_os(RuleType::Disallow, osx.clone())])),
            rules_library("allowed-then-disallowed", Some(vec![rule_os(RuleType::Allow, linux.clone()), rule_os(RuleType::Disallow, linux)])),
            rules_library("allowed-by-default", Some(vec![Rule { action: RuleType::Allow, requirement: RuleRequirement::Default }])),
        ],
        None,
        (None, None),
    );
    let names: Vec<&str> = release
        .get_libraries_to_download("linux".to_string(), "x86".to_string(), None)
        .iter()
        .map(|library| library.name.as_str())
        .collect();
    assert_eq!(names, vec!["always", "linux-only", "twice", "twice", "allowed-then-disallowed", "allowed-by-default"]);
    let names: Vec<&str> = release
        .get_libraries_to_download("osx".to_string(), "x86".to_string(), Some("10".to_string()))
        .iter()
        .map(|library| library.name.as_str())
        .collect();
    assert_eq!(names, vec!["always", "osx-only", "allowed-by-default"]);
}

#[test]
fn release_tells_what_it_comes_with() {
    let file = Download { sha1: "s".to_string(), size: 1, url: "u".to_string() };
    let bare = rules_release(vec![], None, (None, None));
    assert!(!bare.has_server());
    assert!(!bare.has_mappings());
    let server = rules_release(vec![], Some(file.clone()), (Some(file.clone()), None));
    assert!(server.has_server());
    assert!(!server.has_mappings());
    let mapped = rules_release(vec![], None, (Some(file.clone()), Some(file)));
    assert!(!mapped.has_server());
    assert!(mapped.has_mappings());
}

#[test]
fn arguments_are_made_from_texts_and_ruled_values() {
    assert_eq!(Argument::from("--demo"), Argument::Simple("--demo".to_string()));
    assert_eq!(Argument::from("--demo".to_string()), Argument::Simple("--demo".to_string()));
    let ruled = RuledArgument { value: vec!["--width".to_string()], rules: vec![] };
    assert_eq!(Argument::from(ruled.clone()), Argument::RuledArgument(ruled));
}

#[test]
fn values_are_written_as_nothing_a_string_or_an_array() {
    let none: Vec<String> = vec![];
    assert!(matches!(string_or_array(&none), StringOrArray::Nothing));
    let one = vec!["a".to_string()];
    assert!(matches!(string_or_array(&one), StringOrArray::Single(text) if text == "a"));
    let two = vec!["a".to_string(), "b".to_string()];
    assert!(matches!(string_or_array(&two), StringOrArray::Array(texts) if texts.len() == 2));
    assert_eq!(from_single("x"), vec!["x".to_string()]);
}
