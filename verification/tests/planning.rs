use minecraft_rs::game_files::assets::data::{
    is_planned, AssetFile, AssetPlan, AssetResponse, DownloadToFile, PlanStep,
};
use minecraft_rs::game_files::assets::Download;
use minecraft_rs::game_files::release::rule::{Rule, RuleOS, RuleRequirement, RuleType};
use minecraft_rs::game_files::GameFilesAPIBuilder;
use std::borrow::Cow;

fn planning_list(map_to_resources: bool) -> AssetFile {
    AssetFile {
        map_to_resources,
        objects: vec![
            ("icons/a.png".to_string(), AssetResponse { hash: "aa11".to_string(), size: 10 }),
            ("icons/b.png".to_string(), AssetResponse { hash: "bb22".to_string(), size: 20 }),
            ("icons/a-copy.png".to_string(), AssetResponse { hash: "aa11".to_string(), size: 10 }),
            ("sounds/c.ogg".to_string(), AssetResponse { hash: "cc33".to_string(), size: 30 }),
        ],
    }
}

/// Runs the planning where the files at `present` exist; tells the probes and the outcome.
fn planning_drive(
    file: AssetFile,
    builder: &GameFilesAPIBuilder,
    present: &[&str],
) -> (Vec<Vec<String>>, Result<Vec<(String, DownloadToFile)>, url::ParseError>) {
    let mut probes = Vec::new();
    let mut step = file.download();
    loop {
        match step {
            PlanStep::Done(outcome) => return (probes, outcome),
            PlanStep::Probe { plan, location } => {
                let exists = present.contains(&location.join("/").as_str());
                probes.push(location);
                step = plan.on_probe(builder, exists);
            }
        }
    }
}

#[test]
fn every_missing_file_is_planned_once_under_its_hash() {
    let (probes, outcome) = planning_drive(planning_list(false), &GameFilesAPIBuilder::default(), &[]);
    // the second asset of the hash aa11 is passed over without a probe
    assert_eq!(
        probes,
        vec![
            vec!["objects".to_string(), "aa".to_string(), "aa11".to_string()],
            vec!["objects".to_string(), "bb".to_string(), "bb22".to_string()],
            vec!["objects".to_string(), "cc".to_string(), "cc33".to_string()],
        ]
    );
    assert_eq!(
        outcome,
        Ok(vec![
            (
                "aa11".to_string(),
                DownloadToFile {
                    location: vec!["objects".to_string(), "aa".to_string(), "aa11".to_string()],
                    download: Download { url: "https://resources.download.minecraft.net/aa/aa11".to_string(), file_size: 10 },
                }
            ),
            (
                "bb22".to_string(),
                DownloadToFile {
                    location: vec!["objects".to_string(), "bb".to_string(), "bb22".to_string()],
                    download: Download { url: "https://resources.download.minecraft.net/bb/bb22".to_string(), file_size: 20 },
                }
            ),
            (
                "cc33".to_string(),
                DownloadToFile {
                    location: vec!["objects".to_string(), "cc".to_string(), "cc33".to_string()],
                    download: Download { url: "https://resources.download.minecraft.net/cc/cc33".to_string(), file_size: 30 },
                }
            ),
        ])
    );
}

#[test]
fn files_that_exist_are_passed_over() {
    let (probes, outcome) = planning_drive(
        planning_list(false),
        &GameFilesAPIBuilder::default(),
        &["objects/aa/aa11", "objects/cc/cc33"],
    );
    // the file of aa11 exists, so it is not planned, and its second asset is probed as well
    assert_eq!(probes.len(), 4);
    assert_eq!(probes[2], vec!["objects".to_string(), "aa".to_string(), "aa11".to_string()]);
    let planned: Vec<String> = outcome.unwrap().into_iter().map(|(hash, _)| hash).collect();
    assert_eq!(planned, vec!["bb22".to_string()]);
}

#[test]
fn assets_mapped_to_resources_are_put_by_their_names() {
    let (probes, outcome) = planning_drive(planning_list(true), &GameFilesAPIBuilder::default(), &["icons/a.png"]);
    assert_eq!(
        probes,
        vec![
            vec!["icons/a.png".to_string()],
            vec!["icons/b.png".to_string()],
            vec!["icons/a-copy.png".to_string()],
            vec!["sounds/c.ogg".to_string()],
        ]
    );
    let planned = outcome.unwrap();
    let hashes: Vec<&str> = planned.iter().map(|(hash, _)| hash.as_str()).collect();
    assert_eq!(hashes, vec!["bb22", "aa11", "cc33"]);
    assert_eq!(planned[1].1.location, vec!["icons/a-copy.png".to_string()]);
    assert_eq!(planned[1].1.download.url, "https://resources.download.minecraft.net/aa/aa11");
}

#[test]
fn planning_of_no_asset_is_over_at_once() {
    let file = AssetFile { map_to_resources: false, objects: vec![] };
    assert!(matches!(file.download(), PlanStep::Done(Ok(planned)) if planned.is_empty()));
}

#[test]
fn planning_fails_where_the_base_is_no_url() {
    let builder = GameFilesAPIBuilder {
        resource_base: Cow::Borrowed("no scheme"),
        library_base: Cow::Borrowed("https://libraries.minecraft.net"),
        launcher_meta: Cow::Borrowed("https://piston-meta.mojang.com"),
    };
    let (probes, outcome) = planning_drive(planning_list(false), &builder, &[]);
    assert_eq!(probes.len(), 1);
    assert_eq!(outcome, Err(url::ParseError::RelativeUrlWithoutBase));
}

#[test]
fn go_on_resumes_from_where_the_plan_stands() {
    let list = planning_list(false);
    let planned = vec![(
        "bb22".to_string(),
        DownloadToFile { location: vec![], download: Download { url: "u".to_string(), file_size: 1 } },
    )];
    assert!(is_planned(&planned, "bb22"));
    assert!(!is_planned(&planned, "bb2"));
    let plan = AssetPlan { map_to_resources: false, objects: list.objects, next: 1, downloads: planned };
    match plan.go_on() {
        PlanStep::Probe { plan, location } => {
            assert_eq!(plan.next, 2);
            assert_eq!(location, vec!["objects".to_string(), "aa".to_string(), "aa11".to_string()]);
        }
        other => panic!("{other:?}"),
    }
}

#[test]
fn system_properties_are_read_from_and_written_as_entries() {
    assert_eq!(RuleOS::from_entry("name".to_string(), "osx".to_string()), RuleOS::Name("osx".to_string()));
    assert_eq!(RuleOS::from_entry("arch".to_string(), "x86".to_string()), RuleOS::Arch("x86".to_string()));
    assert_eq!(RuleOS::from_entry("version".to_string(), "^10\\.".to_string()), RuleOS::Version("^10\\.".to_string()));
    assert_eq!(
        RuleOS::from_entry("Name".to_string(), "osx".to_string()),
        RuleOS::Other { key: "Name".to_string(), value: "osx".to_string() }
    );
    assert_eq!(RuleOS::Name("osx".to_string()).entry(), ("name", "osx"));
    assert_eq!(RuleOS::Arch("x86".to_string()).entry(), ("arch", "x86"));
    assert_eq!(RuleOS::Version("1".to_string()).entry(), ("version", "1"));
    assert_eq!(RuleOS::Other { key: "k".to_string(), value: "v".to_string() }.entry(), ("k", "v"));
}

#[test]
fn a_rule_needs_its_action_and_defaults_its_requirement() {
    assert_eq!(Rule::from_parts(None, Some(RuleRequirement::Default)), None);
    assert_eq!(
        Rule::from_parts(Some(RuleType::Disallow), None),
        Some(Rule { action: RuleType::Disallow, requirement: RuleRequirement::Default })
    );
    let features = RuleRequirement::Features(vec![("is_demo_user".to_string(), true)]);
    assert_eq!(
        Rule::from_parts(Some(RuleType::Allow), Some(features.clone())),
        Some(Rule { action: RuleType::Allow, requirement: features })
    );
}
