use minecraft_rs::authentication::utils::time::Timestamp;
use minecraft_rs::game_files::version_manifest::{Latest, Version, VersionManifest};
use minecraft_rs::game_files::version_type::VersionType;
use minecraft_rs::game_files::{
    text_of, url_below, GameFilesAPIBuilder, LAUNCHER_META_URL_BASE, LIBRARY_URL_BASE,
    RESOURCE_URL_BASE,
};
use std::borrow::Cow;

fn versions_entry(id: &str, release_type: VersionType, url: &str) -> Version {
    Version {
        release_type,
        url: url.to_string(),
        id: id.to_string(),
        release_time: Timestamp::new(1_700_000_000, 0),
        time: Timestamp::new(1_700_000_100, 0),
        sha1: "0123".to_string(),
        compliance_level: 1,
    }
}

fn versions_list() -> VersionManifest {
    VersionManifest {
        latest: Latest { release: "1.20.6".to_string(), snapshot: "24w14a".to_string() },
        versions: vec![
            versions_entry("24w14a", VersionType::Snapshot, "https://piston-meta.mojang.com/v1/packages/a/24w14a.json"),
            versions_entry("1.20.6", VersionType::Release, "https://piston-meta.mojang.com/v1/packages/b/1.20.6.json"),
            versions_entry("1.20.6", VersionType::OldBeta, "https://example.org/second"),
            versions_entry("b1.8", VersionType::OldBeta, "not a url"),
        ],
    }
}

#[test]
fn get_version_finds_the_first_of_that_name() {
    let list = versions_list();
    let found = list.get_version("1.20.6").expect("Could not find version 1.20.6");
    assert_eq!(found.release_type, VersionType::Release);
    assert_eq!(found.url, "https://piston-meta.mojang.com/v1/packages/b/1.20.6.json");
    assert!(list.get_version("1.20").is_none());
    assert!(list.get_version("").is_none());
}

#[test]
fn latest_versions_are_looked_up_by_name() {
    let list = versions_list();
    assert_eq!(list.get_latest_snapshot().id, "24w14a");
    assert_eq!(list.get_latest_snapshot().release_type, VersionType::Snapshot);
    assert_eq!(list.get_latest_release().id, "1.20.6");
    assert_eq!(list.get_latest_release().release_type, VersionType::Release);
}

#[test]
fn get_release_parses_the_url_of_the_version() {
    let list = versions_list();
    assert_eq!(
        list.versions[0].get_release(),
        Ok("https://piston-meta.mojang.com/v1/packages/a/24w14a.json".to_string())
    );
    assert_eq!(list.versions[3].get_release(), Err(url::ParseError::RelativeUrlWithoutBase));
}

#[test]
fn version_types_are_written_as_in_the_manifests() {
    assert_eq!(VersionType::Snapshot.to_string(), "snapshot");
    assert_eq!(VersionType::Release.to_string(), "release");
    assert_eq!(VersionType::OldBeta.to_string(), "old_beta");
    assert_eq!(VersionType::OldAlpha.to_string(), "old_alpha");
}

#[test]
fn default_bases_are_the_public_ones() {
    let builder = GameFilesAPIBuilder::default();
    assert_eq!(builder.resource_base, RESOURCE_URL_BASE);
    assert_eq!(builder.library_base, LIBRARY_URL_BASE);
    assert_eq!(builder.launcher_meta, LAUNCHER_META_URL_BASE);
    let copy = builder.clone();
    assert_eq!(copy.resource_base, "https://resources.download.minecraft.net");
    assert_eq!(copy.library_base, "https://libraries.minecraft.net");
    assert_eq!(copy.launcher_meta, "https://piston-meta.mojang.com");
}

#[test]
fn urls_are_made_below_the_bases() {
    let builder = GameFilesAPIBuilder::default();
    assert_eq!(
        builder.create_resource_url("bd/bdf48ef6b5d0d23bbb02e17d04865216179f510a"),
        Ok("https://resources.download.minecraft.net/bd/bdf48ef6b5d0d23bbb02e17d04865216179f510a".to_string())
    );
    assert_eq!(
        builder.create_library_url("com/mojang/logging/1.2.7/logging-1.2.7.jar"),
        Ok("https://libraries.minecraft.net/com/mojang/logging/1.2.7/logging-1.2.7.jar".to_string())
    );
    assert_eq!(
        builder.create_launcher_url("mc/game/version_manifest_v2.json"),
        Ok("https://piston-meta.mojang.com/mc/game/version_manifest_v2.json".to_string())
    );
}

#[test]
fn urls_below_other_bases() {
    let builder = GameFilesAPIBuilder {
        resource_base: Cow::Owned("http://localhost:8080/assets".to_string()),
        library_base: Cow::Borrowed("no scheme"),
        launcher_meta: Cow::Borrowed("HTTPS://Example.ORG"),
    };
    assert_eq!(builder.create_resource_url("a b"), Ok("http://localhost:8080/assets/a%20b".to_string()));
    assert_eq!(builder.create_library_url("x"), Err(url::ParseError::RelativeUrlWithoutBase));
    assert_eq!(builder.create_launcher_url("x/../y"), Ok("https://example.org/y".to_string()));
    assert_eq!(text_of(&builder.resource_base), "http://localhost:8080/assets");
    assert_eq!(url_below("https://example.org", "p"), Ok("https://example.org/p".to_string()));
}
