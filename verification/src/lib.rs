//! Acquiring and keeping fresh a game-session credential through a chain of
//! three identity providers, together with the rules that read the game's
//! release and asset manifests.
//!
//! Nothing here performs I/O. Every network call is described by a
//! [`authentication::transport::HttpRequest`] that the caller sends, and its
//! answer comes back as an [`authentication::transport::HttpReply`].
pub mod authentication;
pub mod game_files;
pub mod profile;
pub mod text;

use crate::game_files::{spec_parsed_url, GameFilesAPIBuilder, VERSION_MANIFEST_PATH};
use crate::profile::{spec_uuid_text, PROFILE_BY_ID_URL, PROFILE_BY_NAME_URL};
use vstd::prelude::*;

verus! {

/// The settings with which the game's files and the profiles of players are
/// asked for.
#[derive(Clone, Debug)]
pub struct APIClient {
    pub game_files: GameFilesAPIBuilder,
}

impl APIClient {
    /// A client that asks for the game's files below the bases of
    /// `game_files`.
    pub fn new(game_files: GameFilesAPIBuilder) -> (client: Self)
        ensures
            client.game_files == game_files,
    {
        APIClient { game_files }
    }

    /// The URL from which the list of all versions is fetched.
    pub fn version_manifest(&self) -> (url: Result<String, url::ParseError>)
        ensures
            match url {
                Ok(text) => spec_parsed_url(
                    self.game_files.launcher_meta@ + seq!['/'] + VERSION_MANIFEST_PATH@,
                ) == Some(text@),
                Err(_) => spec_parsed_url(
                    self.game_files.launcher_meta@ + seq!['/'] + VERSION_MANIFEST_PATH@,
                ) is None,
            },
    {
        self.game_files.create_launcher_url(VERSION_MANIFEST_PATH)
    }

    /// The URL at which the id of the player named `name` is asked for.
    pub fn get_uuid_by_username(&self, name: &str) -> (url: String)
        ensures
            url@ == PROFILE_BY_NAME_URL@ + name@,
    {
        crate::profile::profile_by_name_url(name)
    }

    /// The URL at which the profile of the player with the id `id` is asked
    /// for.
    pub fn get_profile_by_id(&self, id: u128) -> (url: String)
        ensures
            url@ == PROFILE_BY_ID_URL@ + spec_uuid_text(id),
    {
        crate::profile::profile_by_id_url(id)
    }
}

} // verus!
