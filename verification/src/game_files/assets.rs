//! The assets of a release: where each is fetched from, and where it is put.
pub mod asset_download;
pub mod data;

use crate::game_files::assets::asset_download::AssetDownload;
use crate::game_files::assets::data::AssetResponse;
use crate::game_files::{spec_parsed_url, GameFilesAPIBuilder};
use vstd::prelude::*;
use vstd::string::*;
use vstd::utf8::encode_utf8;

verus! {

/// An asset: its name, and what the list of assets says of it.
#[derive(Debug, Clone, PartialEq, Eq)]
pub struct Asset {
    pub data: AssetResponse,
    pub name: String,
}

/// Where a file is fetched from, and how large it is.
#[derive(Debug, Clone, PartialEq, Eq)]
pub struct Download {
    /// The URL of the file.
    pub url: String,
    /// The size of the file, in bytes.
    pub file_size: usize,
}

/// The directory under which the assets are kept by their hashes.
pub const OBJECTS_DIRECTORY: &'static str = "objects";

/// The directory of an asset below the base of the assets and below
/// [`OBJECTS_DIRECTORY`]: the first two characters of its hash. A hash of
/// fewer than two bytes has none; one of a single character that takes two
/// bytes or more has that character.
pub open spec fn spec_content_hash(hash: Seq<char>) -> Seq<char> {
    if encode_utf8(hash).len() < 2 {
        Seq::empty()
    } else if hash.len() < 2 {
        hash
    } else {
        hash.take(2)
    }
}

/// The path of an asset below the base of the assets: its directory, `/`, its
/// hash.
pub open spec fn spec_resource_path(hash: Seq<char>) -> Seq<char> {
    spec_content_hash(hash) + seq!['/'] + hash
}

/// The parts of the path of an asset's file below the directory of the
/// assets, outermost first.
pub open spec fn spec_file_path(
    name: Seq<char>,
    pre_hash: (Seq<char>, Seq<char>),
    map_to_resources: bool,
) -> Seq<Seq<char>> {
    if map_to_resources {
        seq![name]
    } else {
        seq![OBJECTS_DIRECTORY@, pre_hash.0, pre_hash.1]
    }
}

/// The texts of `parts`.
pub open spec fn spec_texts(parts: Seq<String>) -> Seq<Seq<char>> {
    Seq::new(parts.len(), |i: int| parts[i]@)
}

/// The directory of an asset: see [`spec_content_hash`].
pub fn content_hash(hash: &str) -> (sub: &str)
    ensures
        sub@ == spec_content_hash(hash@),
{
    if hash.as_bytes().len() < 2 {
        proof {
            reveal_strlit("");
            assert(""@ =~= Seq::<char>::empty());
        }
        return "";
    }
    let chars = hash.unicode_len();
    if chars < 2 {
        let sub = hash.substring_char(0, chars);
        assert(sub@ =~= hash@);
        sub
    } else {
        hash.substring_char(0, 2)
    }
}

/// The parts of the path of an asset's file below the directory of the
/// assets, outermost first. Where the release maps its assets to resources,
/// the file goes by the asset's name. Otherwise it goes by its hash:
/// `pre_hash` is the directory of the hash and the hash, and the file stands
/// below [`OBJECTS_DIRECTORY`].
pub fn file_path(name: &str, pre_hash: (&str, &str), map_to_resources: bool) -> (parts: Vec<
    String,
>)
    ensures
        spec_texts(parts@) == spec_file_path(name@, (pre_hash.0@, pre_hash.1@), map_to_resources),
{
    let mut parts: Vec<String> = Vec::new();
    if map_to_resources {
        parts.push(String::from_str(name));
        assert(spec_texts(parts@) =~= seq![name@]);
    } else {
        parts.push(String::from_str(OBJECTS_DIRECTORY));
        parts.push(String::from_str(pre_hash.0));
        parts.push(String::from_str(pre_hash.1));
        assert(spec_texts(parts@) =~= seq![OBJECTS_DIRECTORY@, pre_hash.0@, pre_hash.1@]);
    }
    parts
}

/// The path of an asset below the base of the assets: see
/// [`spec_resource_path`].
pub fn resource_path(hash: &str) -> (path: String)
    ensures
        path@ == spec_resource_path(hash@),
{
    let path = String::from_str(content_hash(hash)).concat("/").concat(hash);
    proof {
        reveal_strlit("/");
        assert("/"@ =~= seq!['/']);
    }
    path
}

impl Asset {
    /// Where the asset is fetched from and how large it is: the URL of its
    /// path below the base of the assets, and the size that the list of
    /// assets gives. The error where that URL is none.
    pub fn download<'a>(&'a self, game_files: &GameFilesAPIBuilder) -> (download: Result<
        AssetDownload<'a, Download>,
        url::ParseError,
    >)
        ensures
            match download {
                Ok(found) => {
                    &&& *found.asset == *self
                    &&& found.download.file_size == self.data.size
                    &&& spec_parsed_url(
                        game_files.resource_base@ + seq!['/'] + spec_resource_path(self.data.hash@),
                    ) == Some(found.download.url@)
                },
                Err(_) => spec_parsed_url(
                    game_files.resource_base@ + seq!['/'] + spec_resource_path(self.data.hash@),
                ) is None,
            },
    {
        let path = resource_path(self.data.hash.as_str());
        match game_files.create_resource_url(path.as_str()) {
            Ok(url) => Ok(
                AssetDownload {
                    asset: self,
                    download: Download { url, file_size: self.data.size as usize },
                },
            ),
            Err(error) => Err(error),
        }
    }
}

} // verus!
