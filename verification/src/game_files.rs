//! The game's files: where they are served from, and what the manifests say
//! of them.
pub mod assets;
pub mod release;
pub mod version_manifest;
pub mod version_type;

use std::borrow::Cow;
use vstd::prelude::*;
use vstd::string::*;

verus! {

pub const RESOURCE_URL_BASE: &'static str = "https://resources.download.minecraft.net";

pub const LIBRARY_URL_BASE: &'static str = "https://libraries.minecraft.net";

pub const LAUNCHER_META_URL_BASE: &'static str = "https://piston-meta.mojang.com";

/// The path of the list of all versions, below the launcher's base.
pub const VERSION_MANIFEST_PATH: &'static str = "mc/game/version_manifest_v2.json";

/// Where the game's files are served from.
#[derive(Debug)]
pub struct GameFilesAPIBuilder {
    /// The base of the assets.
    pub resource_base: Cow<'static, str>,
    /// The base of the libraries.
    pub library_base: Cow<'static, str>,
    /// The base of the manifests.
    pub launcher_meta: Cow<'static, str>,
}

/// A copy of a borrowed or owned string.
fn copy_of(value: &Cow<'static, str>) -> (copy: Cow<'static, str>)
    ensures
        copy@ == value@,
{
    match value {
        Cow::Borrowed(borrowed) => Cow::Borrowed(borrowed),
        Cow::Owned(owned) => Cow::Owned(owned.clone()),
    }
}

impl Clone for GameFilesAPIBuilder {
    fn clone(&self) -> (copy: Self)
        ensures
            copy.resource_base@ == self.resource_base@,
            copy.library_base@ == self.library_base@,
            copy.launcher_meta@ == self.launcher_meta@,
    {
        GameFilesAPIBuilder {
            resource_base: copy_of(&self.resource_base),
            library_base: copy_of(&self.library_base),
            launcher_meta: copy_of(&self.launcher_meta),
        }
    }
}

impl Default for GameFilesAPIBuilder {
    fn default() -> (builder: Self)
        ensures
            builder.resource_base@ == RESOURCE_URL_BASE@,
            builder.library_base@ == LIBRARY_URL_BASE@,
            builder.launcher_meta@ == LAUNCHER_META_URL_BASE@,
    {
        GameFilesAPIBuilder {
            resource_base: Cow::Borrowed(RESOURCE_URL_BASE),
            library_base: Cow::Borrowed(LIBRARY_URL_BASE),
            launcher_meta: Cow::Borrowed(LAUNCHER_META_URL_BASE),
        }
    }
}

/// What `url::Url::parse` makes of a text: the text of the URL that it
/// returns, or `None` where it returns an error.
pub uninterp spec fn spec_parsed_url(text: Seq<char>) -> Option<Seq<char>>;

/// `url::Url::parse` on `text`, with the URL that it returns written out as
/// text. The call is a function of the text: it parses it as an absolute URL,
/// and writes the URL in its normal form.
#[verifier::external_body]
pub(crate) fn parse_url(text: &str) -> (parsed: Result<String, url::ParseError>)
    ensures
        match parsed {
            Ok(url) => spec_parsed_url(text@) == Some(url@),
            Err(_) => spec_parsed_url(text@) is None,
        },
{
    url::Url::parse(text).map(String::from)
}

/// The text that a borrowed or owned string holds.
pub fn text_of<'a>(value: &'a Cow<'a, str>) -> (text: &'a str)
    ensures
        text@ == value@,
{
    match value {
        Cow::Borrowed(borrowed) => borrowed,
        Cow::Owned(owned) => owned.as_str(),
    }
}

/// The URL of `path` below `base`: base, `/`, path, parsed as an absolute
/// URL; the error where that is none.
pub fn url_below(base: &str, path: &str) -> (url: Result<String, url::ParseError>)
    ensures
        match url {
            Ok(text) => spec_parsed_url(base@ + seq!['/'] + path@) == Some(text@),
            Err(_) => spec_parsed_url(base@ + seq!['/'] + path@) is None,
        },
{
    let joined = String::from_str(base).concat("/").concat(path);
    proof {
        reveal_strlit("/");
        assert("/"@ =~= seq!['/']);
    }
    parse_url(joined.as_str())
}

impl GameFilesAPIBuilder {
    /// The URL of the asset at `s`, below the base of the assets.
    pub fn create_resource_url(&self, s: &str) -> (url: Result<String, url::ParseError>)
        ensures
            match url {
                Ok(text) => spec_parsed_url(self.resource_base@ + seq!['/'] + s@) == Some(text@),
                Err(_) => spec_parsed_url(self.resource_base@ + seq!['/'] + s@) is None,
            },
    {
        url_below(text_of(&self.resource_base), s)
    }

    /// The URL of the library at `s`, below the base of the libraries.
    pub fn create_library_url(&self, s: &str) -> (url: Result<String, url::ParseError>)
        ensures
            match url {
                Ok(text) => spec_parsed_url(self.library_base@ + seq!['/'] + s@) == Some(text@),
                Err(_) => spec_parsed_url(self.library_base@ + seq!['/'] + s@) is None,
            },
    {
        url_below(text_of(&self.library_base), s)
    }

    /// The URL of the manifest at `s`, below the base of the manifests.
    pub fn create_launcher_url(&self, s: &str) -> (url: Result<String, url::ParseError>)
        ensures
            match url {
                Ok(text) => spec_parsed_url(self.launcher_meta@ + seq!['/'] + s@) == Some(text@),
                Err(_) => spec_parsed_url(self.launcher_meta@ + seq!['/'] + s@) is None,
            },
    {
        url_below(text_of(&self.launcher_meta), s)
    }
}

} // verus!
