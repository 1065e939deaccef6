//! The public part of a profile: the player's textures.
use crate::text::same_text;
use vstd::prelude::*;
use vstd::utf8::{encode_utf8, valid_utf8};

verus! {

/// `base64::DecodeError`: why a text is not base64. It is carried as it
/// comes.
#[verifier::external_type_specification]
#[verifier::external_body]
pub struct ExDecodeError(base64::DecodeError);

/// `core::str::Utf8Error`: why bytes are not UTF-8. It is carried as it
/// comes.
#[verifier::external_type_specification]
#[verifier::external_body]
pub struct ExUtf8Error(core::str::Utf8Error);

/// The shape of a player's model.
#[derive(Debug, Clone, Copy, PartialEq, Eq, Structural)]
pub enum Model {
    Slim,
    Normal,
}

/// The name under which a texture asks for the slim model.
pub const SLIM_MODEL: &'static str = "slim";

impl Model {
    /// The model that a texture names: the slim one for `slim`, the normal
    /// one for every other name.
    pub fn from_name(name: &str) -> (model: Model)
        ensures
            model == if name@ == SLIM_MODEL@ {
                Model::Slim
            } else {
                Model::Normal
            },
    {
        if same_text(name, SLIM_MODEL) {
            Model::Slim
        } else {
            Model::Normal
        }
    }
}

/// What a texture says beyond its URL.
#[derive(Debug, Clone, Copy)]
pub struct GameProfileTextureMetadata {
    pub model: Model,
}

impl GameProfileTextureMetadata {
    /// Whether the texture is for the slim model.
    pub fn is_slim(&self) -> (slim: bool)
        ensures
            slim == (self.model == Model::Slim),
    {
        self.model == Model::Slim
    }
}

/// A texture of a player.
#[derive(Debug, Clone)]
pub struct GameProfileTexture {
    pub url: String,
    pub metadata: Option<GameProfileTextureMetadata>,
}

impl GameProfileTexture {
    /// Whether the texture is for the slim model. A texture that says
    /// nothing of its model is not.
    pub fn is_slim(&self) -> (slim: bool)
        ensures
            slim == (self.metadata matches Some(metadata) && metadata.model == Model::Slim),
    {
        match &self.metadata {
            Some(metadata) => metadata.is_slim(),
            None => false,
        }
    }

    /// Where the texture is fetched from.
    pub fn url(&self) -> (url: &str)
        ensures
            url@ == self.url@,
    {
        self.url.as_str()
    }
}

/// Why the textures of a profile could not be read.
#[derive(Debug)]
pub enum ProfileError {
    /// The property is not base64.
    Base64(base64::DecodeError),
    /// The bytes behind the base64 are not UTF-8.
    UTF8Error(core::str::Utf8Error),
}

/// The textures of a player.
#[derive(Debug, Clone)]
pub struct GameProfileTextures {
    pub skin: GameProfileTexture,
    pub cape: Option<GameProfileTexture>,
}

/// A player's profile.
#[derive(Debug, Clone)]
pub struct GameProfile {
    pub id: u128,
    pub name: String,
    pub textures: GameProfileTextures,
}

/// What the standard base64 engine of the `base64` crate decodes `input` to;
/// `None` where it returns an error.
pub uninterp spec fn spec_base64_decoded(input: Seq<u8>) -> Option<Seq<u8>>;

/// `decode` of `base64::engine::general_purpose::STANDARD`: the bytes that
/// the input stands for in the standard alphabet, with padding. It is a
/// function of the input.
#[verifier::external_body]
fn base64_decode(input: &[u8]) -> (decoded: Result<Vec<u8>, base64::DecodeError>)
    ensures
        match decoded {
            Ok(bytes) => spec_base64_decoded(input@) == Some(bytes@),
            Err(_) => spec_base64_decoded(input@) is None,
        },
{
    base64::Engine::decode(&base64::engine::general_purpose::STANDARD, input)
}

/// `std::str::from_utf8`: the bytes as a string slice where they are valid
/// UTF-8, and an error where they are not.
#[verifier::external_body]
fn from_utf8(bytes: &[u8]) -> (text: Result<&str, core::str::Utf8Error>)
    ensures
        match text {
            Ok(read) => valid_utf8(bytes@) && encode_utf8(read@) == bytes@,
            Err(_) => !valid_utf8(bytes@),
        },
{
    core::str::from_utf8(bytes)
}

/// The text that `bytes` hold as UTF-8; `UTF8Error` where they are not valid
/// UTF-8.
pub fn decoded_text(bytes: &[u8]) -> (text: Result<String, ProfileError>)
    ensures
        match text {
            Ok(read) => valid_utf8(bytes@) && encode_utf8(read@) == bytes@,
            Err(error) => !valid_utf8(bytes@) && error is UTF8Error,
        },
{
    match from_utf8(bytes) {
        Ok(read) => Ok(read.to_owned()),
        Err(error) => Err(ProfileError::UTF8Error(error)),
    }
}

/// The JSON of a player's textures, out of the `textures` property of a
/// profile: the property is base64, and the bytes behind it are the JSON as
/// UTF-8. A property that is not base64 is a `Base64` error, and bytes that
/// are not UTF-8 are a `UTF8Error`.
pub fn textures_json(value: &[u8]) -> (json: Result<String, ProfileError>)
    ensures
        match spec_base64_decoded(value@) {
            None => json matches Err(error) && error is Base64,
            Some(bytes) => match json {
                Ok(read) => valid_utf8(bytes) && encode_utf8(read@) == bytes,
                Err(error) => !valid_utf8(bytes) && error is UTF8Error,
            },
        },
{
    match base64_decode(value) {
        Ok(bytes) => decoded_text(bytes.as_slice()),
        Err(error) => Err(ProfileError::Base64(error)),
    }
}

} // verus!
