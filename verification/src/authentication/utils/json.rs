//! Texts written as JSON strings.
use crate::authentication::error::{InternalError, JsonFault};
use vstd::prelude::*;

verus! {

/// `serde_json::Error`: why a value was not written. It is carried as it
/// comes.
#[verifier::external_type_specification]
#[verifier::external_body]
pub struct ExJsonError(serde_json::Error);

/// What `serde_json::to_string` writes for a text: the JSON string that holds
/// it, quotes included, or `None` where it returns an error.
pub uninterp spec fn spec_json_string(text: Seq<char>) -> Option<Seq<char>>;

/// `serde_json::to_string` on a string slice. What it returns is a function
/// of the text: the text between double quotes, with the characters that JSON
/// does not take as they are written as escapes.
#[verifier::external_body]
fn to_json_string(text: &str) -> (written: Result<String, serde_json::Error>)
    ensures
        match written {
            Ok(literal) => spec_json_string(text@) == Some(literal@),
            Err(_) => spec_json_string(text@) is None,
        },
{
    serde_json::to_string(text)
}

/// `text` as a JSON string, quotes included; `Unencodable` where the encoder
/// fails.
pub fn quote(text: &str) -> (quoted: Result<String, InternalError>)
    ensures
        match quoted {
            Ok(literal) => spec_json_string(text@) == Some(literal@),
            Err(error) => spec_json_string(text@) is None && error == InternalError::JSONError(
                JsonFault::Unencodable,
            ),
        },
{
    match to_json_string(text) {
        Ok(literal) => Ok(literal),
        Err(_) => Err(InternalError::JSONError(JsonFault::Unencodable)),
    }
}

} // verus!
