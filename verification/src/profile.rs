//! The profiles of players: where they are asked for, and what their
//! textures say.
pub mod public;

use vstd::prelude::*;
use vstd::string::*;

verus! {

/// Where a player's id is asked for by name: the name is appended.
pub const PROFILE_BY_NAME_URL: &'static str = "https://api.mojang.com/users/profiles/minecraft/";

/// Where a player's profile is asked for by id: the id is appended.
pub const PROFILE_BY_ID_URL: &'static str =
    "https://sessionserver.mojang.com/session/minecraft/profile/";

/// The hexadecimal digits, in lower case.
pub const HEX_DIGITS: &'static str = "0123456789abcdef";

/// The hexadecimal digit of `id` at `place`, where the place 0 is the most
/// significant of the 32.
pub open spec fn spec_uuid_digit(id: u128, place: int) -> char {
    HEX_DIGITS@[((id >> (((31 - place) * 4) as u128)) & 0xf) as int]
}

/// Whether a hyphen stands before the digit at `place`: the digits stand in
/// groups of eight, four, four, four and twelve.
pub open spec fn spec_group_starts(place: int) -> bool {
    place == 8 || place == 12 || place == 16 || place == 20
}

/// The text of the first `places` digits of `id`, with the hyphens between
/// their groups.
pub open spec fn spec_uuid_digits(id: u128, places: nat) -> Seq<char>
    decreases places,
{
    if places == 0 {
        Seq::empty()
    } else {
        let before = spec_uuid_digits(id, (places - 1) as nat);
        let digit = seq![spec_uuid_digit(id, places - 1)];
        if spec_group_starts(places - 1) {
            before + seq!['-'] + digit
        } else {
            before + digit
        }
    }
}

/// The text of the id with the 128-bit value `id`: its 32 hexadecimal
/// digits, in lower case and the most significant first, in five groups with
/// hyphens between them.
pub open spec fn spec_uuid_text(id: u128) -> Seq<char> {
    spec_uuid_digits(id, 32)
}

/// The text of the id with the 128-bit value `id`: see [`spec_uuid_text`].
pub fn uuid_text(id: u128) -> (text: String)
    ensures
        text@ == spec_uuid_text(id),
{
    let mut text = String::new();
    let mut place: u32 = 0;
    proof {
        reveal_strlit("0123456789abcdef");
    }
    while place < 32
        invariant
            place <= 32,
            text@ == spec_uuid_digits(id, place as nat),
            HEX_DIGITS@.len() == 16,
            HEX_DIGITS.is_ascii(),
        decreases 32 - place,
    {
        let ghost before = text@;
        if place == 8 || place == 12 || place == 16 || place == 20 {
            text.append("-");
        }
        let shift: u32 = (31 - place) * 4;
        let nibble: u128 = (id >> shift) & 0xf;
        assert(nibble < 16) by (bit_vector)
            requires
                nibble == (id >> shift) & 0xf,
        ;
        let at: usize = nibble as usize;
        let digit = HEX_DIGITS.substring_ascii(at, at + 1);
        text.append(digit);
        proof {
            reveal_strlit("-");
            assert("-"@ =~= seq!['-']);
            assert(digit@ =~= seq![spec_uuid_digit(id, place as int)]);
            if spec_group_starts(place as int) {
                assert(text@ =~= before + seq!['-'] + seq![spec_uuid_digit(id, place as int)]);
            } else {
                assert(text@ =~= before + seq![spec_uuid_digit(id, place as int)]);
            }
        }
        place = place + 1;
    }
    text
}

/// The URL at which the id of the player named `name` is asked for.
pub fn profile_by_name_url(name: &str) -> (url: String)
    ensures
        url@ == PROFILE_BY_NAME_URL@ + name@,
{
    String::from_str(PROFILE_BY_NAME_URL).concat(name)
}

/// The URL at which the profile of the player with the id `id` is asked
/// for.
pub fn profile_by_id_url(id: u128) -> (url: String)
    ensures
        url@ == PROFILE_BY_ID_URL@ + spec_uuid_text(id),
{
    let text = uuid_text(id);
    String::from_str(PROFILE_BY_ID_URL).concat(text.as_str())
}

/// One skin of a profile.
#[derive(Debug, Clone, PartialEq)]
pub struct ProfileSkin {
    pub id: String,
    pub state: String,
    pub url: String,
    pub variant: String,
}

/// A player's name with its id.
#[derive(Debug, Clone)]
pub struct UUIDToName {
    pub id: u128,
    pub name: String,
}

/// A name that a player has had.
#[derive(Debug, Clone)]
pub struct UsernameChangeList {
    pub name: String,
    /// When the player took the name, in milliseconds since the Unix epoch.
    pub changed_at: i64,
}

} // verus!
