//! The arguments with which the game is started.
use crate::game_files::release::rule::Rule;
use vstd::prelude::*;
use vstd::std_specs::convert::FromSpecImpl;
use vstd::string::*;

verus! {

/// The arguments of a release.
#[derive(Debug, Clone, PartialEq, Eq)]
pub struct Arguments {
    /// The arguments of the game.
    pub game: Vec<Argument>,
    /// The arguments of the JVM.
    pub jvm: Vec<Argument>,
}

/// One argument.
#[derive(Debug, Clone, PartialEq, Eq)]
pub enum Argument {
    /// Values that are added where their rules are met.
    RuledArgument(RuledArgument),
    /// A value that is always added.
    Simple(String),
}

/// Values with the rules under which they are added.
#[derive(Debug, Clone, PartialEq, Eq)]
pub struct RuledArgument {
    /// What is added.
    pub value: Vec<String>,
    /// The rules to be met.
    pub rules: Vec<Rule>,
}

impl<'a> From<&'a str> for Argument {
    fn from(value: &'a str) -> (argument: Self)
        ensures
            argument matches Argument::Simple(text) && text@ == value@,
    {
        Argument::Simple(String::from_str(value))
    }
}

impl<'a> FromSpecImpl<&'a str> for Argument {
    open spec fn obeys_from_spec() -> bool {
        false
    }

    open spec fn from_spec(value: &'a str) -> Self {
        arbitrary()
    }
}

impl From<String> for Argument {
    fn from(value: String) -> (argument: Self) {
        Argument::Simple(value)
    }
}

impl FromSpecImpl<String> for Argument {
    open spec fn obeys_from_spec() -> bool {
        true
    }

    open spec fn from_spec(value: String) -> Self {
        Argument::Simple(value)
    }
}

impl From<RuledArgument> for Argument {
    fn from(value: RuledArgument) -> (argument: Self) {
        Argument::RuledArgument(value)
    }
}

impl FromSpecImpl<RuledArgument> for Argument {
    open spec fn obeys_from_spec() -> bool {
        true
    }

    open spec fn from_spec(value: RuledArgument) -> Self {
        Argument::RuledArgument(value)
    }
}

/// The three shapes in which a manifest writes a list of values.
#[derive(Debug, Clone, Copy)]
pub enum StringOrArray<'a> {
    /// No value: nothing is written.
    Nothing,
    /// One value: it is written as a string.
    Single(&'a String),
    /// Several values: they are written as an array of strings.
    Array(&'a Vec<String>),
}

/// The shape in which `value` is written: nothing for no value, a string for
/// one, an array for more.
pub fn string_or_array<'a>(value: &'a Vec<String>) -> (shape: StringOrArray<'a>)
    ensures
        value@.len() == 0 ==> shape is Nothing,
        value@.len() == 1 ==> shape == StringOrArray::Single(&value@[0]),
        value@.len() > 1 ==> shape == StringOrArray::Array(value),
{
    if value.len() == 0 {
        StringOrArray::Nothing
    } else if value.len() == 1 {
        StringOrArray::Single(&value[0])
    } else {
        StringOrArray::Array(value)
    }
}

/// The list of values that a manifest means by the one string `value`.
pub fn from_single(value: &str) -> (values: Vec<String>)
    ensures
        values@.len() == 1,
        values@[0]@ == value@,
{
    let mut values = Vec::new();
    values.push(String::from_str(value));
    values
}

} // verus!
