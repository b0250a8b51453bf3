//! Why a configuration is refused, and how to say so.

use vstd::prelude::*;
use vstd::string::*;

use crate::decimal::{append_decimal, decimal};

verus! {

/// A field of one launch-target entry.
#[derive(Clone, Copy, Debug, PartialEq, Eq, Structural)]
pub enum Field {
    Name,
    Path,
    Args,
    Color,
    Default,
}

/// What is wrong with one launch-target entry.
#[derive(Clone, Copy, Debug, PartialEq, Eq, Structural)]
pub enum EntryFault {
    /// The entry is not a table.
    NotATable,
    /// A required field is absent.
    Missing(Field),
    /// A field holds a value of the wrong type.
    WrongType(Field),
    /// The colour is not `#RGB` or `#RRGGBB` in hexadecimal digits.
    MalformedColor,
}

/// Why there is no configuration to start from. Nothing has been done to
/// the terminal when one of these is found.
#[derive(Clone, Copy, Debug, PartialEq, Eq, Structural)]
pub enum ConfigError {
    /// The environment names no home directory.
    HomeUnset,
    /// The configuration file cannot be read.
    Unreadable,
    /// The text is not a TOML document.
    Syntax,
    /// Neither `shells` nor `shell` is present.
    MissingList,
    /// Both `shells` and `shell` are present.
    DuplicateList,
    /// The list key holds something other than an array.
    NotAList,
    /// The entry at this position in the list is refused.
    Entry(usize, EntryFault),
    /// The list holds no launch target.
    NoTargets,
}

impl Field {
    /// The key under which an entry holds the field.
    pub open spec fn key_of(self) -> Seq<char> {
        match self {
            Field::Name => "name"@,
            Field::Path => "path"@,
            Field::Args => "args"@,
            Field::Color => "color"@,
            Field::Default => "default"@,
        }
    }

    /// The key under which an entry holds the field.
    pub fn key(&self) -> (out: &'static str)
        ensures
            out@ == self.key_of(),
    {
        match self {
            Field::Name => "name",
            Field::Path => "path",
            Field::Args => "args",
            Field::Color => "color",
            Field::Default => "default",
        }
    }
}

impl EntryFault {
    /// What is wrong with the entry, in words that follow its position.
    pub open spec fn message_of(self) -> Seq<char> {
        match self {
            EntryFault::NotATable => "is not a table"@,
            EntryFault::Missing(field) => "has no `"@ + field.key_of() + "`"@,
            EntryFault::WrongType(field) => "has a `"@ + field.key_of() + "` of the wrong type"@,
            EntryFault::MalformedColor => "has a color that is not `#RGB` or `#RRGGBB`"@,
        }
    }

    /// What is wrong with the entry, in words that follow its position.
    pub fn message(&self) -> (out: String)
        ensures
            out@ == self.message_of(),
    {
        match self {
            EntryFault::NotATable => String::from_str("is not a table"),
            EntryFault::Missing(field) => {
                let mut out = String::from_str("has no `");
                out.append(field.key());
                out.append("`");
                out
            },
            EntryFault::WrongType(field) => {
                let mut out = String::from_str("has a `");
                out.append(field.key());
                out.append("` of the wrong type");
                out
            },
            EntryFault::MalformedColor => String::from_str(
                "has a color that is not `#RGB` or `#RRGGBB`",
            ),
        }
    }
}

impl ConfigError {
    /// The error in words. An entry is named by its position in the list,
    /// counted from zero.
    pub open spec fn message_of(self) -> Seq<char> {
        match self {
            ConfigError::HomeUnset => "the home directory is not known"@,
            ConfigError::Unreadable => "the configuration file cannot be read"@,
            ConfigError::Syntax => "the configuration is not valid TOML"@,
            ConfigError::MissingList => "the configuration has neither `shells` nor `shell`"@,
            ConfigError::DuplicateList => "the configuration has both `shells` and `shell`"@,
            ConfigError::NotAList => "the list of launch targets is not an array"@,
            ConfigError::Entry(index, fault) => "launch target "@ + decimal(index as nat) + " "@
                + fault.message_of(),
            ConfigError::NoTargets => "the configuration lists no launch target"@,
        }
    }

    /// The error in words, for the user to read.
    pub fn message(&self) -> (out: String)
        ensures
            out@ == self.message_of(),
    {
        match self {
            ConfigError::HomeUnset => String::from_str("the home directory is not known"),
            ConfigError::Unreadable => String::from_str("the configuration file cannot be read"),
            ConfigError::Syntax => String::from_str("the configuration is not valid TOML"),
            ConfigError::MissingList => String::from_str(
                "the configuration has neither `shells` nor `shell`",
            ),
            ConfigError::DuplicateList => String::from_str(
                "the configuration has both `shells` and `shell`",
            ),
            ConfigError::NotAList => String::from_str(
                "the list of launch targets is not an array",
            ),
            ConfigError::Entry(index, fault) => {
                let mut out = String::from_str("launch target ");
                append_decimal(&mut out, *index);
                out.append(" ");
                let rest = fault.message();
                out.append(rest.as_str());
                out
            },
            ConfigError::NoTargets => String::from_str("the configuration lists no launch target"),
        }
    }
}

} // verus!
