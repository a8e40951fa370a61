//! What the errors of this library say of themselves.

use vstd::prelude::*;
use vstd::string::StringExecFns;

use crate::document::OpenError;
use crate::save_queue::WriteError;
use crate::schema::ShapeError;
use crate::store_manager::SectionError;

verus! {

/// An error that can say in words what went wrong.
pub trait Describe {
    /// The words.
    spec fn description(&self) -> Seq<char>;

    /// The words.
    fn describe(&self) -> (text: String)
        ensures
            text@ == self.description(),
    ;
}

impl Describe for ShapeError {
    open spec fn description(&self) -> Seq<char> {
        match self {
            ShapeError::NotARecord => "not a record"@,
            ShapeError::MissingField(field) => "missing field `"@ + field.label() + "`"@,
            ShapeError::InvalidField(field) => "invalid value for field `"@ + field.label() + "`"@,
        }
    }

    fn describe(&self) -> (text: String) {
        match self {
            ShapeError::NotARecord => String::from_str("not a record"),
            ShapeError::MissingField(field) => {
                let mut text = String::from_str("missing field `");
                text.append(field.name());
                text.append("`");
                text
            },
            ShapeError::InvalidField(field) => {
                let mut text = String::from_str("invalid value for field `");
                text.append(field.name());
                text.append("`");
                text
            },
        }
    }
}

impl Describe for SectionError {
    open spec fn description(&self) -> Seq<char> {
        match self {
            SectionError::Missing(key) => "section `"@ + key.label() + "` does not exist"@,
            SectionError::Invalid(key, cause) => "section `"@ + key.label() + "` is invalid: "@
                + cause.description(),
        }
    }

    fn describe(&self) -> (text: String) {
        match self {
            SectionError::Missing(key) => {
                let mut text = String::from_str("section `");
                text.append(key.name());
                text.append("` does not exist");
                text
            },
            SectionError::Invalid(key, cause) => {
                let mut text = String::from_str("section `");
                text.append(key.name());
                text.append("` is invalid: ");
                let why = cause.describe();
                text.append(why.as_str());
                text
            },
        }
    }
}

impl Describe for OpenError {
    open spec fn description(&self) -> Seq<char> {
        match self {
            OpenError::DirectoryUnavailable => "the configuration directory is not available"@,
            OpenError::Unreadable => "the configuration file cannot be read"@,
            OpenError::Unparseable => "the configuration file is not a structured document"@,
            OpenError::NotARecord => "the configuration file does not hold a record"@,
            OpenError::DuplicateKey => "the configuration file holds a key twice"@,
        }
    }

    fn describe(&self) -> (text: String) {
        match self {
            OpenError::DirectoryUnavailable => String::from_str(
                "the configuration directory is not available",
            ),
            OpenError::Unreadable => String::from_str("the configuration file cannot be read"),
            OpenError::Unparseable => String::from_str(
                "the configuration file is not a structured document",
            ),
            OpenError::NotARecord => String::from_str(
                "the configuration file does not hold a record",
            ),
            OpenError::DuplicateKey => String::from_str("the configuration file holds a key twice"),
        }
    }
}

impl Describe for WriteError {
    open spec fn description(&self) -> Seq<char> {
        match self {
            WriteError::NotWritten => "the configuration could not be written"@,
            WriteError::NotReplaced => "the configuration file could not be replaced"@,
        }
    }

    fn describe(&self) -> (text: String) {
        match self {
            WriteError::NotWritten => String::from_str("the configuration could not be written"),
            WriteError::NotReplaced => String::from_str(
                "the configuration file could not be replaced",
            ),
        }
    }
}

/// The line that reports an error: `Error: ` and what the error says of itself.
pub fn generate_error_message<E: Describe>(e: &E) -> (message: String)
    ensures
        message@ == "Error: "@ + e.description(),
{
    let mut message = String::from_str("Error: ");
    let what = e.describe();
    message.append(what.as_str());
    message
}

} // verus!
