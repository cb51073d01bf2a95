//! The error type shared by every operation of the library.

use vstd::prelude::*;
use vstd::string::*;

verus! {

/// `std::io::Error`: an I/O failure of the operating system or of a
/// transport, carried as it came.
#[verifier::external_type_specification]
#[verifier::external_body]
pub struct ExIoError(std::io::Error);

/// `serde_json::Error`: a failure to read or write JSON, carried as it came.
#[verifier::external_type_specification]
#[verifier::external_body]
pub struct ExJsonError(serde_json::Error);

/// What can go wrong in a teleport operation.
#[derive(Debug)]
pub enum TeleportError {
    /// The file system or the network failed.
    IoError(std::io::Error),
    /// A document was not well-formed JSON of the expected shape.
    JsonError(serde_json::Error),
    /// No group of this name is present.
    GroupNotFound(String),
    /// A group of this name is already present.
    GroupAlreadyExists(String),
    /// The store was asked to persist itself but was never given a path.
    NoAssociatedPath,
}

impl From<std::io::Error> for TeleportError {
    fn from(error: std::io::Error) -> (wrapped: Self) {
        TeleportError::IoError(error)
    }
}

impl vstd::std_specs::convert::FromSpecImpl<std::io::Error> for TeleportError {
    open spec fn obeys_from_spec() -> bool {
        true
    }

    open spec fn from_spec(error: std::io::Error) -> Self {
        TeleportError::IoError(error)
    }
}

impl From<serde_json::Error> for TeleportError {
    fn from(error: serde_json::Error) -> (wrapped: Self) {
        TeleportError::JsonError(error)
    }
}

impl vstd::std_specs::convert::FromSpecImpl<serde_json::Error> for TeleportError {
    open spec fn obeys_from_spec() -> bool {
        true
    }

    open spec fn from_spec(error: serde_json::Error) -> Self {
        TeleportError::JsonError(error)
    }
}

/// The kinds of I/O failure that the library itself reports.
#[derive(Debug, Clone, Copy, PartialEq, Eq)]
pub enum IoKind {
    /// A parameter was not acceptable.
    InvalidInput,
    /// Data that was read did not have the expected form.
    InvalidData,
    /// None of the other kinds.
    Other,
}

/// The I/O error of kind `kind` that carries `message`.
pub uninterp spec fn io_error_of(kind: IoKind, message: Seq<char>) -> std::io::Error;

/// Calls `std::io::Error::new`. Trusted: the error made depends on the kind
/// and the message alone.
#[verifier::external_body]
pub(crate) fn io_error(kind: IoKind, message: String) -> (error: std::io::Error)
    ensures
        error == io_error_of(kind, message@),
{
    let kind = match kind {
        IoKind::InvalidInput => std::io::ErrorKind::InvalidInput,
        IoKind::InvalidData => std::io::ErrorKind::InvalidData,
        IoKind::Other => std::io::ErrorKind::Other,
    };
    std::io::Error::new(kind, message)
}

/// The text shown for a group that is absent.
pub open spec fn not_found_text(name: Seq<char>) -> Seq<char> {
    "Group '"@ + name + "' not found"@
}

/// The text shown for a group that is already present.
pub open spec fn already_exists_text(name: Seq<char>) -> Seq<char> {
    "Group '"@ + name + "' is already installed"@
}

/// The text shown when there is no path to persist to.
pub open spec fn no_path_text() -> Seq<char> {
    "No file path associated with this manager"@
}

impl TeleportError {
    /// Whether `text` is the message of this error.
    pub open spec fn has_message(&self, text: String) -> bool {
        match self {
            TeleportError::IoError(e) => to_string_from_display_ensures::<std::io::Error>(e, text),
            TeleportError::JsonError(e) => exists|inner: String|
                #[trigger] to_string_from_display_ensures::<serde_json::Error>(e, inner)
                    && text@ == "Invalid JSON: "@ + inner@,
            TeleportError::GroupNotFound(name) => text@ == not_found_text(name@),
            TeleportError::GroupAlreadyExists(name) => text@ == already_exists_text(name@),
            TeleportError::NoAssociatedPath => text@ == no_path_text(),
        }
    }

    /// The message of this error, as a user reads it.
    pub fn to_string(&self) -> (text: String)
        ensures
            self.has_message(text),
    {
        match self {
            TeleportError::IoError(e) => e.to_string(),
            TeleportError::JsonError(e) => {
                let inner = e.to_string();
                String::from_str("Invalid JSON: ").concat(inner.as_str())
            },
            TeleportError::GroupNotFound(name) => String::from_str("Group '").concat(
                name.as_str(),
            ).concat("' not found"),
            TeleportError::GroupAlreadyExists(name) => String::from_str("Group '").concat(
                name.as_str(),
            ).concat("' is already installed"),
            TeleportError::NoAssociatedPath => String::from_str(
                "No file path associated with this manager",
            ),
        }
    }
}

} // verus!
