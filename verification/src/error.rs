//! What can go wrong, as plain values.

use vstd::prelude::*;

verus! {

/// Stands for `plist::Error`, the error of the property list writer. It is carried through.
#[verifier::external_type_specification]
#[verifier::external_body]
pub struct ExPlistError(plist::Error);

/// The kinds of input and output errors that are told apart here.
#[derive(Clone, Copy, Debug, PartialEq, Eq, Structural)]
pub enum IoErrorKind {
    NotFound,
    AlreadyExists,
    InvalidInput,
    InvalidData,
    WriteZero,
    Other,
}

/// An input or output error: its kind, the operating system's code where it has one, and its
/// message.
#[derive(Debug)]
pub struct IoError {
    pub kind: IoErrorKind,
    pub os_code: Option<i32>,
    pub message: String,
}

/// Why an operation did not succeed.
#[derive(Debug)]
pub enum LaunchError {
    /// An input or output error.
    Io(IoError),
    /// A registry error, by its `HRESULT`.
    Registry(i32),
    /// The property list could not be written out.
    Plist(plist::Error),
    /// The registration at this path was not created by this library.
    RegistrationNotOwned(Vec<u8>),
    /// Nothing exists at the application's path.
    AppPathDoesntExist(String),
    /// The application's path is relative.
    AppPathIsNotAbsolute(String),
    /// `osascript` failed with this exit code.
    AppleScriptFailed(i32),
    /// The service could not be registered, for the reason that the code stands for.
    SMAppServiceRegistrationFailed(u32),
    /// The service could not be unregistered, for the reason that the code stands for.
    SMAppServiceUnregistrationFailed(u32),
}

/// Whether `e` is an error that this library raised itself, of the kind and with the message given.
pub open spec fn raised(e: LaunchError, kind: IoErrorKind, message: Seq<char>) -> bool {
    e matches LaunchError::Io(io) && io.kind == kind && io.os_code is None && io.message@ == message
}

/// Whether `e` says that the home directory is not known.
pub open spec fn home_not_found(e: LaunchError) -> bool {
    raised(e, IoErrorKind::NotFound, "Failed to find home directory"@)
}

/// Makes an error of the kind and with the message given.
pub fn raise(kind: IoErrorKind, message: String) -> (e: LaunchError)
    ensures
        raised(e, kind, message@),
{
    LaunchError::Io(IoError { kind, os_code: None, message })
}

/// The error for a home directory that is not known.
pub fn home_missing() -> (e: LaunchError)
    ensures
        home_not_found(e),
{
    raise(IoErrorKind::NotFound, "Failed to find home directory".to_owned())
}

} // verus!
