//! The error values reported for refused operations.
//!
//! Precondition and conflict errors are detected before any mutating call,
//! so a refused operation never changes partial state.  Each error carries a
//! fixed human-readable description.

use vstd::prelude::*;

verus! {

/// Raised when adding a file whose path already has a remote record.
#[derive(Debug, Clone)]
pub struct AlreadySavedError;

impl AlreadySavedError {
    /// The human-readable description of this error.
    pub fn message(&self) -> (r: String)
        ensures
            r@ == "File is already saved on server"@,
    {
        "File is already saved on server".to_owned()
    }
}

/// Raised when the named local file does not exist or is a directory.
#[derive(Debug, Clone)]
pub struct FileNotFoundError;

impl FileNotFoundError {
    /// The human-readable description of this error.
    pub fn message(&self) -> (r: String)
        ensures
            r@ == "File was not found or is a directory"@,
    {
        "File was not found or is a directory".to_owned()
    }
}

/// Raised when no remote record matches the named local path.
#[derive(Debug, Clone)]
pub struct NotSavedOnServerError;

impl NotSavedOnServerError {
    /// The human-readable description of this error.
    pub fn message(&self) -> (r: String)
        ensures
            r@ == "File is not saved on server"@,
    {
        "File is not saved on server".to_owned()
    }
}

/// Raised when an update is refused because the server version is newer and
/// the caller did not force the push.
#[derive(Debug, Clone)]
pub struct ServerVersionIsNewerError;

impl ServerVersionIsNewerError {
    /// The human-readable description of this error.
    pub fn message(&self) -> (r: String)
        ensures
            r@ == "File version on server is newer"@,
    {
        "File version on server is newer".to_owned()
    }
}

/// Raised when a download is refused because the local version is newer and
/// the caller did not force the fetch.
#[derive(Debug, Clone)]
pub struct LocalVersionIsNewerError;

impl LocalVersionIsNewerError {
    /// The human-readable description of this error.
    pub fn message(&self) -> (r: String)
        ensures
            r@ == "Local file version is newer"@,
    {
        "Local file version is newer".to_owned()
    }
}

/// Raised when no connected server carries the named hostname.
#[derive(Debug, Clone)]
pub struct ServerNotFoundError;

impl ServerNotFoundError {
    /// The human-readable description of this error.
    pub fn message(&self) -> (r: String)
        ensures
            r@ == "Server was not found"@,
    {
        "Server was not found".to_owned()
    }
}

/// Raised when a request envelope cannot be signed; the operation is aborted
/// rather than sending an unsigned or corrupted request.
#[derive(Debug, Clone)]
pub struct SignError;

impl SignError {
    /// The human-readable description of this error.
    pub fn message(&self) -> (r: String)
        ensures
            r@ == "Could not sign the request body"@,
    {
        "Could not sign the request body".to_owned()
    }
}

} // verus!
