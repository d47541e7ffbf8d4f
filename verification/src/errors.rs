//! The error taxonomy of the download manager, and the user-facing message
//! each error carries.

use vstd::prelude::*;
use vstd::string::StringExecFns;
use crate::text::dec_digits;
use crate::text::u64_to_dec;

verus! {

/// Everything that can go wrong while resolving, transferring or managing a
/// download.
#[derive(Debug, PartialEq)]
pub enum DownloadError {
    /// The URL is no use: it failed to parse outright (`malformed`), or it
    /// parsed but its scheme is not `http`/`https`.
    InvalidUrl { malformed: bool },
    /// The request could not be sent or the connection broke.
    Connection { detail: String },
    /// The server answered with a non-success status other than 401/403.
    Server { status: u16 },
    /// The server answered 401 or 403.
    Authorization { status: u16 },
    /// After streaming, the file on disk disagrees with the known total size.
    SizeMismatch { expected: u64, actual: u64 },
    /// A disk fault while writing the destination file.
    Io { detail: String },
    /// A control operation named a task id that is not in the registry.
    TaskNotFound,
    /// The persisted registry could not be read or written.
    Persistence,
}

/// The message that `DownloadError::message` renders for each variant.
pub open spec fn message_spec(e: DownloadError) -> Seq<char> {
    match e {
        DownloadError::InvalidUrl { malformed } => if malformed {
            "Invalid URL format"@
        } else {
            "Only HTTP and HTTPS URLs are supported"@
        },
        DownloadError::Connection { detail } => "Failed to connect: "@ + detail@,
        DownloadError::Server { status } => "Server returned an error: "@ + dec_digits(
            status as nat,
        ),
        DownloadError::Authorization { status } => "Authorization failed ("@ + dec_digits(
            status as nat,
        ) + "). The link may be protected or expired."@,
        DownloadError::SizeMismatch { .. } => "File size mismatch"@,
        DownloadError::Io { detail } => "Disk error: "@ + detail@,
        DownloadError::TaskNotFound => "Task not found"@,
        DownloadError::Persistence => "Could not load or save the download list"@,
    }
}

impl DownloadError {
    /// The human-readable message shown for this error.
    pub fn message(&self) -> (r: String)
        ensures
            r@ == message_spec(*self),
    {
        match self {
            DownloadError::InvalidUrl { malformed } => if *malformed {
                String::from_str("Invalid URL format")
            } else {
                String::from_str("Only HTTP and HTTPS URLs are supported")
            },
            DownloadError::Connection { detail } => {
                let s = String::from_str("Failed to connect: ");
                s.concat(detail.as_str())
            },
            DownloadError::Server { status } => {
                let s = String::from_str("Server returned an error: ");
                s.concat(u64_to_dec(*status as u64).as_str())
            },
            DownloadError::Authorization { status } => {
                let s = String::from_str("Authorization failed (");
                let s = s.concat(u64_to_dec(*status as u64).as_str());
                s.concat("). The link may be protected or expired.")
            },
            DownloadError::SizeMismatch { .. } => String::from_str("File size mismatch"),
            DownloadError::Io { detail } => {
                let s = String::from_str("Disk error: ");
                s.concat(detail.as_str())
            },
            DownloadError::TaskNotFound => String::from_str("Task not found"),
            DownloadError::Persistence => String::from_str(
                "Could not load or save the download list",
            ),
        }
    }

    /// Duplicates the error.
    pub fn duplicate(&self) -> (r: DownloadError)
        ensures
            r == *self,
    {
        match self {
            DownloadError::InvalidUrl { malformed } => DownloadError::InvalidUrl {
                malformed: *malformed,
            },
            DownloadError::Connection { detail } => DownloadError::Connection {
                detail: detail.clone(),
            },
            DownloadError::Server { status } => DownloadError::Server { status: *status },
            DownloadError::Authorization { status } => DownloadError::Authorization {
                status: *status,
            },
            DownloadError::SizeMismatch { expected, actual } => DownloadError::SizeMismatch {
                expected: *expected,
                actual: *actual,
            },
            DownloadError::Io { detail } => DownloadError::Io { detail: detail.clone() },
            DownloadError::TaskNotFound => DownloadError::TaskNotFound,
            DownloadError::Persistence => DownloadError::Persistence,
        }
    }
}

} // verus!
