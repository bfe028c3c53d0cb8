//! The reasons for which loading a repository or reading a target fails.

use vstd::prelude::*;
use crate::time::UtcTime;

verus! {

/// The four top-level roles of a repository.
#[derive(Debug, Clone, Copy, PartialEq, Eq, Structural)]
pub enum RoleType {
    /// The root role, which names the keys of every role.
    Root,
    /// The snapshot role, which lists the version of the targets metadata.
    Snapshot,
    /// The targets role, which describes the target files.
    Targets,
    /// The timestamp role, which points at the current snapshot metadata.
    Timestamp,
}

/// Why an operation of this library failed.
#[allow(inconsistent_fields)]
#[derive(Debug, Clone, PartialEq, Eq)]
pub enum Error {
    /// A file of the datastore exists but could not be read.
    DatastoreUnreadable { file: &'static str },
    /// The metadata of `role` expires at or before the latest known time.
    ExpiredMetadata { role: RoleType },
    /// The digest of what was fetched is not the one that signed metadata lists.
    HashMismatch { specifier: &'static str, expected: Vec<u8>, calculated: Vec<u8> },
    /// `path` could not be resolved against the base URL `url`.
    JoinUrl { path: String, url: String },
    /// More than `max_bytes` bytes were offered for a fetch bounded by `specifier`.
    MaxSizeExceeded { specifier: &'static str, max_bytes: u64 },
    /// The root metadata was updated `max_root_updates` times and a further
    /// update would be due.
    MaxUpdatesExceeded { max_root_updates: u64 },
    /// Metadata has no entry for `file`, which it must list; `role` is the
    /// role that the failure is reported against.
    MetaMissing { file: &'static str, role: RoleType },
    /// The fetched metadata of `role` is older than the copy trusted so far.
    OlderMetadata { role: RoleType, current_version: u64, new_version: u64 },
    /// The fetched metadata of `role` could not be decoded.
    ParseMetadata { role: RoleType },
    /// The root metadata shipped with the application could not be decoded.
    ParseTrustedMetadata,
    /// The base URL `url` is not an absolute URL.
    ParseUrl { url: String },
    /// Too few keys of `role` have signed a document: `have` of the `need` required.
    SignatureThresholdNotMet { role: RoleType, have: u64, need: u64 },
    /// The system clock reads earlier than a time it was seen to read before.
    SystemTimeSteppedBackward { sys_time: UtcTime, latest_known_time: UtcTime },
    /// Nothing could be fetched from `url`.
    Transport { url: String },
    /// The fetched metadata of `role` is not signed by enough of the keys that
    /// the trusted root metadata names for it.
    VerifyMetadata { role: RoleType },
    /// The root metadata shipped with the application is not signed by enough
    /// of its own root keys.
    VerifyTrustedMetadata,
    /// The fetched metadata of `role` has another version than the metadata
    /// that points at it says.
    VersionMismatch { role: RoleType, fetched: u64, expected: u64 },
}

/// An [`Error`] with its texts and byte strings as mathematical sequences.
#[allow(inconsistent_fields)]
pub enum ErrorView {
    DatastoreUnreadable { file: Seq<char> },
    ExpiredMetadata { role: RoleType },
    HashMismatch { specifier: Seq<char>, expected: Seq<u8>, calculated: Seq<u8> },
    JoinUrl { path: Seq<char>, url: Seq<char> },
    MaxSizeExceeded { specifier: Seq<char>, max_bytes: u64 },
    MaxUpdatesExceeded { max_root_updates: u64 },
    MetaMissing { file: Seq<char>, role: RoleType },
    OlderMetadata { role: RoleType, current_version: u64, new_version: u64 },
    ParseMetadata { role: RoleType },
    ParseTrustedMetadata,
    ParseUrl { url: Seq<char> },
    SignatureThresholdNotMet { role: RoleType, have: u64, need: u64 },
    SystemTimeSteppedBackward { sys_time: UtcTime, latest_known_time: UtcTime },
    Transport { url: Seq<char> },
    VerifyMetadata { role: RoleType },
    VerifyTrustedMetadata,
    VersionMismatch { role: RoleType, fetched: u64, expected: u64 },
}

impl View for Error {
    type V = ErrorView;

    open spec fn view(&self) -> ErrorView {
        match *self {
            Error::DatastoreUnreadable { file } => ErrorView::DatastoreUnreadable { file: file@ },
            Error::ExpiredMetadata { role } => ErrorView::ExpiredMetadata { role },
            Error::HashMismatch { specifier, expected, calculated } => ErrorView::HashMismatch {
                specifier: specifier@,
                expected: expected@,
                calculated: calculated@,
            },
            Error::JoinUrl { path, url } => ErrorView::JoinUrl { path: path@, url: url@ },
            Error::MaxSizeExceeded { specifier, max_bytes } => ErrorView::MaxSizeExceeded {
                specifier: specifier@,
                max_bytes,
            },
            Error::MaxUpdatesExceeded { max_root_updates } => ErrorView::MaxUpdatesExceeded {
                max_root_updates,
            },
            Error::MetaMissing { file, role } => ErrorView::MetaMissing { file: file@, role },
            Error::OlderMetadata { role, current_version, new_version } => ErrorView::OlderMetadata {
                role,
                current_version,
                new_version,
            },
            Error::ParseMetadata { role } => ErrorView::ParseMetadata { role },
            Error::ParseTrustedMetadata => ErrorView::ParseTrustedMetadata,
            Error::ParseUrl { url } => ErrorView::ParseUrl { url: url@ },
            Error::SignatureThresholdNotMet { role, have, need } => {
                ErrorView::SignatureThresholdNotMet { role, have, need }
            },
            Error::SystemTimeSteppedBackward { sys_time, latest_known_time } => {
                ErrorView::SystemTimeSteppedBackward { sys_time, latest_known_time }
            },
            Error::Transport { url } => ErrorView::Transport { url: url@ },
            Error::VerifyMetadata { role } => ErrorView::VerifyMetadata { role },
            Error::VerifyTrustedMetadata => ErrorView::VerifyTrustedMetadata,
            Error::VersionMismatch { role, fetched, expected } => ErrorView::VersionMismatch {
                role,
                fetched,
                expected,
            },
        }
    }
}

} // verus!
