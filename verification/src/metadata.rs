//! Loading the timestamp, snapshot and targets metadata: what to fetch for
//! each, and whether what came back becomes the trusted copy.

use vstd::prelude::*;
use std::sync::Arc;
use crate::clock::{check_expired_at, freeze_outcome};
use crate::datastore::{share, Datastore, DatastoreView, StoreFile, Stored};
use crate::error::{Error, ErrorView, RoleType};
use crate::fetch::{fetch_verdict, seen, FetchRequest, FetchRequestView, Fetched};
use crate::schema::{Role, Root, Signed, Snapshot, Targets, Timestamp};
use crate::time::{clock_now, UtcTime};
use crate::urls::{join_url, join_url_outcome, metadata_file, metadata_path};
use crate::verify::verified;

verus! {

/// A request or the error that stands in its way, with texts as sequences.
pub open spec fn seen_request(request: Result<FetchRequest, Error>) -> Result<
    FetchRequestView,
    ErrorView,
> {
    match request {
        Ok(request) => Ok(request@),
        Err(error) => Err(error@),
    }
}

/// The verdict of the signatures on fetched metadata of `role`.
pub open spec fn signature_verdict<T>(root: Root, role: RoleType, document: Signed<T>) -> Result<
    (),
    ErrorView,
> {
    if verified(root, role, document) {
        Ok(())
    } else {
        Err(ErrorView::VerifyMetadata { role })
    }
}

/// The verdict on the version of fetched metadata of `role` against the
/// version that the metadata pointing at it lists.
pub open spec fn version_verdict(role: RoleType, fetched: u64, expected: u64) -> Result<
    (),
    ErrorView,
> {
    if fetched == expected {
        Ok(())
    } else {
        Err(ErrorView::VersionMismatch { role, fetched, expected })
    }
}

/// The copy of a document trusted before, where it may serve as evidence
/// against a rollback: it is there and is signed by a threshold of the keys
/// that `root` names for its role. `DatastoreUnreadable` where the datastore
/// cannot be read; a copy that does not verify is passed over.
pub open spec fn prior_outcome<T: Role>(
    root: Root,
    stored: Stored<Arc<Signed<T>>>,
    file: StoreFile,
) -> Result<Option<Arc<Signed<T>>>, ErrorView> {
    match stored {
        Stored::Absent => Ok(None),
        Stored::Unreadable => Err(ErrorView::DatastoreUnreadable { file: file.spec_name()@ }),
        Stored::Present(prior) => if verified(root, T::spec_role_type(), *prior) {
            Ok(Some(prior))
        } else {
            Ok(None)
        },
    }
}

/// The verdict of a version trusted before on a new one: `OlderMetadata`
/// when the new one is lower.
pub open spec fn rollback_verdict(role: RoleType, current_version: u64, new_version: u64) -> Result<
    (),
    ErrorView,
> {
    if current_version <= new_version {
        Ok(())
    } else {
        Err(ErrorView::OlderMetadata { role, current_version, new_version })
    }
}

/// Reads the copy of a document trusted before, for use against a rollback.
pub fn trusted_prior<'a, T: Role>(
    root: &Signed<Root>,
    stored: &'a Stored<Arc<Signed<T>>>,
    file: StoreFile,
) -> (prior: Result<Option<&'a Arc<Signed<T>>>, Error>)
    ensures
        match prior {
            Ok(Some(p)) => prior_outcome(root.signed, *stored, file) == Ok::<
                Option<Arc<Signed<T>>>,
                ErrorView,
            >(Some(*p)),
            Ok(None) => prior_outcome(root.signed, *stored, file) == Ok::<
                Option<Arc<Signed<T>>>,
                ErrorView,
            >(None),
            Err(e) => prior_outcome(root.signed, *stored, file) == Err::<
                Option<Arc<Signed<T>>>,
                ErrorView,
            >(e@),
        },
{
    match stored.reader(file) {
        Err(error) => Err(error),
        Ok(None) => Ok(None),
        Ok(Some(prior)) => {
            if root.signed.verify_role(prior).is_ok() {
                Ok(Some(prior))
            } else {
                Ok(None)
            }
        },
    }
}

/// Checks that fetched metadata is signed by a threshold of the keys that
/// `root` names for its role.
pub fn check_signatures<T: Role>(root: &Signed<Root>, document: &Signed<T>) -> (verdict: Result<
    (),
    Error,
>)
    ensures
        seen(verdict) == signature_verdict(root.signed, T::spec_role_type(), *document),
{
    match root.signed.verify_role(document) {
        Ok(_) => Ok(()),
        Err(_) => Err(Error::VerifyMetadata { role: T::role_type() }),
    }
}

/// Checks the version of fetched metadata against the version expected.
pub fn check_version(role: RoleType, fetched: u64, expected: u64) -> (verdict: Result<(), Error>)
    ensures
        seen(verdict) == version_verdict(role, fetched, expected),
{
    if fetched == expected {
        Ok(())
    } else {
        Err(Error::VersionMismatch { role, fetched, expected })
    }
}

/// Checks a new version against the version trusted before.
pub fn check_rollback(role: RoleType, current_version: u64, new_version: u64) -> (verdict: Result<
    (),
    Error,
>)
    ensures
        seen(verdict) == rollback_verdict(role, current_version, new_version),
{
    if current_version <= new_version {
        Ok(())
    } else {
        Err(Error::OlderMetadata { role, current_version, new_version })
    }
}

/// What is fetched as timestamp metadata: `timestamp.json` below the base
/// URL, of at most `max_timestamp_size` bytes.
pub open spec fn timestamp_request_outcome(metadata_base_url: Seq<char>, max_timestamp_size: u64)
    -> Result<FetchRequestView, ErrorView> {
    match join_url_outcome(metadata_base_url, "timestamp.json"@) {
        Err(error) => Err(error),
        Ok(url) => Ok(
            FetchRequestView {
                url,
                max_bytes: max_timestamp_size,
                specifier: "max_timestamp_size argument"@,
                sha256: None,
            },
        ),
    }
}

/// Says what to fetch as timestamp metadata.
pub fn timestamp_request(metadata_base_url: &str, max_timestamp_size: u64) -> (request: Result<
    FetchRequest,
    Error,
>)
    ensures
        seen_request(request) == timestamp_request_outcome(metadata_base_url@, max_timestamp_size),
{
    let path = "timestamp.json".to_owned();
    match join_url(metadata_base_url, path) {
        Err(error) => Err(error),
        Ok(url) => Ok(
            FetchRequest {
                url,
                max_bytes: max_timestamp_size,
                specifier: "max_timestamp_size argument",
                sha256: None,
            },
        ),
    }
}

/// The verdict of the timestamp metadata trusted before on a new version.
pub open spec fn timestamp_rollback(
    root: Root,
    stored: Stored<Arc<Signed<Timestamp>>>,
    new_version: u64,
) -> Result<(), ErrorView> {
    match prior_outcome(root, stored, StoreFile::Timestamp) {
        Err(error) => Err(error),
        Ok(None) => Ok(()),
        Ok(Some(prior)) => rollback_verdict(
            RoleType::Timestamp,
            prior.signed.version.get(),
            new_version,
        ),
    }
}

/// What loading the timestamp metadata does, when `fetched` came back for
/// the request and the clock reads `sys_time`.
///
/// The first of these that fails decides: the request can be made; a
/// document arrived within its bounds; it is signed by a threshold of the
/// timestamp keys of `root`; it is no older than the copy trusted before,
/// where that copy verifies; it expires after the clock sample. Then the
/// document is written to the datastore and is the result. The clock is
/// sampled, and the sample recorded, only once the checks before it have
/// passed.
pub open spec fn timestamp_outcome(
    root: Root,
    datastore: DatastoreView,
    max_timestamp_size: u64,
    metadata_base_url: Seq<char>,
    fetched: Fetched<Timestamp>,
    sys_time: UtcTime,
) -> (Result<Arc<Signed<Timestamp>>, ErrorView>, DatastoreView) {
    match timestamp_request_outcome(metadata_base_url, max_timestamp_size) {
        Err(error) => (Err(error), datastore),
        Ok(request) => match fetch_verdict(request, fetched, RoleType::Timestamp) {
            Err(error) => (Err(error), datastore),
            Ok(timestamp) => match signature_verdict(root, RoleType::Timestamp, *timestamp) {
                Err(error) => (Err(error), datastore),
                Ok(_) => match timestamp_rollback(
                    root,
                    datastore.timestamp,
                    timestamp.signed.version.get(),
                ) {
                    Err(error) => (Err(error), datastore),
                    Ok(_) => {
                        let (fresh, sampled) = freeze_outcome(
                            datastore,
                            sys_time,
                            RoleType::Timestamp,
                            timestamp.signed.expires,
                        );
                        match fresh {
                            Err(error) => (Err(error), sampled),
                            Ok(_) => (Ok(timestamp), sampled.with_timestamp(timestamp)),
                        }
                    },
                },
            },
        },
    }
}

/// Loads the timestamp metadata from what was fetched for it, with
/// `sys_time` as the reading of the system clock.
pub fn load_timestamp_at(
    root: &Signed<Root>,
    datastore: &mut Datastore,
    max_timestamp_size: u64,
    metadata_base_url: &str,
    fetched: Fetched<Timestamp>,
    sys_time: UtcTime,
) -> (loaded: Result<Arc<Signed<Timestamp>>, Error>)
    ensures
        (seen(loaded), final(datastore)@) == timestamp_outcome(
            root.signed,
            old(datastore)@,
            max_timestamp_size,
            metadata_base_url@,
            fetched,
            sys_time,
        ),
        final(datastore)@.time_not_before(old(datastore)@),
{
    let request = match timestamp_request(metadata_base_url, max_timestamp_size) {
        Err(error) => { return Err(error); },
        Ok(request) => request,
    };
    let timestamp = match request.accept(fetched, RoleType::Timestamp) {
        Err(error) => { return Err(error); },
        Ok(timestamp) => timestamp,
    };
    match check_signatures(root, &*timestamp) {
        Err(error) => { return Err(error); },
        Ok(_) => {},
    }
    match trusted_prior(root, &datastore.timestamp, StoreFile::Timestamp) {
        Err(error) => { return Err(error); },
        Ok(None) => {},
        Ok(Some(prior)) => {
            match check_rollback(
                RoleType::Timestamp,
                prior.signed.version.get(),
                timestamp.signed.version.get(),
            ) {
                Err(error) => { return Err(error); },
                Ok(_) => {},
            }
        },
    }
    match check_expired_at(datastore, &timestamp.signed, sys_time) {
        Err(error) => { return Err(error); },
        Ok(_) => {},
    }
    datastore.create_timestamp(share(&timestamp));
    Ok(timestamp)
}

/// Loads the timestamp metadata from what was fetched for it.
///
/// The system clock is read when the call begins; the reading is used, and
/// recorded, only if the document gets as far as the expiration check.
pub fn load_timestamp(
    root: &Signed<Root>,
    datastore: &mut Datastore,
    max_timestamp_size: u64,
    metadata_base_url: &str,
    fetched: Fetched<Timestamp>,
) -> (loaded: Result<Arc<Signed<Timestamp>>, Error>)
    ensures
        exists|sys_time: UtcTime|
            (seen(loaded), final(datastore)@) == #[trigger] timestamp_outcome(
                root.signed,
                old(datastore)@,
                max_timestamp_size,
                metadata_base_url@,
                fetched,
                sys_time,
            ),
        final(datastore)@.time_not_before(old(datastore)@),
{
    let sys_time = clock_now();
    load_timestamp_at(root, datastore, max_timestamp_size, metadata_base_url, fetched, sys_time)
}

/// What is fetched as snapshot metadata: the file that the timestamp
/// metadata lists as `snapshot.json`, with the length and digest listed
/// there.
pub open spec fn snapshot_request_outcome(
    root: Root,
    timestamp: Timestamp,
    metadata_base_url: Seq<char>,
) -> Result<FetchRequestView, ErrorView> {
    if !timestamp.meta.contains("snapshot.json"@) {
        Err(ErrorView::MetaMissing { file: "snapshot.json"@, role: RoleType::Timestamp })
    } else {
        let meta = timestamp.meta.value_of("snapshot.json"@);
        let path = metadata_path(root.consistent_snapshot, meta.version.get() as nat, "snapshot.json"@);
        match join_url_outcome(metadata_base_url, path) {
            Err(error) => Err(error),
            Ok(url) => Ok(
                FetchRequestView {
                    url,
                    max_bytes: meta.length,
                    specifier: "timestamp.json"@,
                    sha256: Some(meta.hashes.sha256@),
                },
            ),
        }
    }
}

/// Says what to fetch as snapshot metadata.
pub fn snapshot_request(
    root: &Signed<Root>,
    timestamp: &Signed<Timestamp>,
    metadata_base_url: &str,
) -> (request: Result<FetchRequest, Error>)
    ensures
        seen_request(request) == snapshot_request_outcome(
            root.signed,
            timestamp.signed,
            metadata_base_url@,
        ),
{
    let meta = match timestamp.signed.meta.get("snapshot.json") {
        None => {
            return Err(Error::MetaMissing { file: "snapshot.json", role: RoleType::Timestamp });
        },
        Some(meta) => meta,
    };
    let path = metadata_file(root.signed.consistent_snapshot, meta.version.get(), "snapshot.json");
    match join_url(metadata_base_url, path) {
        Err(error) => Err(error),
        Ok(url) => Ok(
            FetchRequest {
                url,
                max_bytes: meta.length,
                specifier: "timestamp.json",
                sha256: Some(vstd::slice::slice_to_vec(meta.hashes.sha256.as_slice())),
            },
        ),
    }
}

/// The verdict of the snapshot metadata trusted before on new snapshot
/// metadata: the new version is no lower, and where the old document lists
/// `targets.json`, the new one lists it too, in no lower a version.
pub open spec fn snapshot_rollback(
    root: Root,
    stored: Stored<Arc<Signed<Snapshot>>>,
    snapshot: Snapshot,
) -> Result<(), ErrorView> {
    match prior_outcome(root, stored, StoreFile::Snapshot) {
        Err(error) => Err(error),
        Ok(None) => Ok(()),
        Ok(Some(prior)) => match rollback_verdict(
            RoleType::Snapshot,
            prior.signed.version.get(),
            snapshot.version.get(),
        ) {
            Err(error) => Err(error),
            Ok(_) => if !prior.signed.meta.contains("targets.json"@) {
                Ok(())
            } else if !snapshot.meta.contains("targets.json"@) {
                Err(ErrorView::MetaMissing { file: "targets.json"@, role: RoleType::Snapshot })
            } else {
                rollback_verdict(
                    RoleType::Targets,
                    prior.signed.meta.value_of("targets.json"@).version.get(),
                    snapshot.meta.value_of("targets.json"@).version.get(),
                )
            },
        },
    }
}

/// Checks new snapshot metadata against the copy trusted before.
pub fn check_snapshot_rollback(
    root: &Signed<Root>,
    stored: &Stored<Arc<Signed<Snapshot>>>,
    snapshot: &Signed<Snapshot>,
) -> (verdict: Result<(), Error>)
    ensures
        seen(verdict) == snapshot_rollback(root.signed, *stored, snapshot.signed),
{
    let prior = match trusted_prior(root, stored, StoreFile::Snapshot) {
        Err(error) => { return Err(error); },
        Ok(None) => { return Ok(()); },
        Ok(Some(prior)) => prior,
    };
    match check_rollback(RoleType::Snapshot, prior.signed.version.get(), snapshot.signed.version.get()) {
        Err(error) => { return Err(error); },
        Ok(_) => {},
    }
    match prior.signed.meta.get("targets.json") {
        None => Ok(()),
        Some(prior_meta) => match snapshot.signed.meta.get("targets.json") {
            None => Err(Error::MetaMissing { file: "targets.json", role: RoleType::Snapshot }),
            Some(meta) => check_rollback(RoleType::Targets, prior_meta.version.get(), meta.version.get()),
        },
    }
}

/// What loading the snapshot metadata does, when `fetched` came back for the
/// request and the clock reads `sys_time`.
///
/// The first of these that fails decides: the request can be made; a
/// document arrived with the length and digest that the timestamp metadata
/// lists; it has the version listed there; it is signed by a threshold of
/// the snapshot keys of `root`; the copy trusted before, where it verifies,
/// does not speak against it; it expires after the clock sample. Then the
/// document is written to the datastore and is the result.
pub open spec fn snapshot_outcome(
    root: Root,
    timestamp: Timestamp,
    datastore: DatastoreView,
    metadata_base_url: Seq<char>,
    fetched: Fetched<Snapshot>,
    sys_time: UtcTime,
) -> (Result<Arc<Signed<Snapshot>>, ErrorView>, DatastoreView) {
    match snapshot_request_outcome(root, timestamp, metadata_base_url) {
        Err(error) => (Err(error), datastore),
        Ok(request) => match fetch_verdict(request, fetched, RoleType::Snapshot) {
            Err(error) => (Err(error), datastore),
            Ok(snapshot) => match version_verdict(
                RoleType::Snapshot,
                snapshot.signed.version.get(),
                timestamp.meta.value_of("snapshot.json"@).version.get(),
            ) {
                Err(error) => (Err(error), datastore),
                Ok(_) => match signature_verdict(root, RoleType::Snapshot, *snapshot) {
                    Err(error) => (Err(error), datastore),
                    Ok(_) => match snapshot_rollback(root, datastore.snapshot, snapshot.signed) {
                        Err(error) => (Err(error), datastore),
                        Ok(_) => {
                            let (fresh, sampled) = freeze_outcome(
                                datastore,
                                sys_time,
                                RoleType::Snapshot,
                                snapshot.signed.expires,
                            );
                            match fresh {
                                Err(error) => (Err(error), sampled),
                                Ok(_) => (Ok(snapshot), sampled.with_snapshot(snapshot)),
                            }
                        },
                    },
                },
            },
        },
    }
}

/// Loads the snapshot metadata from what was fetched for it, with `sys_time`
/// as the reading of the system clock.
pub fn load_snapshot_at(
    root: &Signed<Root>,
    timestamp: &Signed<Timestamp>,
    datastore: &mut Datastore,
    metadata_base_url: &str,
    fetched: Fetched<Snapshot>,
    sys_time: UtcTime,
) -> (loaded: Result<Arc<Signed<Snapshot>>, Error>)
    ensures
        (seen(loaded), final(datastore)@) == snapshot_outcome(
            root.signed,
            timestamp.signed,
            old(datastore)@,
            metadata_base_url@,
            fetched,
            sys_time,
        ),
        final(datastore)@.time_not_before(old(datastore)@),
{
    let request = match snapshot_request(root, timestamp, metadata_base_url) {
        Err(error) => { return Err(error); },
        Ok(request) => request,
    };
    let snapshot = match request.accept(fetched, RoleType::Snapshot) {
        Err(error) => { return Err(error); },
        Ok(snapshot) => snapshot,
    };
    let expected = match timestamp.signed.meta.get("snapshot.json") {
        None => { return Err(Error::MetaMissing { file: "snapshot.json", role: RoleType::Timestamp }); },
        Some(meta) => meta.version.get(),
    };
    match check_version(RoleType::Snapshot, snapshot.signed.version.get(), expected) {
        Err(error) => { return Err(error); },
        Ok(_) => {},
    }
    match check_signatures(root, &*snapshot) {
        Err(error) => { return Err(error); },
        Ok(_) => {},
    }
    match check_snapshot_rollback(root, &datastore.snapshot, &*snapshot) {
        Err(error) => { return Err(error); },
        Ok(_) => {},
    }
    match check_expired_at(datastore, &snapshot.signed, sys_time) {
        Err(error) => { return Err(error); },
        Ok(_) => {},
    }
    datastore.create_snapshot(share(&snapshot));
    Ok(snapshot)
}

/// Loads the snapshot metadata from what was fetched for it.
///
/// The system clock is read when the call begins; the reading is used, and
/// recorded, only if the document gets as far as the expiration check.
pub fn load_snapshot(
    root: &Signed<Root>,
    timestamp: &Signed<Timestamp>,
    datastore: &mut Datastore,
    metadata_base_url: &str,
    fetched: Fetched<Snapshot>,
) -> (loaded: Result<Arc<Signed<Snapshot>>, Error>)
    ensures
        exists|sys_time: UtcTime|
            (seen(loaded), final(datastore)@) == #[trigger] snapshot_outcome(
                root.signed,
                timestamp.signed,
                old(datastore)@,
                metadata_base_url@,
                fetched,
                sys_time,
            ),
        final(datastore)@.time_not_before(old(datastore)@),
{
    let sys_time = clock_now();
    load_snapshot_at(root, timestamp, datastore, metadata_base_url, fetched, sys_time)
}

/// What is fetched as targets metadata: the file that the snapshot metadata
/// lists as `targets.json`. Its length is bounded by the length listed
/// there, or by `max_targets_size` where none is listed; its digest is
/// checked where one is listed. That the snapshot metadata does not list the
/// file is reported against the timestamp role.
pub open spec fn targets_request_outcome(
    root: Root,
    snapshot: Snapshot,
    max_targets_size: u64,
    metadata_base_url: Seq<char>,
) -> Result<FetchRequestView, ErrorView> {
    if !snapshot.meta.contains("targets.json"@) {
        Err(ErrorView::MetaMissing { file: "targets.json"@, role: RoleType::Timestamp })
    } else {
        let meta = snapshot.meta.value_of("targets.json"@);
        let path = metadata_path(root.consistent_snapshot, meta.version.get() as nat, "targets.json"@);
        match join_url_outcome(metadata_base_url, path) {
            Err(error) => Err(error),
            Ok(url) => Ok(
                FetchRequestView {
                    url,
                    max_bytes: match meta.length {
                        Some(length) => length,
                        None => max_targets_size,
                    },
                    specifier: match meta.length {
                        Some(_) => "snapshot.json"@,
                        None => "max_targets_size parameter"@,
                    },
                    sha256: match meta.hashes {
                        Some(hashes) => Some(hashes.sha256@),
                        None => None,
                    },
                },
            ),
        }
    }
}

/// Says what to fetch as targets metadata.
pub fn targets_request(
    root: &Signed<Root>,
    snapshot: &Signed<Snapshot>,
    max_targets_size: u64,
    metadata_base_url: &str,
) -> (request: Result<FetchRequest, Error>)
    ensures
        seen_request(request) == targets_request_outcome(
            root.signed,
            snapshot.signed,
            max_targets_size,
            metadata_base_url@,
        ),
{
    let meta = match snapshot.signed.meta.get("targets.json") {
        None => {
            return Err(Error::MetaMissing { file: "targets.json", role: RoleType::Timestamp });
        },
        Some(meta) => meta,
    };
    let path = metadata_file(root.signed.consistent_snapshot, meta.version.get(), "targets.json");
    let url = match join_url(metadata_base_url, path) {
        Err(error) => { return Err(error); },
        Ok(url) => url,
    };
    let (max_bytes, specifier) = match meta.length {
        Some(length) => (length, "snapshot.json"),
        None => (max_targets_size, "max_targets_size parameter"),
    };
    let sha256 = match &meta.hashes {
        Some(hashes) => Some(vstd::slice::slice_to_vec(hashes.sha256.as_slice())),
        None => None,
    };
    Ok(FetchRequest { url, max_bytes, specifier, sha256 })
}

/// The verdict of the targets metadata trusted before on a new version.
pub open spec fn targets_rollback(
    root: Root,
    stored: Stored<Arc<Signed<Targets>>>,
    new_version: u64,
) -> Result<(), ErrorView> {
    match prior_outcome(root, stored, StoreFile::Targets) {
        Err(error) => Err(error),
        Ok(None) => Ok(()),
        Ok(Some(prior)) => rollback_verdict(RoleType::Targets, prior.signed.version.get(), new_version),
    }
}

/// What loading the targets metadata does, when `fetched` came back for the
/// request and the clock reads `sys_time`.
///
/// The first of these that fails decides: the request can be made; a
/// document arrived within its bounds; it has the version that the snapshot
/// metadata lists; it is signed by a threshold of the targets keys of
/// `root`; it is no older than the copy trusted before, where that copy
/// verifies; it expires after the clock sample. Then the document is written
/// to the datastore and is the result.
pub open spec fn targets_outcome(
    root: Root,
    snapshot: Snapshot,
    datastore: DatastoreView,
    max_targets_size: u64,
    metadata_base_url: Seq<char>,
    fetched: Fetched<Targets>,
    sys_time: UtcTime,
) -> (Result<Arc<Signed<Targets>>, ErrorView>, DatastoreView) {
    match targets_request_outcome(root, snapshot, max_targets_size, metadata_base_url) {
        Err(error) => (Err(error), datastore),
        Ok(request) => match fetch_verdict(request, fetched, RoleType::Targets) {
            Err(error) => (Err(error), datastore),
            Ok(targets) => match version_verdict(
                RoleType::Targets,
                targets.signed.version.get(),
                snapshot.meta.value_of("targets.json"@).version.get(),
            ) {
                Err(error) => (Err(error), datastore),
                Ok(_) => match signature_verdict(root, RoleType::Targets, *targets) {
                    Err(error) => (Err(error), datastore),
                    Ok(_) => match targets_rollback(
                        root,
                        datastore.targets,
                        targets.signed.version.get(),
                    ) {
                        Err(error) => (Err(error), datastore),
                        Ok(_) => {
                            let (fresh, sampled) = freeze_outcome(
                                datastore,
                                sys_time,
                                RoleType::Targets,
                                targets.signed.expires,
                            );
                            match fresh {
                                Err(error) => (Err(error), sampled),
                                Ok(_) => (Ok(targets), sampled.with_targets(targets)),
                            }
                        },
                    },
                },
            },
        },
    }
}

/// Loads the targets metadata from what was fetched for it, with `sys_time`
/// as the reading of the system clock.
pub fn load_targets_at(
    root: &Signed<Root>,
    snapshot: &Signed<Snapshot>,
    datastore: &mut Datastore,
    max_targets_size: u64,
    metadata_base_url: &str,
    fetched: Fetched<Targets>,
    sys_time: UtcTime,
) -> (loaded: Result<Arc<Signed<Targets>>, Error>)
    ensures
        (seen(loaded), final(datastore)@) == targets_outcome(
            root.signed,
            snapshot.signed,
            old(datastore)@,
            max_targets_size,
            metadata_base_url@,
            fetched,
            sys_time,
        ),
        final(datastore)@.time_not_before(old(datastore)@),
{
    let request = match targets_request(root, snapshot, max_targets_size, metadata_base_url) {
        Err(error) => { return Err(error); },
        Ok(request) => request,
    };
    let targets = match request.accept(fetched, RoleType::Targets) {
        Err(error) => { return Err(error); },
        Ok(targets) => targets,
    };
    let expected = match snapshot.signed.meta.get("targets.json") {
        None => { return Err(Error::MetaMissing { file: "targets.json", role: RoleType::Timestamp }); },
        Some(meta) => meta.version.get(),
    };
    match check_version(RoleType::Targets, targets.signed.version.get(), expected) {
        Err(error) => { return Err(error); },
        Ok(_) => {},
    }
    match check_signatures(root, &*targets) {
        Err(error) => { return Err(error); },
        Ok(_) => {},
    }
    match trusted_prior(root, &datastore.targets, StoreFile::Targets) {
        Err(error) => { return Err(error); },
        Ok(None) => {},
        Ok(Some(prior)) => {
            match check_rollback(RoleType::Targets, prior.signed.version.get(), targets.signed.version.get()) {
                Err(error) => { return Err(error); },
                Ok(_) => {},
            }
        },
    }
    match check_expired_at(datastore, &targets.signed, sys_time) {
        Err(error) => { return Err(error); },
        Ok(_) => {},
    }
    datastore.create_targets(share(&targets));
    Ok(targets)
}

/// Loads the targets metadata from what was fetched for it.
///
/// The system clock is read when the call begins; the reading is used, and
/// recorded, only if the document gets as far as the expiration check.
pub fn load_targets(
    root: &Signed<Root>,
    snapshot: &Signed<Snapshot>,
    datastore: &mut Datastore,
    max_targets_size: u64,
    metadata_base_url: &str,
    fetched: Fetched<Targets>,
) -> (loaded: Result<Arc<Signed<Targets>>, Error>)
    ensures
        exists|sys_time: UtcTime|
            (seen(loaded), final(datastore)@) == #[trigger] targets_outcome(
                root.signed,
                snapshot.signed,
                old(datastore)@,
                max_targets_size,
                metadata_base_url@,
                fetched,
                sys_time,
            ),
        final(datastore)@.time_not_before(old(datastore)@),
{
    let sys_time = clock_now();
    load_targets_at(root, snapshot, datastore, max_targets_size, metadata_base_url, fetched, sys_time)
}

} // verus!
