//! What holds of every load: trusted metadata has not expired, is no older
//! than what was trusted before, and the clock is never taken to run
//! backward.

use vstd::prelude::*;
use std::sync::Arc;
use crate::clock::clock_outcome;
use crate::datastore::{DatastoreView, Stored};
use crate::error::RoleType;
use crate::fetch::Fetched;
use crate::limits::Limits;
use crate::metadata::{snapshot_outcome, targets_outcome, timestamp_outcome};
use crate::repository::{earliest_expiration, read_target_outcome, Repository};
use crate::root::{root_outcome, root_request_outcome, RootLoader, RootProgress};
use crate::schema::{Root, Signed, Snapshot, Targets, Timestamp};
use crate::time::UtcTime;
use crate::verify::verified;

verus! {

/// Root metadata that a load settles on expires after the clock sample that
/// the step took, and that sample is then the latest known time.
pub proof fn lemma_trusted_root_is_fresh(
    state: RootLoader,
    datastore: DatastoreView,
    max_root_size: u64,
    max_root_updates: u64,
    metadata_base_url: Seq<char>,
    fetched: Fetched<Root>,
    sys_time: UtcTime,
)
    ensures
        ({
            let (outcome, after) = root_outcome(
                state,
                datastore,
                max_root_size,
                max_root_updates,
                metadata_base_url,
                fetched,
                sys_time,
            );
            outcome matches Ok(RootProgress::Done(root)) ==> {
                &&& root == state.root()
                &&& sys_time.before(root.signed.expires)
                &&& after.latest_known_time == Stored::Present(sys_time)
            }
        }),
{
}

/// Timestamp metadata that is loaded expires after the clock sample that the
/// load took, and that sample is then the latest known time.
pub proof fn lemma_trusted_timestamp_is_fresh(
    root: Root,
    datastore: DatastoreView,
    max_timestamp_size: u64,
    metadata_base_url: Seq<char>,
    fetched: Fetched<Timestamp>,
    sys_time: UtcTime,
)
    ensures
        ({
            let (outcome, after) = timestamp_outcome(
                root,
                datastore,
                max_timestamp_size,
                metadata_base_url,
                fetched,
                sys_time,
            );
            outcome matches Ok(timestamp) ==> {
                &&& sys_time.before(timestamp.signed.expires)
                &&& after.latest_known_time == Stored::Present(sys_time)
                &&& after.timestamp == Stored::Present(timestamp)
                &&& verified(root, RoleType::Timestamp, *timestamp)
            }
        }),
{
}

/// Snapshot metadata that is loaded expires after the clock sample that the
/// load took, and that sample is then the latest known time. It has the
/// version that the timestamp metadata lists.
pub proof fn lemma_trusted_snapshot_is_fresh(
    root: Root,
    timestamp: Timestamp,
    datastore: DatastoreView,
    metadata_base_url: Seq<char>,
    fetched: Fetched<Snapshot>,
    sys_time: UtcTime,
)
    ensures
        ({
            let (outcome, after) = snapshot_outcome(
                root,
                timestamp,
                datastore,
                metadata_base_url,
                fetched,
                sys_time,
            );
            outcome matches Ok(snapshot) ==> {
                &&& sys_time.before(snapshot.signed.expires)
                &&& after.latest_known_time == Stored::Present(sys_time)
                &&& after.snapshot == Stored::Present(snapshot)
                &&& verified(root, RoleType::Snapshot, *snapshot)
                &&& timestamp.meta.contains("snapshot.json"@)
                &&& snapshot.signed.version.get() == timestamp.meta.value_of("snapshot.json"@).version.get()
            }
        }),
{
}

/// Targets metadata that is loaded expires after the clock sample that the
/// load took, and that sample is then the latest known time. It has the
/// version that the snapshot metadata lists.
pub proof fn lemma_trusted_targets_is_fresh(
    root: Root,
    snapshot: Snapshot,
    datastore: DatastoreView,
    max_targets_size: u64,
    metadata_base_url: Seq<char>,
    fetched: Fetched<Targets>,
    sys_time: UtcTime,
)
    ensures
        ({
            let (outcome, after) = targets_outcome(
                root,
                snapshot,
                datastore,
                max_targets_size,
                metadata_base_url,
                fetched,
                sys_time,
            );
            outcome matches Ok(targets) ==> {
                &&& sys_time.before(targets.signed.expires)
                &&& after.latest_known_time == Stored::Present(sys_time)
                &&& after.targets == Stored::Present(targets)
                &&& verified(root, RoleType::Targets, *targets)
                &&& snapshot.meta.contains("targets.json"@)
                &&& targets.signed.version.get() == snapshot.meta.value_of("targets.json"@).version.get()
            }
        }),
{
}

/// What a load comes to from the step that settles on the trusted root
/// metadata: the four trusted documents and the datastore that it leaves,
/// where every stage succeeds; `None` where one of them fails, or the step
/// does not settle. Each stage has its own answer from the transport and its
/// own reading of the clock.
pub open spec fn load_outcome(
    state: RootLoader,
    datastore: DatastoreView,
    limits: Limits,
    metadata_base_url: Seq<char>,
    fetched: (Fetched<Root>, Fetched<Timestamp>, Fetched<Snapshot>, Fetched<Targets>),
    sys_time: (UtcTime, UtcTime, UtcTime, UtcTime),
) -> Option<
    (
        Arc<Signed<Root>>,
        Arc<Signed<Timestamp>>,
        Arc<Signed<Snapshot>>,
        Arc<Signed<Targets>>,
        DatastoreView,
    ),
> {
    match root_outcome(
        state,
        datastore,
        limits.max_root_size,
        limits.max_root_updates,
        metadata_base_url,
        fetched.0,
        sys_time.0,
    ) {
        (Ok(RootProgress::Done(root)), after_root) => match timestamp_outcome(
            root.signed,
            after_root,
            limits.max_timestamp_size,
            metadata_base_url,
            fetched.1,
            sys_time.1,
        ) {
            (Ok(timestamp), after_timestamp) => match snapshot_outcome(
                root.signed,
                timestamp.signed,
                after_timestamp,
                metadata_base_url,
                fetched.2,
                sys_time.2,
            ) {
                (Ok(snapshot), after_snapshot) => match targets_outcome(
                    root.signed,
                    snapshot.signed,
                    after_snapshot,
                    limits.max_targets_size,
                    metadata_base_url,
                    fetched.3,
                    sys_time.3,
                ) {
                    (Ok(targets), after_targets) => Some(
                        (root, timestamp, snapshot, targets, after_targets),
                    ),
                    _ => None,
                },
                _ => None,
            },
            _ => None,
        },
        _ => None,
    }
}

/// In a load that succeeds, each of the four documents expires after the
/// clock sample of its own stage; the samples do not go backward from stage
/// to stage, and the last of them is the latest known time that the load
/// leaves; and the earliest of the four expirations is after the first
/// sample.
///
/// A document may still expire between its own stage and the end of the
/// load: nothing is said of it against a later sample.
pub proof fn lemma_loaded_metadata_is_fresh(
    state: RootLoader,
    datastore: DatastoreView,
    limits: Limits,
    metadata_base_url: Seq<char>,
    fetched: (Fetched<Root>, Fetched<Timestamp>, Fetched<Snapshot>, Fetched<Targets>),
    sys_time: (UtcTime, UtcTime, UtcTime, UtcTime),
)
    ensures
        load_outcome(state, datastore, limits, metadata_base_url, fetched, sys_time) matches Some(
            (root, timestamp, snapshot, targets, after),
        ) ==> {
            &&& sys_time.0.before(root.signed.expires)
            &&& sys_time.1.before(timestamp.signed.expires)
            &&& sys_time.2.before(snapshot.signed.expires)
            &&& sys_time.3.before(targets.signed.expires)
            &&& sys_time.0.not_after(sys_time.1)
            &&& sys_time.1.not_after(sys_time.2)
            &&& sys_time.2.not_after(sys_time.3)
            &&& after.latest_known_time == Stored::Present(sys_time.3)
            &&& after.time_not_before(datastore)
            &&& after.timestamp == Stored::Present(timestamp)
            &&& after.snapshot == Stored::Present(snapshot)
            &&& after.targets == Stored::Present(targets)
            &&& sys_time.0.before(
                earliest_expiration(
                    root.signed.expires,
                    timestamp.signed.expires,
                    snapshot.signed.expires,
                    targets.signed.expires,
                ).0,
            )
        },
{
}

/// The earliest expiration is at or before the expiration of each of the
/// four roles, and is the expiration of the role that is named with it.
pub proof fn lemma_earliest_expiration(
    root: UtcTime,
    timestamp: UtcTime,
    snapshot: UtcTime,
    targets: UtcTime,
)
    ensures
        ({
            let (earliest, role) = earliest_expiration(root, timestamp, snapshot, targets);
            &&& earliest.not_after(root)
            &&& earliest.not_after(timestamp)
            &&& earliest.not_after(snapshot)
            &&& earliest.not_after(targets)
            &&& earliest == match role {
                RoleType::Root => root,
                RoleType::Timestamp => timestamp,
                RoleType::Snapshot => snapshot,
                RoleType::Targets => targets,
            }
        }),
{
}

/// Whatever a step of a load or a request for a target does, the latest
/// known time in the datastore does not move backward.
pub proof fn lemma_latest_known_time_never_decreases(
    datastore: DatastoreView,
    sys_time: UtcTime,
    state: RootLoader,
    root: Root,
    timestamp: Timestamp,
    snapshot: Snapshot,
    repository: Repository,
    max_bytes: u64,
    max_root_updates: u64,
    metadata_base_url: Seq<char>,
    name: Seq<char>,
    fetched_root: Fetched<Root>,
    fetched_timestamp: Fetched<Timestamp>,
    fetched_snapshot: Fetched<Snapshot>,
    fetched_targets: Fetched<Targets>,
)
    ensures
        clock_outcome(datastore, sys_time).1.time_not_before(datastore),
        root_outcome(
            state,
            datastore,
            max_bytes,
            max_root_updates,
            metadata_base_url,
            fetched_root,
            sys_time,
        ).1.time_not_before(datastore),
        timestamp_outcome(
            root,
            datastore,
            max_bytes,
            metadata_base_url,
            fetched_timestamp,
            sys_time,
        ).1.time_not_before(datastore),
        snapshot_outcome(
            root,
            timestamp,
            datastore,
            metadata_base_url,
            fetched_snapshot,
            sys_time,
        ).1.time_not_before(datastore),
        targets_outcome(
            root,
            snapshot,
            datastore,
            max_bytes,
            metadata_base_url,
            fetched_targets,
            sys_time,
        ).1.time_not_before(datastore),
        read_target_outcome(repository, datastore, name, sys_time).1.time_not_before(datastore),
{
}

/// Not moving backward carries over from step to step.
pub proof fn lemma_time_not_before_transitive(
    first: DatastoreView,
    second: DatastoreView,
    third: DatastoreView,
)
    requires
        second.time_not_before(first),
        third.time_not_before(second),
    ensures
        third.time_not_before(first),
{
}

/// Timestamp metadata that is loaded is no older than the copy trusted
/// before, where that copy is signed by a threshold of the timestamp keys of
/// the trusted root metadata.
pub proof fn lemma_timestamp_not_rolled_back(
    root: Root,
    datastore: DatastoreView,
    max_timestamp_size: u64,
    metadata_base_url: Seq<char>,
    fetched: Fetched<Timestamp>,
    sys_time: UtcTime,
    prior: Arc<Signed<Timestamp>>,
)
    requires
        datastore.timestamp == Stored::Present(prior),
        verified(root, RoleType::Timestamp, *prior),
    ensures
        timestamp_outcome(
            root,
            datastore,
            max_timestamp_size,
            metadata_base_url,
            fetched,
            sys_time,
        ).0 matches Ok(timestamp) ==> prior.signed.version.get() <= timestamp.signed.version.get(),
{
}

/// Snapshot metadata that is loaded is no older than the copy trusted
/// before, where that copy is signed by a threshold of the snapshot keys of
/// the trusted root metadata; and the targets metadata that it lists is no
/// older than the one listed before.
pub proof fn lemma_snapshot_not_rolled_back(
    root: Root,
    timestamp: Timestamp,
    datastore: DatastoreView,
    metadata_base_url: Seq<char>,
    fetched: Fetched<Snapshot>,
    sys_time: UtcTime,
    prior: Arc<Signed<Snapshot>>,
)
    requires
        datastore.snapshot == Stored::Present(prior),
        verified(root, RoleType::Snapshot, *prior),
    ensures
        snapshot_outcome(root, timestamp, datastore, metadata_base_url, fetched, sys_time).0 matches Ok(
            snapshot,
        ) ==> {
            &&& prior.signed.version.get() <= snapshot.signed.version.get()
            &&& prior.signed.meta.contains("targets.json"@) ==> {
                &&& snapshot.signed.meta.contains("targets.json"@)
                &&& prior.signed.meta.value_of("targets.json"@).version.get()
                    <= snapshot.signed.meta.value_of("targets.json"@).version.get()
            }
        },
{
}

/// Targets metadata that is loaded is no older than the copy trusted before,
/// where that copy is signed by a threshold of the targets keys of the
/// trusted root metadata.
pub proof fn lemma_targets_not_rolled_back(
    root: Root,
    snapshot: Snapshot,
    datastore: DatastoreView,
    max_targets_size: u64,
    metadata_base_url: Seq<char>,
    fetched: Fetched<Targets>,
    sys_time: UtcTime,
    prior: Arc<Signed<Targets>>,
)
    requires
        datastore.targets == Stored::Present(prior),
        verified(root, RoleType::Targets, *prior),
    ensures
        targets_outcome(
            root,
            snapshot,
            datastore,
            max_targets_size,
            metadata_base_url,
            fetched,
            sys_time,
        ).0 matches Ok(targets) ==> prior.signed.version.get() <= targets.signed.version.get(),
{
}

/// A step of the root update that goes on has accepted a version above the
/// trusted one, signed by a threshold of the root keys of the trusted
/// version and of its own, and has left the datastore alone. It was taken
/// with fewer than `max_root_updates` versions passed.
pub proof fn lemma_root_step_goes_up(
    state: RootLoader,
    datastore: DatastoreView,
    max_root_size: u64,
    max_root_updates: u64,
    metadata_base_url: Seq<char>,
    fetched: Fetched<Root>,
    sys_time: UtcTime,
)
    ensures
        ({
            let (outcome, after) = root_outcome(
                state,
                datastore,
                max_root_size,
                max_root_updates,
                metadata_base_url,
                fetched,
                sys_time,
            );
            outcome matches Ok(RootProgress::Continue(next)) ==> {
                &&& after == datastore
                &&& next.shipped() == state.shipped()
                &&& state.root().signed.version.get() < next.root().signed.version.get()
                &&& verified(state.root().signed, RoleType::Root, *next.root())
                &&& verified(next.root().signed, RoleType::Root, *next.root())
                &&& state.updates() < max_root_updates
                &&& state.updates() < next.updates()
            }
        }),
{
    let (outcome, after) = root_outcome(
        state,
        datastore,
        max_root_size,
        max_root_updates,
        metadata_base_url,
        fetched,
        sys_time,
    );
    if let Ok(RootProgress::Continue(next)) = outcome {
        let request = root_request_outcome(
            state,
            max_root_size,
            max_root_updates,
            metadata_base_url,
        );
        assert(request is Ok);
        let candidate = crate::fetch::fetch_verdict(request->Ok_0, fetched, RoleType::Root)->Ok_0;
        state.lemma_after(candidate);
    }
}

/// The state that the root update is in after it has gone on through every
/// one of `fetched`, in order; `None` where one of those steps failed or
/// settled on the trusted root metadata.
pub open spec fn root_after(
    state: RootLoader,
    datastore: DatastoreView,
    max_root_size: u64,
    max_root_updates: u64,
    metadata_base_url: Seq<char>,
    fetched: Seq<Fetched<Root>>,
    sys_time: UtcTime,
) -> Option<RootLoader>
    decreases fetched.len(),
{
    if fetched.len() == 0 {
        Some(state)
    } else {
        match root_outcome(
            state,
            datastore,
            max_root_size,
            max_root_updates,
            metadata_base_url,
            fetched[0],
            sys_time,
        ).0 {
            Ok(RootProgress::Continue(next)) => root_after(
                next,
                datastore,
                max_root_size,
                max_root_updates,
                metadata_base_url,
                fetched.drop_first(),
                sys_time,
            ),
            _ => None,
        }
    }
}

/// The root update goes on at most `max_root_updates` times: a load that
/// has accepted one version of the root metadata after another has taken no
/// more than that many steps, counted from the version it began with, and is
/// at least as many versions above it.
pub proof fn lemma_root_updates_bounded(
    state: RootLoader,
    datastore: DatastoreView,
    max_root_size: u64,
    max_root_updates: u64,
    metadata_base_url: Seq<char>,
    fetched: Seq<Fetched<Root>>,
    sys_time: UtcTime,
)
    requires
        0 <= state.updates(),
    ensures
        root_after(
            state,
            datastore,
            max_root_size,
            max_root_updates,
            metadata_base_url,
            fetched,
            sys_time,
        ) matches Some(last) ==> {
            &&& last.shipped() == state.shipped()
            &&& state.updates() + fetched.len() <= last.updates()
            &&& fetched.len() > 0 ==> state.updates() + fetched.len() <= max_root_updates
        },
    decreases fetched.len(),
{
    if fetched.len() > 0 {
        lemma_root_step_goes_up(
            state,
            datastore,
            max_root_size,
            max_root_updates,
            metadata_base_url,
            fetched[0],
            sys_time,
        );
        let outcome = root_outcome(
            state,
            datastore,
            max_root_size,
            max_root_updates,
            metadata_base_url,
            fetched[0],
            sys_time,
        ).0;
        if let Ok(RootProgress::Continue(next)) = outcome {
            lemma_root_updates_bounded(
                next,
                datastore,
                max_root_size,
                max_root_updates,
                metadata_base_url,
                fetched.drop_first(),
                sys_time,
            );
        }
    }
}

} // verus!
