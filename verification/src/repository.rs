//! A repository whose metadata has been loaded and verified, and the stages
//! of the load that leads to it.

use vstd::prelude::*;
use vstd::std_specs::convert::FromSpecImpl;
use std::sync::Arc;
use crate::clock::{check_expiration_at, freeze_outcome};
use crate::datastore::{Datastore, DatastoreView};
use crate::error::{Error, ErrorView, RoleType};
use crate::fetch::{FetchRequest, FetchRequestView, Fetched};
use crate::limits::Limits;
use crate::metadata::{
    load_snapshot_at, load_targets_at, load_timestamp_at, seen_request, snapshot_outcome,
    snapshot_request, snapshot_request_outcome, targets_outcome, targets_request,
    targets_request_outcome, timestamp_outcome, timestamp_request, timestamp_request_outcome,
};
use crate::named_map::NamedMap;
use crate::root::{
    load_root_at, root_outcome, root_request, root_request_outcome, trust_outcome, trust_root,
    RootLoader, RootProgress,
};
use crate::schema::{Root, Signed, Snapshot, Targets, Timestamp};
use crate::time::{clock_now, UtcTime};
use crate::urls::{join_url, join_url_outcome, parse_url, parse_url_outcome, target_file, target_path};

verus! {

/// What a load is given.
#[derive(Debug, Clone)]
pub struct Settings {
    /// The trusted root metadata, shipped with the application by some means
    /// other than the repository, as it decoded; `None` where it did not
    /// decode. It may be out of date: the load moves on to the latest root
    /// metadata that the repository offers.
    pub root: Option<Arc<Signed<Root>>>,
    /// The base URL of the metadata of the repository.
    pub metadata_base_url: String,
    /// The base URL of the targets of the repository.
    pub target_base_url: String,
    /// The limits on what is fetched.
    pub limits: Limits,
}

/// What a load keeps from its settings: the limits and the parsed base URLs.
#[derive(Debug, Clone)]
pub struct Context {
    /// The limits on what is fetched.
    pub limits: Limits,
    /// The base URL of the metadata, ending with a slash.
    pub metadata_base_url: String,
    /// The base URL of the targets, ending with a slash.
    pub target_base_url: String,
}

/// A target of a repository.
#[derive(Debug, PartialEq, Eq)]
pub struct Target {
    /// What else the repository says of the target: each value is a JSON text.
    pub custom: NamedMap<String>,
    /// The SHA-256 digest of the target.
    pub sha256: Vec<u8>,
    /// An upper bound on the size of the target in bytes; not necessarily its
    /// size.
    pub length: u64,
}

impl From<crate::schema::Target> for Target {
    fn from(target: crate::schema::Target) -> (converted: Self) {
        Target { custom: target.custom, sha256: target.hashes.sha256, length: target.length }
    }
}

impl FromSpecImpl<crate::schema::Target> for Target {
    open spec fn obeys_from_spec() -> bool {
        true
    }

    open spec fn from_spec(target: crate::schema::Target) -> Self {
        Target { custom: target.custom, sha256: target.hashes.sha256, length: target.length }
    }
}

impl Target {
    /// Whether this target says what the targets metadata says in `source`.
    pub open spec fn describes(self, source: crate::schema::Target) -> bool {
        &&& self.length == source.length
        &&& self.sha256@ == source.hashes.sha256@
        &&& self.custom.names() == source.custom.names()
        &&& self.custom.values() == source.custom.values()
    }
}

/// Whether `targets` lists the targets of `source`: the same names in the
/// same order, each with what `source` says of it.
pub open spec fn targets_match(
    targets: NamedMap<Target>,
    source: NamedMap<crate::schema::Target>,
) -> bool {
    &&& targets.names() == source.names()
    &&& targets.values().len() == source.values().len()
    &&& forall|i: int|
        0 <= i < targets.values().len() ==> (#[trigger] targets.values()[i]).describes(
            source.values()[i],
        )
}

/// The earliest of the expirations of the four roles, and the role that it
/// belongs to: the first to reach it in the order root, timestamp, snapshot,
/// targets.
pub open spec fn earliest_expiration(
    root: UtcTime,
    timestamp: UtcTime,
    snapshot: UtcTime,
    targets: UtcTime,
) -> (UtcTime, RoleType) {
    let first = (root, RoleType::Root);
    let second = if timestamp.before(first.0) {
        (timestamp, RoleType::Timestamp)
    } else {
        first
    };
    let third = if snapshot.before(second.0) {
        (snapshot, RoleType::Snapshot)
    } else {
        second
    };
    if targets.before(third.0) {
        (targets, RoleType::Targets)
    } else {
        third
    }
}

/// A repository whose metadata has been loaded and verified.
#[derive(Debug)]
pub struct Repository {
    consistent_snapshot: bool,
    earliest_expiration: UtcTime,
    earliest_expiration_role: RoleType,
    target_base_url: String,
    targets: NamedMap<Target>,
}

/// A load that is establishing the trusted root metadata.
#[derive(Debug)]
pub struct RootStage {
    context: Context,
    state: RootLoader,
}

/// A load that has the trusted root metadata and is to load the timestamp
/// metadata.
#[derive(Debug)]
pub struct TimestampStage {
    context: Context,
    root: Arc<Signed<Root>>,
}

/// A load that has the timestamp metadata and is to load the snapshot
/// metadata.
#[derive(Debug)]
pub struct SnapshotStage {
    context: Context,
    root: Arc<Signed<Root>>,
    timestamp: Arc<Signed<Timestamp>>,
}

/// A load that has the snapshot metadata and is to load the targets
/// metadata.
#[derive(Debug)]
pub struct TargetsStage {
    context: Context,
    root: Arc<Signed<Root>>,
    timestamp: Arc<Signed<Timestamp>>,
    snapshot: Arc<Signed<Snapshot>>,
}

/// Where a step of the root update leads.
#[derive(Debug)]
pub enum RootStep {
    /// A later version of the root metadata was accepted, and the one after
    /// it is to be fetched.
    Continue(RootStage),
    /// The trusted root metadata is settled, and the timestamp metadata is
    /// to be fetched.
    Done(TimestampStage),
}

/// What beginning a load does: both base URLs are parsed, the metadata base
/// first, and then the shipped root metadata is taken on trust, where it
/// decoded and verifies itself.
pub open spec fn begin_outcome(settings: Settings) -> Result<
    (Seq<char>, Seq<char>, Arc<Signed<Root>>),
    ErrorView,
> {
    match parse_url_outcome(settings.metadata_base_url@) {
        Err(error) => Err(error),
        Ok(metadata_base_url) => match parse_url_outcome(settings.target_base_url@) {
            Err(error) => Err(error),
            Ok(target_base_url) => match trust_outcome(settings.root) {
                Err(error) => Err(error),
                Ok(root) => Ok((metadata_base_url, target_base_url, root)),
            },
        },
    }
}

impl RootStage {
    /// The limits and base URLs of the load.
    pub closed spec fn context(self) -> Context {
        self.context
    }

    /// The root metadata trusted so far.
    pub closed spec fn state(self) -> RootLoader {
        self.state
    }

    /// What is to be fetched at this stage.
    pub open spec fn request_outcome(self) -> Result<FetchRequestView, ErrorView> {
        root_request_outcome(
            self.state(),
            self.context().limits.max_root_size,
            self.context().limits.max_root_updates,
            self.context().metadata_base_url@,
        )
    }

    /// Whether `result` and `after` are what this stage comes to, from the
    /// datastore `before`, when `fetched` came back for its request and the
    /// clock reads `sys_time`: what [`root_outcome`] says, with the load
    /// carried on to its next stage.
    pub open spec fn resumed(
        self,
        before: DatastoreView,
        fetched: Fetched<Root>,
        sys_time: UtcTime,
        result: Result<RootStep, Error>,
        after: DatastoreView,
    ) -> bool {
        let (outcome, datastore) = root_outcome(
            self.state(),
            before,
            self.context().limits.max_root_size,
            self.context().limits.max_root_updates,
            self.context().metadata_base_url@,
            fetched,
            sys_time,
        );
        &&& after == datastore
        &&& match outcome {
            Err(error) => result is Err && result->Err_0@ == error,
            Ok(RootProgress::Continue(state)) => {
                &&& result matches Ok(RootStep::Continue(next))
                &&& next.state() == state
                &&& next.context() == self.context()
            },
            Ok(RootProgress::Done(root)) => {
                &&& result matches Ok(RootStep::Done(next))
                &&& next.root() == root
                &&& next.context() == self.context()
            },
        }
    }

    /// Says what to fetch at this stage.
    pub fn request(&self) -> (request: Result<FetchRequest, Error>)
        ensures
            seen_request(request) == self.request_outcome(),
    {
        root_request(
            &self.state,
            self.context.limits.max_root_size,
            self.context.limits.max_root_updates,
            self.context.metadata_base_url.as_str(),
        )
    }

    /// Carries the load on with what was fetched for the request of this
    /// stage, with `sys_time` as the reading of the system clock.
    pub fn resume_at(self, fetched: Fetched<Root>, datastore: &mut Datastore, sys_time: UtcTime) -> (result:
        Result<RootStep, Error>)
        ensures
            self.resumed(old(datastore)@, fetched, sys_time, result, final(datastore)@),
            final(datastore)@.time_not_before(old(datastore)@),
    {
        let RootStage { context, state } = self;
        let progress = load_root_at(
            state,
            datastore,
            context.limits.max_root_size,
            context.limits.max_root_updates,
            context.metadata_base_url.as_str(),
            fetched,
            sys_time,
        );
        match progress {
            Err(error) => Err(error),
            Ok(RootProgress::Continue(state)) => Ok(RootStep::Continue(RootStage { context, state })),
            Ok(RootProgress::Done(root)) => Ok(RootStep::Done(TimestampStage { context, root })),
        }
    }

    /// Carries the load on with what was fetched for the request of this
    /// stage.
    pub fn resume(self, fetched: Fetched<Root>, datastore: &mut Datastore) -> (result: Result<
        RootStep,
        Error,
    >)
        ensures
            exists|sys_time: UtcTime|
                #[trigger] self.resumed(
                    old(datastore)@,
                    fetched,
                    sys_time,
                    result,
                    final(datastore)@,
                ),
            final(datastore)@.time_not_before(old(datastore)@),
    {
        let sys_time = clock_now();
        self.resume_at(fetched, datastore, sys_time)
    }
}

impl TimestampStage {
    /// The limits and base URLs of the load.
    pub closed spec fn context(self) -> Context {
        self.context
    }

    /// The trusted root metadata.
    pub closed spec fn root(self) -> Arc<Signed<Root>> {
        self.root
    }

    /// What is to be fetched at this stage.
    pub open spec fn request_outcome(self) -> Result<FetchRequestView, ErrorView> {
        timestamp_request_outcome(
            self.context().metadata_base_url@,
            self.context().limits.max_timestamp_size,
        )
    }

    /// Whether `result` and `after` are what this stage comes to, from the
    /// datastore `before`, when `fetched` came back for its request and the
    /// clock reads `sys_time`: what [`timestamp_outcome`] says, with the load
    /// carried on to its next stage.
    pub open spec fn resumed(
        self,
        before: DatastoreView,
        fetched: Fetched<Timestamp>,
        sys_time: UtcTime,
        result: Result<SnapshotStage, Error>,
        after: DatastoreView,
    ) -> bool {
        let (outcome, datastore) = timestamp_outcome(
            self.root().signed,
            before,
            self.context().limits.max_timestamp_size,
            self.context().metadata_base_url@,
            fetched,
            sys_time,
        );
        &&& after == datastore
        &&& match outcome {
            Err(error) => result is Err && result->Err_0@ == error,
            Ok(timestamp) => {
                &&& result matches Ok(next)
                &&& next.timestamp() == timestamp
                &&& next.root() == self.root()
                &&& next.context() == self.context()
            },
        }
    }

    /// Says what to fetch at this stage.
    pub fn request(&self) -> (request: Result<FetchRequest, Error>)
        ensures
            seen_request(request) == self.request_outcome(),
    {
        timestamp_request(
            self.context.metadata_base_url.as_str(),
            self.context.limits.max_timestamp_size,
        )
    }

    /// Carries the load on with what was fetched for the request of this
    /// stage, with `sys_time` as the reading of the system clock.
    pub fn resume_at(
        self,
        fetched: Fetched<Timestamp>,
        datastore: &mut Datastore,
        sys_time: UtcTime,
    ) -> (result: Result<SnapshotStage, Error>)
        ensures
            self.resumed(old(datastore)@, fetched, sys_time, result, final(datastore)@),
            final(datastore)@.time_not_before(old(datastore)@),
    {
        let TimestampStage { context, root } = self;
        let loaded = load_timestamp_at(
            &*root,
            datastore,
            context.limits.max_timestamp_size,
            context.metadata_base_url.as_str(),
            fetched,
            sys_time,
        );
        match loaded {
            Err(error) => Err(error),
            Ok(timestamp) => Ok(SnapshotStage { context, root, timestamp }),
        }
    }

    /// Carries the load on with what was fetched for the request of this
    /// stage.
    pub fn resume(self, fetched: Fetched<Timestamp>, datastore: &mut Datastore) -> (result: Result<
        SnapshotStage,
        Error,
    >)
        ensures
            exists|sys_time: UtcTime|
                #[trigger] self.resumed(
                    old(datastore)@,
                    fetched,
                    sys_time,
                    result,
                    final(datastore)@,
                ),
            final(datastore)@.time_not_before(old(datastore)@),
    {
        let sys_time = clock_now();
        self.resume_at(fetched, datastore, sys_time)
    }
}

impl SnapshotStage {
    /// The limits and base URLs of the load.
    pub closed spec fn context(self) -> Context {
        self.context
    }

    /// The trusted root metadata.
    pub closed spec fn root(self) -> Arc<Signed<Root>> {
        self.root
    }

    /// The trusted timestamp metadata.
    pub closed spec fn timestamp(self) -> Arc<Signed<Timestamp>> {
        self.timestamp
    }

    /// What is to be fetched at this stage.
    pub open spec fn request_outcome(self) -> Result<FetchRequestView, ErrorView> {
        snapshot_request_outcome(
            self.root().signed,
            self.timestamp().signed,
            self.context().metadata_base_url@,
        )
    }

    /// Whether `result` and `after` are what this stage comes to, from the
    /// datastore `before`, when `fetched` came back for its request and the
    /// clock reads `sys_time`: what [`snapshot_outcome`] says, with the load
    /// carried on to its next stage.
    pub open spec fn resumed(
        self,
        before: DatastoreView,
        fetched: Fetched<Snapshot>,
        sys_time: UtcTime,
        result: Result<TargetsStage, Error>,
        after: DatastoreView,
    ) -> bool {
        let (outcome, datastore) = snapshot_outcome(
            self.root().signed,
            self.timestamp().signed,
            before,
            self.context().metadata_base_url@,
            fetched,
            sys_time,
        );
        &&& after == datastore
        &&& match outcome {
            Err(error) => result is Err && result->Err_0@ == error,
            Ok(snapshot) => {
                &&& result matches Ok(next)
                &&& next.snapshot() == snapshot
                &&& next.timestamp() == self.timestamp()
                &&& next.root() == self.root()
                &&& next.context() == self.context()
            },
        }
    }

    /// Says what to fetch at this stage.
    pub fn request(&self) -> (request: Result<FetchRequest, Error>)
        ensures
            seen_request(request) == self.request_outcome(),
    {
        snapshot_request(&*self.root, &*self.timestamp, self.context.metadata_base_url.as_str())
    }

    /// Carries the load on with what was fetched for the request of this
    /// stage, with `sys_time` as the reading of the system clock.
    pub fn resume_at(
        self,
        fetched: Fetched<Snapshot>,
        datastore: &mut Datastore,
        sys_time: UtcTime,
    ) -> (result: Result<TargetsStage, Error>)
        ensures
            self.resumed(old(datastore)@, fetched, sys_time, result, final(datastore)@),
            final(datastore)@.time_not_before(old(datastore)@),
    {
        let SnapshotStage { context, root, timestamp } = self;
        let loaded = load_snapshot_at(
            &*root,
            &*timestamp,
            datastore,
            context.metadata_base_url.as_str(),
            fetched,
            sys_time,
        );
        match loaded {
            Err(error) => Err(error),
            Ok(snapshot) => Ok(TargetsStage { context, root, timestamp, snapshot }),
        }
    }

    /// Carries the load on with what was fetched for the request of this
    /// stage.
    pub fn resume(self, fetched: Fetched<Snapshot>, datastore: &mut Datastore) -> (result: Result<
        TargetsStage,
        Error,
    >)
        ensures
            exists|sys_time: UtcTime|
                #[trigger] self.resumed(
                    old(datastore)@,
                    fetched,
                    sys_time,
                    result,
                    final(datastore)@,
                ),
            final(datastore)@.time_not_before(old(datastore)@),
    {
        let sys_time = clock_now();
        self.resume_at(fetched, datastore, sys_time)
    }
}

/// Lists the targets of targets metadata as a repository shows them.
fn list_targets(source: &NamedMap<crate::schema::Target>) -> (targets: NamedMap<Target>)
    ensures
        targets_match(targets, *source),
{
    let mut targets: NamedMap<Target> = NamedMap::new();
    let count = source.len();
    let mut i: usize = 0;
    while i < count
        invariant
            i <= count,
            count == source.names().len(),
            count == source.values().len(),
            crate::named_map::distinct_names(source.names()),
            targets.names() == source.names().take(i as int),
            targets.values().len() == i,
            forall|k: int|
                0 <= k < i ==> (#[trigger] targets.values()[k]).describes(source.values()[k]),
        decreases count - i,
    {
        let name = source.name_at(i).clone();
        let entry = source.value_at(i);
        let copy = crate::schema::Target {
            length: entry.length,
            hashes: crate::schema::Hashes {
                sha256: vstd::slice::slice_to_vec(entry.hashes.sha256.as_slice()),
            },
            custom: entry.custom.duplicate(),
        };
        let target = Target::from(copy);
        proof {
            let listed = source.names().take(i as int);
            if listed.contains(name@) {
                let at = choose|at: int| 0 <= at < listed.len() && listed[at] == name@;
                assert(source.names()[at] != source.names()[i as int]);
            }
            assert(listed.push(name@) =~= source.names().take(i + 1));
        }
        let ghost before = targets;
        let (longer, _) = targets.insert(name, target);
        targets = longer;
        proof {
            assert forall|k: int| 0 <= k < i + 1 implies (#[trigger] targets.values()[k]).describes(
                source.values()[k],
            ) by {
                if k < i {
                    assert(targets.values()[k] == before.values()[k]);
                }
            }
        }
        i += 1;
    }
    assert(source.names().take(i as int) =~= source.names());
    targets
}

impl TargetsStage {
    /// The limits and base URLs of the load.
    pub closed spec fn context(self) -> Context {
        self.context
    }

    /// The trusted root metadata.
    pub closed spec fn root(self) -> Arc<Signed<Root>> {
        self.root
    }

    /// The trusted timestamp metadata.
    pub closed spec fn timestamp(self) -> Arc<Signed<Timestamp>> {
        self.timestamp
    }

    /// The trusted snapshot metadata.
    pub closed spec fn snapshot(self) -> Arc<Signed<Snapshot>> {
        self.snapshot
    }

    /// What is to be fetched at this stage.
    pub open spec fn request_outcome(self) -> Result<FetchRequestView, ErrorView> {
        targets_request_outcome(
            self.root().signed,
            self.snapshot().signed,
            self.context().limits.max_targets_size,
            self.context().metadata_base_url@,
        )
    }

    /// Whether `result` and `after` are what this stage comes to, from the
    /// datastore `before`, when `fetched` came back for its request and the
    /// clock reads `sys_time`: what [`targets_outcome`] says, and where that
    /// is a document, the repository built from the four trusted documents.
    pub open spec fn resumed(
        self,
        before: DatastoreView,
        fetched: Fetched<Targets>,
        sys_time: UtcTime,
        result: Result<Repository, Error>,
        after: DatastoreView,
    ) -> bool {
        let (outcome, datastore) = targets_outcome(
            self.root().signed,
            self.snapshot().signed,
            before,
            self.context().limits.max_targets_size,
            self.context().metadata_base_url@,
            fetched,
            sys_time,
        );
        &&& after == datastore
        &&& match outcome {
            Err(error) => result is Err && result->Err_0@ == error,
            Ok(targets) => {
                &&& result matches Ok(repository)
                &&& repository.built_from(
                    self.root().signed,
                    self.timestamp().signed,
                    self.snapshot().signed,
                    targets.signed,
                    self.context().target_base_url@,
                )
            },
        }
    }

    /// Says what to fetch at this stage.
    pub fn request(&self) -> (request: Result<FetchRequest, Error>)
        ensures
            seen_request(request) == self.request_outcome(),
    {
        targets_request(
            &*self.root,
            &*self.snapshot,
            self.context.limits.max_targets_size,
            self.context.metadata_base_url.as_str(),
        )
    }

    /// Ends the load with what was fetched for the request of this stage,
    /// with `sys_time` as the reading of the system clock.
    pub fn resume_at(
        self,
        fetched: Fetched<Targets>,
        datastore: &mut Datastore,
        sys_time: UtcTime,
    ) -> (result: Result<Repository, Error>)
        ensures
            self.resumed(old(datastore)@, fetched, sys_time, result, final(datastore)@),
            final(datastore)@.time_not_before(old(datastore)@),
    {
        let TargetsStage { context, root, timestamp, snapshot } = self;
        let loaded = load_targets_at(
            &*root,
            &*snapshot,
            datastore,
            context.limits.max_targets_size,
            context.metadata_base_url.as_str(),
            fetched,
            sys_time,
        );
        let targets = match loaded {
            Err(error) => { return Err(error); },
            Ok(targets) => targets,
        };
        let mut earliest_expiration = root.signed.expires;
        let mut earliest_expiration_role = RoleType::Root;
        if timestamp.signed.expires.is_before(&earliest_expiration) {
            earliest_expiration = timestamp.signed.expires;
            earliest_expiration_role = RoleType::Timestamp;
        }
        if snapshot.signed.expires.is_before(&earliest_expiration) {
            earliest_expiration = snapshot.signed.expires;
            earliest_expiration_role = RoleType::Snapshot;
        }
        if targets.signed.expires.is_before(&earliest_expiration) {
            earliest_expiration = targets.signed.expires;
            earliest_expiration_role = RoleType::Targets;
        }
        Ok(
            Repository {
                consistent_snapshot: root.signed.consistent_snapshot,
                earliest_expiration,
                earliest_expiration_role,
                target_base_url: context.target_base_url,
                targets: list_targets(&targets.signed.targets),
            },
        )
    }

    /// Ends the load with what was fetched for the request of this stage.
    pub fn resume(self, fetched: Fetched<Targets>, datastore: &mut Datastore) -> (result: Result<
        Repository,
        Error,
    >)
        ensures
            exists|sys_time: UtcTime|
                #[trigger] self.resumed(
                    old(datastore)@,
                    fetched,
                    sys_time,
                    result,
                    final(datastore)@,
                ),
            final(datastore)@.time_not_before(old(datastore)@),
    {
        let sys_time = clock_now();
        self.resume_at(fetched, datastore, sys_time)
    }
}

/// What asking for a target does, when the clock reads `sys_time`: the
/// metadata must not have expired, which is judged by the earliest of the
/// four expirations; a target that the repository does not list is `None`;
/// for one that it lists, the request says where to fetch it and the length
/// and digest that bound it.
pub open spec fn read_target_outcome(
    repository: Repository,
    datastore: DatastoreView,
    name: Seq<char>,
    sys_time: UtcTime,
) -> (Result<Option<FetchRequestView>, ErrorView>, DatastoreView) {
    let (fresh, sampled) = freeze_outcome(
        datastore,
        sys_time,
        repository.earliest_expiration_role(),
        repository.earliest_expiration(),
    );
    match fresh {
        Err(error) => (Err(error), sampled),
        Ok(_) => if !repository.spec_targets().contains(name) {
            (Ok(None), sampled)
        } else {
            let target = repository.spec_targets().value_of(name);
            let path = target_path(repository.consistent_snapshot(), target.sha256@, name);
            match join_url_outcome(repository.target_base_url(), path) {
                Err(error) => (Err(error), sampled),
                Ok(url) => (
                    Ok(
                        Some(
                            FetchRequestView {
                                url,
                                max_bytes: target.length,
                                specifier: "targets.json"@,
                                sha256: Some(target.sha256@),
                            },
                        ),
                    ),
                    sampled,
                ),
            }
        },
    }
}

/// The answer to asking for a target, with texts as sequences.
pub open spec fn seen_target(answer: Result<Option<FetchRequest>, Error>) -> Result<
    Option<FetchRequestView>,
    ErrorView,
> {
    match answer {
        Ok(Some(request)) => Ok(Some(request@)),
        Ok(None) => Ok(None),
        Err(error) => Err(error@),
    }
}

impl Repository {
    /// Whether the files of the repository are served under names that carry
    /// their version or digest.
    pub closed spec fn consistent_snapshot(self) -> bool {
        self.consistent_snapshot
    }

    /// The earliest instant at which one of the four trusted documents
    /// expires.
    pub closed spec fn earliest_expiration(self) -> UtcTime {
        self.earliest_expiration
    }

    /// The role of the document that expires first.
    pub closed spec fn earliest_expiration_role(self) -> RoleType {
        self.earliest_expiration_role
    }

    /// The base URL of the targets.
    pub closed spec fn target_base_url(self) -> Seq<char> {
        self.target_base_url@
    }

    /// The targets of the repository.
    pub closed spec fn spec_targets(self) -> NamedMap<Target> {
        self.targets
    }

    /// Whether this repository is the one that the four trusted documents
    /// and the base URL of the targets make.
    pub open spec fn built_from(
        self,
        root: Root,
        timestamp: Timestamp,
        snapshot: Snapshot,
        targets: Targets,
        target_base_url: Seq<char>,
    ) -> bool {
        &&& self.consistent_snapshot() == root.consistent_snapshot
        &&& (self.earliest_expiration(), self.earliest_expiration_role()) == earliest_expiration(
            root.expires,
            timestamp.expires,
            snapshot.expires,
            targets.expires,
        )
        &&& self.target_base_url() == target_base_url
        &&& targets_match(self.spec_targets(), targets.targets)
    }

    /// Begins to load the metadata of a repository.
    ///
    /// Both base URLs are parsed, and the shipped root metadata is taken on
    /// trust where it decoded and is signed by a threshold of its own root
    /// keys. The stage that is returned says what to fetch first; each stage
    /// leads to the next, and the last to the repository.
    pub fn load(settings: Settings) -> (begun: Result<RootStage, Error>)
        ensures
            match begun {
                Ok(stage) => {
                    &&& begin_outcome(settings) == Ok::<
                        (Seq<char>, Seq<char>, Arc<Signed<Root>>),
                        ErrorView,
                    >(
                        (
                            stage.context().metadata_base_url@,
                            stage.context().target_base_url@,
                            stage.state().root(),
                        ),
                    )
                    &&& stage.state().shipped() == stage.state().root()
                    &&& stage.context().limits == settings.limits
                },
                Err(error) => begin_outcome(settings) == Err::<
                    (Seq<char>, Seq<char>, Arc<Signed<Root>>),
                    ErrorView,
                >(error@),
            },
    {
        let Settings { root, metadata_base_url, target_base_url, limits } = settings;
        let metadata_base_url = match parse_url(metadata_base_url.as_str()) {
            Err(error) => { return Err(error); },
            Ok(url) => url,
        };
        let target_base_url = match parse_url(target_base_url.as_str()) {
            Err(error) => { return Err(error); },
            Ok(url) => url,
        };
        let state = match trust_root(root) {
            Err(error) => { return Err(error); },
            Ok(state) => state,
        };
        Ok(RootStage { context: Context { limits, metadata_base_url, target_base_url }, state })
    }

    /// The targets that the repository lists.
    pub fn targets(&self) -> (targets: &NamedMap<Target>)
        ensures
            *targets == self.spec_targets(),
    {
        &self.targets
    }

    /// Says how to fetch the target `name`, with `sys_time` as the reading
    /// of the system clock.
    pub fn read_target_at(&self, name: &str, datastore: &mut Datastore, sys_time: UtcTime) -> (answer:
        Result<Option<FetchRequest>, Error>)
        ensures
            (seen_target(answer), final(datastore)@) == read_target_outcome(
                *self,
                old(datastore)@,
                name@,
                sys_time,
            ),
            final(datastore)@.time_not_before(old(datastore)@),
    {
        match check_expiration_at(
            datastore,
            self.earliest_expiration_role,
            self.earliest_expiration,
            sys_time,
        ) {
            Err(error) => { return Err(error); },
            Ok(_) => {},
        }
        let target = match self.targets.get(name) {
            None => { return Ok(None); },
            Some(target) => target,
        };
        let path = target_file(self.consistent_snapshot, target.sha256.as_slice(), name);
        match join_url(self.target_base_url.as_str(), path) {
            Err(error) => Err(error),
            Ok(url) => Ok(
                Some(
                    FetchRequest {
                        url,
                        max_bytes: target.length,
                        specifier: "targets.json",
                        sha256: Some(vstd::slice::slice_to_vec(target.sha256.as_slice())),
                    },
                ),
            ),
        }
    }

    /// Says how to fetch the target `name`.
    ///
    /// Fails where the metadata of the repository has expired, and gives
    /// `None` for a target that the repository does not list. What is
    /// fetched for the request is to be held to its bounds while it is read,
    /// and is not to be used where it breaks them.
    pub fn read_target(&self, name: &str, datastore: &mut Datastore) -> (answer: Result<
        Option<FetchRequest>,
        Error,
    >)
        ensures
            exists|sys_time: UtcTime|
                (seen_target(answer), final(datastore)@) == #[trigger] read_target_outcome(
                    *self,
                    old(datastore)@,
                    name@,
                    sys_time,
                ),
            final(datastore)@.time_not_before(old(datastore)@),
    {
        let sys_time = clock_now();
        self.read_target_at(name, datastore, sys_time)
    }
}

} // verus!
