//! Establishing the trusted root metadata: from the copy shipped with the
//! application, through every later version that the repository offers.

use vstd::prelude::*;
use std::sync::Arc;
use crate::clock::{check_expired_at, freeze_outcome};
use crate::datastore::{Datastore, DatastoreView, StoreFile};
use crate::error::{Error, ErrorView, RoleType};
use crate::fetch::{fetch_verdict, seen, FetchRequest, FetchRequestView, Fetched};
use crate::metadata::{check_rollback, check_signatures, rollback_verdict, seen_request, signature_verdict};
use crate::schema::{Root, Signed};
use crate::time::{clock_now, UtcTime};
use crate::urls::{join_url, join_url_outcome, versioned, versioned_name};
use crate::verify::verified;

verus! {

/// The root metadata trusted so far in a load, beside the copy that the load
/// began with.
#[derive(Debug, Clone, PartialEq, Eq)]
pub struct RootLoader {
    shipped: Arc<Signed<Root>>,
    root: Arc<Signed<Root>>,
}

/// How far the root metadata has come.
#[derive(Debug, Clone, PartialEq, Eq)]
pub enum RootProgress {
    /// A later version was accepted, and the one after it is to be fetched.
    Continue(RootLoader),
    /// No later version is on offer: this is the trusted root metadata.
    Done(Arc<Signed<Root>>),
}

impl RootLoader {
    /// The root metadata that the load began with.
    pub closed spec fn shipped(self) -> Arc<Signed<Root>> {
        self.shipped
    }

    /// The root metadata trusted so far.
    pub closed spec fn root(self) -> Arc<Signed<Root>> {
        self.root
    }

    /// How many later versions have been accepted, counted by the version
    /// numbers passed.
    pub open spec fn updates(self) -> int {
        self.root().signed.version.get() - self.shipped().signed.version.get()
    }

    /// The root metadata trusted so far.
    pub fn trusted(&self) -> (root: &Arc<Signed<Root>>)
        ensures
            *root == self.root(),
    {
        &self.root
    }
}

/// What becomes of the root metadata shipped with the application:
/// `ParseTrustedMetadata` where it did not decode, `VerifyTrustedMetadata`
/// where it is not signed by a threshold of its own root keys.
pub open spec fn trust_outcome(shipped: Option<Arc<Signed<Root>>>) -> Result<
    Arc<Signed<Root>>,
    ErrorView,
> {
    match shipped {
        None => Err(ErrorView::ParseTrustedMetadata),
        Some(root) => if verified(root.signed, RoleType::Root, *root) {
            Ok(root)
        } else {
            Err(ErrorView::VerifyTrustedMetadata)
        },
    }
}

/// Begins with the root metadata shipped with the application, which must
/// have decoded and be signed by a threshold of its own root keys.
pub fn trust_root(shipped: Option<Arc<Signed<Root>>>) -> (begun: Result<RootLoader, Error>)
    ensures
        match begun {
            Ok(state) => trust_outcome(shipped) == Ok::<Arc<Signed<Root>>, ErrorView>(
                state.root(),
            ) && state.shipped() == state.root(),
            Err(error) => trust_outcome(shipped) == Err::<Arc<Signed<Root>>, ErrorView>(error@),
        },
{
    match shipped {
        None => Err(Error::ParseTrustedMetadata),
        Some(root) => match root.signed.verify_role(&*root) {
            Err(_) => Err(Error::VerifyTrustedMetadata),
            Ok(_) => {
                let shipped = crate::datastore::share(&root);
                Ok(RootLoader { shipped, root })
            },
        },
    }
}

/// What is fetched next as root metadata: the version after the trusted
/// one, of at most `max_root_size` bytes. `MaxUpdatesExceeded` where the
/// trusted version is `max_root_updates` or more above the one that the load
/// began with.
pub open spec fn root_request_outcome(
    state: RootLoader,
    max_root_size: u64,
    max_root_updates: u64,
    metadata_base_url: Seq<char>,
) -> Result<FetchRequestView, ErrorView> {
    if state.root().signed.version.get() >= state.shipped().signed.version.get() + max_root_updates {
        Err(ErrorView::MaxUpdatesExceeded { max_root_updates })
    } else {
        let path = versioned((state.root().signed.version.get() + 1) as nat, "root.json"@);
        match join_url_outcome(metadata_base_url, path) {
            Err(error) => Err(error),
            Ok(url) => Ok(
                FetchRequestView {
                    url,
                    max_bytes: max_root_size,
                    specifier: "max_root_size argument"@,
                    sha256: None,
                },
            ),
        }
    }
}

/// Says what to fetch next as root metadata.
pub fn root_request(
    state: &RootLoader,
    max_root_size: u64,
    max_root_updates: u64,
    metadata_base_url: &str,
) -> (request: Result<FetchRequest, Error>)
    ensures
        seen_request(request) == root_request_outcome(
            *state,
            max_root_size,
            max_root_updates,
            metadata_base_url@,
        ),
{
    let version = state.root.signed.version.get();
    let spent = match state.shipped.signed.version.get().checked_add(max_root_updates) {
        Some(limit) => version >= limit,
        None => false,
    };
    if spent {
        return Err(Error::MaxUpdatesExceeded { max_root_updates });
    }
    let path = versioned_name(version as u128 + 1, "root.json");
    match join_url(metadata_base_url, path) {
        Err(error) => Err(error),
        Ok(url) => Ok(
            FetchRequest {
                url,
                max_bytes: max_root_size,
                specifier: "max_root_size argument",
                sha256: None,
            },
        ),
    }
}

/// Whether the keys of the timestamp role or of the snapshot role differ
/// between two versions of the root metadata.
pub open spec fn keys_rotated(shipped: Root, root: Root) -> bool {
    ||| shipped.role_key_set(RoleType::Timestamp) != root.role_key_set(RoleType::Timestamp)
    ||| shipped.role_key_set(RoleType::Snapshot) != root.role_key_set(RoleType::Snapshot)
}

/// What settling on `root` as the trusted root metadata does when the clock
/// reads `sys_time`: `root` must expire after the clock sample; and where the
/// timestamp or snapshot keys are no longer those of `shipped`, the trusted
/// timestamp and snapshot metadata are removed from the datastore.
pub open spec fn settle_outcome(
    shipped: Arc<Signed<Root>>,
    root: Arc<Signed<Root>>,
    datastore: DatastoreView,
    sys_time: UtcTime,
) -> (Result<RootProgress, ErrorView>, DatastoreView) {
    let (fresh, sampled) = freeze_outcome(
        datastore,
        sys_time,
        RoleType::Root,
        root.signed.expires,
    );
    match fresh {
        Err(error) => (Err(error), sampled),
        Ok(_) => (
            Ok(RootProgress::Done(root)),
            if keys_rotated(shipped.signed, root.signed) {
                sampled.without(StoreFile::Timestamp).without(StoreFile::Snapshot)
            } else {
                sampled
            },
        ),
    }
}

/// The verdict on a candidate for the next root metadata: it is signed by a
/// threshold of the root keys of the trusted version, and by a threshold of
/// its own; and it is no older than the trusted version.
pub open spec fn candidate_verdict(root: Signed<Root>, candidate: Signed<Root>) -> Result<
    (),
    ErrorView,
> {
    match signature_verdict(root.signed, RoleType::Root, candidate) {
        Err(error) => Err(error),
        Ok(_) => match signature_verdict(candidate.signed, RoleType::Root, candidate) {
            Err(error) => Err(error),
            Ok(_) => rollback_verdict(
                RoleType::Root,
                root.signed.version.get(),
                candidate.signed.version.get(),
            ),
        },
    }
}

/// What one step of the root update does, when `fetched` came back for the
/// request and the clock reads `sys_time`.
///
/// Where the request cannot be made, that is the error. Where nothing could
/// be fetched, the trusted version is the latest, and is settled on. A
/// candidate that arrived must be within bounds, decode and pass
/// [`candidate_verdict`]. One with the version of the trusted root is set
/// aside, and the trusted version is settled on; one with a higher version
/// becomes the trusted version, and the update goes on.
pub open spec fn root_outcome(
    state: RootLoader,
    datastore: DatastoreView,
    max_root_size: u64,
    max_root_updates: u64,
    metadata_base_url: Seq<char>,
    fetched: Fetched<Root>,
    sys_time: UtcTime,
) -> (Result<RootProgress, ErrorView>, DatastoreView) {
    match root_request_outcome(state, max_root_size, max_root_updates, metadata_base_url) {
        Err(error) => (Err(error), datastore),
        Ok(request) => if fetched is Unavailable {
            settle_outcome(state.shipped(), state.root(), datastore, sys_time)
        } else {
            match fetch_verdict(request, fetched, RoleType::Root) {
                Err(error) => (Err(error), datastore),
                Ok(candidate) => match candidate_verdict(*state.root(), *candidate) {
                    Err(error) => (Err(error), datastore),
                    Ok(_) => if candidate.signed.version.get() == state.root().signed.version.get() {
                        settle_outcome(state.shipped(), state.root(), datastore, sys_time)
                    } else {
                        (Ok(RootProgress::Continue(state.after(candidate))), datastore)
                    },
                },
            }
        },
    }
}

impl RootLoader {
    /// The state after `candidate` has become the trusted root metadata.
    pub closed spec fn after(self, candidate: Arc<Signed<Root>>) -> RootLoader {
        RootLoader { shipped: self.shipped, root: candidate }
    }

    /// What [`RootLoader::after`] changes and what it keeps.
    pub proof fn lemma_after(self, candidate: Arc<Signed<Root>>)
        ensures
            self.after(candidate).shipped() == self.shipped(),
            self.after(candidate).root() == candidate,
    {
    }
}

fn settle(
    shipped: Arc<Signed<Root>>,
    root: Arc<Signed<Root>>,
    datastore: &mut Datastore,
    sys_time: UtcTime,
) -> (settled: Result<RootProgress, Error>)
    ensures
        (seen(settled), final(datastore)@) == settle_outcome(
            shipped,
            root,
            old(datastore)@,
            sys_time,
        ),
        final(datastore)@.time_not_before(old(datastore)@),
{
    match check_expired_at(datastore, &root.signed, sys_time) {
        Err(error) => { return Err(error); },
        Ok(_) => {},
    }
    let rotated = !shipped.signed.same_role_keys(&root.signed, RoleType::Timestamp)
        || !shipped.signed.same_role_keys(&root.signed, RoleType::Snapshot);
    if rotated {
        datastore.remove(StoreFile::Timestamp);
        datastore.remove(StoreFile::Snapshot);
    }
    Ok(RootProgress::Done(root))
}

/// Takes one step of the root update from what was fetched for it, with
/// `sys_time` as the reading of the system clock.
pub fn load_root_at(
    state: RootLoader,
    datastore: &mut Datastore,
    max_root_size: u64,
    max_root_updates: u64,
    metadata_base_url: &str,
    fetched: Fetched<Root>,
    sys_time: UtcTime,
) -> (progress: Result<RootProgress, Error>)
    ensures
        (seen(progress), final(datastore)@) == root_outcome(
            state,
            old(datastore)@,
            max_root_size,
            max_root_updates,
            metadata_base_url@,
            fetched,
            sys_time,
        ),
        final(datastore)@.time_not_before(old(datastore)@),
{
    let request = match root_request(&state, max_root_size, max_root_updates, metadata_base_url) {
        Err(error) => { return Err(error); },
        Ok(request) => request,
    };
    let RootLoader { shipped, root } = state;
    if let Fetched::Unavailable = fetched {
        return settle(shipped, root, datastore, sys_time);
    }
    let candidate = match request.accept(fetched, RoleType::Root) {
        Err(error) => { return Err(error); },
        Ok(candidate) => candidate,
    };
    match check_signatures(&*root, &*candidate) {
        Err(error) => { return Err(error); },
        Ok(_) => {},
    }
    match check_signatures(&*candidate, &*candidate) {
        Err(error) => { return Err(error); },
        Ok(_) => {},
    }
    match check_rollback(RoleType::Root, root.signed.version.get(), candidate.signed.version.get()) {
        Err(error) => { return Err(error); },
        Ok(_) => {},
    }
    if candidate.signed.version.get() == root.signed.version.get() {
        return settle(shipped, root, datastore, sys_time);
    }
    Ok(RootProgress::Continue(RootLoader { shipped, root: candidate }))
}

/// Takes one step of the root update from what was fetched for it.
///
/// The system clock is read when the call begins; the reading is used, and
/// recorded, only if the step settles on the trusted root metadata.
pub fn load_root(
    state: RootLoader,
    datastore: &mut Datastore,
    max_root_size: u64,
    max_root_updates: u64,
    metadata_base_url: &str,
    fetched: Fetched<Root>,
) -> (progress: Result<RootProgress, Error>)
    ensures
        exists|sys_time: UtcTime|
            (seen(progress), final(datastore)@) == #[trigger] root_outcome(
                state,
                old(datastore)@,
                max_root_size,
                max_root_updates,
                metadata_base_url@,
                fetched,
                sys_time,
            ),
        final(datastore)@.time_not_before(old(datastore)@),
{
    let sys_time = clock_now();
    load_root_at(
        state,
        datastore,
        max_root_size,
        max_root_updates,
        metadata_base_url,
        fetched,
        sys_time,
    )
}

} // verus!
