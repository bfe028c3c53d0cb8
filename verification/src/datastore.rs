//! The trusted state that outlives a load: the metadata accepted last and the
//! latest time that the clock was seen to read.

use vstd::prelude::*;
use std::sync::Arc;
use crate::error::{Error, ErrorView};
use crate::schema::{Signed, Snapshot, Targets, Timestamp};
use crate::time::UtcTime;

verus! {

/// Makes another handle to a shared value with `Arc::clone`, which copies the
/// pointer and leaves the value where it is: both handles show the same value.
#[verifier::external_body]
pub(crate) fn share<T>(value: &Arc<T>) -> (shared: Arc<T>)
    ensures
        shared == *value,
{
    Arc::clone(value)
}

/// The files of a datastore.
#[derive(Debug, Clone, Copy, PartialEq, Eq, Structural)]
pub enum StoreFile {
    /// `latest_known_time.json`
    LatestKnownTime,
    /// `timestamp.json`
    Timestamp,
    /// `snapshot.json`
    Snapshot,
    /// `targets.json`
    Targets,
}

impl StoreFile {
    /// The name of the file in the datastore.
    pub open spec fn spec_name(self) -> &'static str {
        match self {
            StoreFile::LatestKnownTime => "latest_known_time.json",
            StoreFile::Timestamp => "timestamp.json",
            StoreFile::Snapshot => "snapshot.json",
            StoreFile::Targets => "targets.json",
        }
    }

    /// The name of the file in the datastore.
    pub fn name(self) -> (name: &'static str)
        ensures
            name == self.spec_name(),
    {
        match self {
            StoreFile::LatestKnownTime => "latest_known_time.json",
            StoreFile::Timestamp => "timestamp.json",
            StoreFile::Snapshot => "snapshot.json",
            StoreFile::Targets => "targets.json",
        }
    }
}

/// What a datastore holds under one of its file names.
#[derive(Debug, Clone, PartialEq, Eq)]
pub enum Stored<T> {
    /// There is no such file, or none that can be decoded.
    Absent,
    /// There is such a file, and it cannot be read.
    Unreadable,
    /// The file holds this value.
    Present(T),
}

/// A change to a datastore that has been decided and is yet to be made on
/// durable storage.
#[derive(Debug, Clone, Copy, PartialEq, Eq, Structural)]
pub enum StoreOp {
    /// Write this instant to `latest_known_time.json`.
    WriteTime(UtcTime),
    /// Write the document now held under this name to its file.
    Write(StoreFile),
    /// Remove this file if it exists.
    Remove(StoreFile),
}

/// The contents of a datastore, and the changes decided since they were last
/// written out.
///
/// Whoever owns the directory reads it into this value before a load, and
/// after each call that takes the value carries out `pending` in order and
/// empties it.
#[derive(Debug, Clone, PartialEq, Eq)]
pub struct Datastore {
    /// The latest time that the system clock was seen to read.
    pub latest_known_time: Stored<UtcTime>,
    /// The timestamp metadata trusted last.
    pub timestamp: Stored<Arc<Signed<Timestamp>>>,
    /// The snapshot metadata trusted last.
    pub snapshot: Stored<Arc<Signed<Snapshot>>>,
    /// The targets metadata trusted last.
    pub targets: Stored<Arc<Signed<Targets>>>,
    /// The changes that are yet to be made on durable storage, oldest first.
    pub pending: Vec<StoreOp>,
}

/// A [`Datastore`] with its pending changes as a mathematical sequence.
pub struct DatastoreView {
    pub latest_known_time: Stored<UtcTime>,
    pub timestamp: Stored<Arc<Signed<Timestamp>>>,
    pub snapshot: Stored<Arc<Signed<Snapshot>>>,
    pub targets: Stored<Arc<Signed<Targets>>>,
    pub pending: Seq<StoreOp>,
}

impl View for Datastore {
    type V = DatastoreView;

    open spec fn view(&self) -> DatastoreView {
        DatastoreView {
            latest_known_time: self.latest_known_time,
            timestamp: self.timestamp,
            snapshot: self.snapshot,
            targets: self.targets,
            pending: self.pending@,
        }
    }
}

/// What reading a file gives: the value, nothing where the file is absent, or
/// `DatastoreUnreadable` with its name.
pub open spec fn read_outcome<T>(stored: Stored<T>, file: StoreFile) -> Result<
    Option<T>,
    ErrorView,
> {
    match stored {
        Stored::Absent => Ok(None),
        Stored::Unreadable => Err(ErrorView::DatastoreUnreadable { file: file.spec_name()@ }),
        Stored::Present(value) => Ok(Some(value)),
    }
}

impl DatastoreView {
    /// The datastore after `time` was written as the latest known time.
    pub open spec fn with_time(self, time: UtcTime) -> DatastoreView {
        DatastoreView {
            latest_known_time: Stored::Present(time),
            pending: self.pending.push(StoreOp::WriteTime(time)),
            ..self
        }
    }

    /// The datastore after `document` was written as the trusted timestamp
    /// metadata.
    pub open spec fn with_timestamp(self, document: Arc<Signed<Timestamp>>) -> DatastoreView {
        DatastoreView {
            timestamp: Stored::Present(document),
            pending: self.pending.push(StoreOp::Write(StoreFile::Timestamp)),
            ..self
        }
    }

    /// The datastore after `document` was written as the trusted snapshot
    /// metadata.
    pub open spec fn with_snapshot(self, document: Arc<Signed<Snapshot>>) -> DatastoreView {
        DatastoreView {
            snapshot: Stored::Present(document),
            pending: self.pending.push(StoreOp::Write(StoreFile::Snapshot)),
            ..self
        }
    }

    /// The datastore after `document` was written as the trusted targets
    /// metadata.
    pub open spec fn with_targets(self, document: Arc<Signed<Targets>>) -> DatastoreView {
        DatastoreView {
            targets: Stored::Present(document),
            pending: self.pending.push(StoreOp::Write(StoreFile::Targets)),
            ..self
        }
    }

    /// The datastore after `file` was removed.
    pub open spec fn without(self, file: StoreFile) -> DatastoreView {
        let pending = self.pending.push(StoreOp::Remove(file));
        match file {
            StoreFile::LatestKnownTime => DatastoreView {
                latest_known_time: Stored::Absent,
                pending,
                ..self
            },
            StoreFile::Timestamp => DatastoreView { timestamp: Stored::Absent, pending, ..self },
            StoreFile::Snapshot => DatastoreView { snapshot: Stored::Absent, pending, ..self },
            StoreFile::Targets => DatastoreView { targets: Stored::Absent, pending, ..self },
        }
    }

    /// Whether the latest known time of `self` is at or after that of
    /// `earlier`, where `earlier` has one.
    pub open spec fn time_not_before(self, earlier: DatastoreView) -> bool {
        earlier.latest_known_time matches Stored::Present(before) ==> (
        self.latest_known_time matches Stored::Present(after) && before.not_after(after))
    }
}

impl<T> Stored<T> {
    /// Reads the value stored under the name `file`.
    pub fn reader(&self, file: StoreFile) -> (value: Result<Option<&T>, Error>)
        ensures
            match value {
                Ok(Some(v)) => read_outcome(*self, file) == Ok::<Option<T>, ErrorView>(Some(*v)),
                Ok(None) => read_outcome(*self, file) == Ok::<Option<T>, ErrorView>(None),
                Err(e) => read_outcome(*self, file) == Err::<Option<T>, ErrorView>(e@),
            },
    {
        match self {
            Stored::Absent => Ok(None),
            Stored::Unreadable => Err(Error::DatastoreUnreadable { file: file.name() }),
            Stored::Present(value) => Ok(Some(value)),
        }
    }
}

impl Datastore {
    /// A datastore with these contents and nothing pending.
    pub fn new(
        latest_known_time: Stored<UtcTime>,
        timestamp: Stored<Arc<Signed<Timestamp>>>,
        snapshot: Stored<Arc<Signed<Snapshot>>>,
        targets: Stored<Arc<Signed<Targets>>>,
    ) -> (datastore: Datastore)
        ensures
            datastore@ == (DatastoreView {
                latest_known_time,
                timestamp,
                snapshot,
                targets,
                pending: Seq::empty(),
            }),
    {
        Datastore { latest_known_time, timestamp, snapshot, targets, pending: Vec::new() }
    }

    /// Writes `time` as the latest known time.
    pub fn create_time(&mut self, time: UtcTime)
        ensures
            final(self)@ == old(self)@.with_time(time),
    {
        self.latest_known_time = Stored::Present(time);
        self.pending.push(StoreOp::WriteTime(time));
    }

    /// Writes `document` as the trusted timestamp metadata.
    pub fn create_timestamp(&mut self, document: Arc<Signed<Timestamp>>)
        ensures
            final(self)@ == old(self)@.with_timestamp(document),
    {
        self.timestamp = Stored::Present(document);
        self.pending.push(StoreOp::Write(StoreFile::Timestamp));
    }

    /// Writes `document` as the trusted snapshot metadata.
    pub fn create_snapshot(&mut self, document: Arc<Signed<Snapshot>>)
        ensures
            final(self)@ == old(self)@.with_snapshot(document),
    {
        self.snapshot = Stored::Present(document);
        self.pending.push(StoreOp::Write(StoreFile::Snapshot));
    }

    /// Writes `document` as the trusted targets metadata.
    pub fn create_targets(&mut self, document: Arc<Signed<Targets>>)
        ensures
            final(self)@ == old(self)@.with_targets(document),
    {
        self.targets = Stored::Present(document);
        self.pending.push(StoreOp::Write(StoreFile::Targets));
    }

    /// Removes `file`. That there is no such file is no error.
    pub fn remove(&mut self, file: StoreFile)
        ensures
            final(self)@ == old(self)@.without(file),
    {
        match file {
            StoreFile::LatestKnownTime => {
                self.latest_known_time = Stored::Absent;
            },
            StoreFile::Timestamp => {
                self.timestamp = Stored::Absent;
            },
            StoreFile::Snapshot => {
                self.snapshot = Stored::Absent;
            },
            StoreFile::Targets => {
                self.targets = Stored::Absent;
            },
        }
        self.pending.push(StoreOp::Remove(file));
    }

    /// Hands out the changes that are yet to be made on durable storage,
    /// oldest first, and forgets them.
    pub fn take_pending(&mut self) -> (pending: Vec<StoreOp>)
        ensures
            pending@ == old(self)@.pending,
            final(self)@ == (DatastoreView { pending: Seq::empty(), ..old(self)@ }),
    {
        let mut pending: Vec<StoreOp> = Vec::new();
        std::mem::swap(&mut self.pending, &mut pending);
        pending
    }
}

/// What was written is what is read, until it is written again or removed.
pub proof fn lemma_write_then_read(
    datastore: DatastoreView,
    time: UtcTime,
    timestamp: Arc<Signed<Timestamp>>,
    snapshot: Arc<Signed<Snapshot>>,
    targets: Arc<Signed<Targets>>,
)
    ensures
        read_outcome(datastore.with_time(time).latest_known_time, StoreFile::LatestKnownTime)
            == Ok::<Option<UtcTime>, ErrorView>(Some(time)),
        read_outcome(datastore.with_timestamp(timestamp).timestamp, StoreFile::Timestamp)
            == Ok::<Option<Arc<Signed<Timestamp>>>, ErrorView>(Some(timestamp)),
        read_outcome(datastore.with_snapshot(snapshot).snapshot, StoreFile::Snapshot)
            == Ok::<Option<Arc<Signed<Snapshot>>>, ErrorView>(Some(snapshot)),
        read_outcome(datastore.with_targets(targets).targets, StoreFile::Targets)
            == Ok::<Option<Arc<Signed<Targets>>>, ErrorView>(Some(targets)),
        forall|file: StoreFile|
            #![trigger datastore.without(file)]
            {
                let after = datastore.without(file);
                match file {
                    StoreFile::LatestKnownTime => after.latest_known_time is Absent,
                    StoreFile::Timestamp => after.timestamp is Absent,
                    StoreFile::Snapshot => after.snapshot is Absent,
                    StoreFile::Targets => after.targets is Absent,
                }
            },
{
}

} // verus!
