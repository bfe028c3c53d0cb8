//! The system clock, held to the latest time it was seen to read, and the
//! check that metadata has not expired.

use vstd::prelude::*;
use crate::datastore::{Datastore, DatastoreView, StoreFile, Stored};
use crate::error::{Error, ErrorView, RoleType};
use crate::fetch::seen;
use crate::schema::Role;
use crate::time::{clock_now, UtcTime};

verus! {

/// What sampling the clock does when it reads `sys_time`.
///
/// Where the datastore cannot be read, or holds a later time than the clock
/// reads, the sample fails and the datastore stays as it is. Otherwise the
/// reading is written to the datastore and is the result.
pub open spec fn clock_outcome(datastore: DatastoreView, sys_time: UtcTime) -> (
    Result<UtcTime, ErrorView>,
    DatastoreView,
) {
    match datastore.latest_known_time {
        Stored::Unreadable => (
            Err(
                ErrorView::DatastoreUnreadable { file: StoreFile::LatestKnownTime.spec_name()@ },
            ),
            datastore,
        ),
        Stored::Present(latest_known_time) if sys_time.before(latest_known_time) => (
            Err(ErrorView::SystemTimeSteppedBackward { sys_time, latest_known_time }),
            datastore,
        ),
        _ => (Ok(sys_time), datastore.with_time(sys_time)),
    }
}

/// What checking a document of `role` that expires at `expires` does when
/// the clock reads `sys_time`: the clock is sampled, and the document must
/// expire after the sample.
pub open spec fn freeze_outcome(
    datastore: DatastoreView,
    sys_time: UtcTime,
    role: RoleType,
    expires: UtcTime,
) -> (Result<(), ErrorView>, DatastoreView) {
    let (sample, after) = clock_outcome(datastore, sys_time);
    match sample {
        Err(error) => (Err(error), after),
        Ok(now) => if now.before(expires) {
            (Ok(()), after)
        } else {
            (Err(ErrorView::ExpiredMetadata { role }), after)
        },
    }
}

/// Takes `sys_time` as the reading of the system clock: makes sure that the
/// clock has not stepped backward since it was last sampled, and records the
/// reading as the latest known time.
pub fn system_time_at(datastore: &mut Datastore, sys_time: UtcTime) -> (sample: Result<
    UtcTime,
    Error,
>)
    ensures
        (seen(sample), final(datastore)@) == clock_outcome(old(datastore)@, sys_time),
        final(datastore)@.time_not_before(old(datastore)@),
{
    match datastore.latest_known_time.reader(StoreFile::LatestKnownTime) {
        Err(error) => Err(error),
        Ok(latest) => {
            let stepped_back = match latest {
                Some(latest_known_time) => {
                    if sys_time.is_before(latest_known_time) {
                        Some(*latest_known_time)
                    } else {
                        None
                    }
                },
                None => None,
            };
            match stepped_back {
                Some(latest_known_time) => Err(
                    Error::SystemTimeSteppedBackward { sys_time, latest_known_time },
                ),
                None => {
                    datastore.create_time(sys_time);
                    Ok(sys_time)
                },
            }
        },
    }
}

/// Reads the system clock, makes sure that it has not stepped backward since
/// it was last sampled, and records the reading as the latest known time.
pub fn system_time(datastore: &mut Datastore) -> (sample: Result<UtcTime, Error>)
    ensures
        exists|sys_time: UtcTime|
            (seen(sample), final(datastore)@) == #[trigger] clock_outcome(
                old(datastore)@,
                sys_time,
            ),
        final(datastore)@.time_not_before(old(datastore)@),
{
    let sys_time = clock_now();
    system_time_at(datastore, sys_time)
}

/// Checks, with `sys_time` as the reading of the system clock, that
/// metadata of `role` which expires at `expires` has not expired: the latest
/// known time must be before its expiration.
pub fn check_expiration_at(
    datastore: &mut Datastore,
    role: RoleType,
    expires: UtcTime,
    sys_time: UtcTime,
) -> (fresh: Result<(), Error>)
    ensures
        (seen(fresh), final(datastore)@) == freeze_outcome(
            old(datastore)@,
            sys_time,
            role,
            expires,
        ),
        final(datastore)@.time_not_before(old(datastore)@),
{
    match system_time_at(datastore, sys_time) {
        Err(error) => Err(error),
        Ok(now) => {
            if now.is_before(&expires) {
                Ok(())
            } else {
                Err(Error::ExpiredMetadata { role })
            }
        },
    }
}

/// Checks, with `sys_time` as the reading of the system clock, that `role`
/// has not expired: the latest known time must be before its expiration.
pub fn check_expired_at<T: Role>(datastore: &mut Datastore, role: &T, sys_time: UtcTime) -> (fresh:
    Result<(), Error>)
    ensures
        (seen(fresh), final(datastore)@) == freeze_outcome(
            old(datastore)@,
            sys_time,
            T::spec_role_type(),
            role.spec_expires(),
        ),
        final(datastore)@.time_not_before(old(datastore)@),
{
    check_expiration_at(datastore, T::role_type(), role.expires(), sys_time)
}

/// Checks that `role` has not expired: the system clock is sampled, and the
/// sample must be before the expiration of `role`.
pub fn check_expired<T: Role>(datastore: &mut Datastore, role: &T) -> (fresh: Result<(), Error>)
    ensures
        exists|sys_time: UtcTime|
            (seen(fresh), final(datastore)@) == #[trigger] freeze_outcome(
                old(datastore)@,
                sys_time,
                T::spec_role_type(),
                role.spec_expires(),
            ),
        final(datastore)@.time_not_before(old(datastore)@),
{
    let sys_time = clock_now();
    check_expired_at(datastore, role, sys_time)
}

} // verus!
