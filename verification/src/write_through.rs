//! The write-through cache: a mutation commits to the primary first and is
//! mirrored into the cache only after that; a read by identity asks the
//! cache first and the primary where the cache has no live row.

use vstd::prelude::*;
use crate::error::{result_view, store_failure, store_failure_view, ErrorKind, Failure, FailureView};
use crate::lookup::{find, find_agrees_with_holds, find_row, holds, views};
use crate::records::Row;
use crate::store::{
    entombed_at,
    is_next_identity,
    lists,
    live,
    next_identity_is_unique,
    Store,
    StoreError,
};
use crate::time::Timestamp;

verus! {

/// A write that the primary took, and how mirroring it went.
#[derive(Debug)]
pub struct Written<T> {
    /// What was written.
    pub record: T,
    /// Why the cache did not take the copy, where it did not. The write
    /// counts as done; the failure is reported so that it can be retried.
    pub cache_failure: Option<StoreError>,
}

/// A write and how mirroring it went, as a plain value.
pub ghost struct WrittenView<V> {
    pub record: V,
    pub cache_failure: Option<StoreError>,
}

impl<T: View> View for Written<T> {
    type V = WrittenView<T::V>;

    open spec fn view(&self) -> WrittenView<T::V> {
        WrittenView { record: self.record@, cache_failure: self.cache_failure }
    }
}

/// How a write-through ended.
pub enum WriteOutcome<R> {
    /// Both stores hold the record.
    Mirrored(R),
    /// The primary did not take the write. Nothing was mirrored.
    PrimaryFailed(StoreError),
    /// The primary holds the record; the cache write failed. The caller
    /// still counts the write as done and reports the cache failure.
    MirrorFailed(R, StoreError),
}

impl<R> WriteOutcome<R> {
    /// The authoritative store took the write.
    pub open spec fn committed(self) -> bool {
        !(self is PrimaryFailed)
    }

    /// Whether the authoritative store took the write.
    pub fn is_committed(&self) -> (r: bool)
        ensures
            r == self.committed(),
    {
        match self {
            WriteOutcome::PrimaryFailed(_) => false,
            _ => true,
        }
    }
}

/// Writes the cache copy of a record that the primary has committed.
pub fn mirror<R: Row>(cache: &mut Store<R>, committed: &R, now: Timestamp) -> (r: Result<
    (),
    StoreError,
>)
    requires
        old(cache).wf(),
    ensures
        final(cache).wf(),
        final(cache).same_setup(old(cache)),
        r == match old(cache).write_failure(R::key(committed@)) {
            Some(e) => Err::<(), StoreError>(e),
            None => Ok(()),
        },
        final(cache).contents() == if r is Ok {
            old(cache).contents().insert(R::key(committed@), R::mirrored(committed@, now))
        } else {
            old(cache).contents()
        },
{
    proof {
        R::marks_keep_identity(committed@, now);
    }
    cache.upsert(committed.duplicate().into_mirrored(now))
}

/// Commits a record to the primary and then mirrors it into the cache.
///
/// Where the primary does not take the write, the cache is not touched.
/// Where the cache write fails, the primary keeps the record and the
/// outcome carries the failure of the cache.
pub fn write_through<R: Row>(
    primary: &mut Store<R>,
    cache: &mut Store<R>,
    record: R,
    now: Timestamp,
) -> (r: WriteOutcome<R>)
    requires
        old(primary).wf(),
        old(cache).wf(),
    ensures
        final(primary).wf(),
        final(cache).wf(),
        final(primary).same_setup(old(primary)),
        final(cache).same_setup(old(cache)),
        match r {
            WriteOutcome::Mirrored(done) => {
                &&& done@ == record@
                &&& old(primary).write_failure(R::key(record@)) is None
                &&& old(cache).write_failure(R::key(record@)) is None
            },
            WriteOutcome::PrimaryFailed(e) => old(primary).write_failure(R::key(record@)) == Some(e),
            WriteOutcome::MirrorFailed(done, e) => {
                &&& done@ == record@
                &&& old(primary).write_failure(R::key(record@)) is None
                &&& old(cache).write_failure(R::key(record@)) == Some(e)
            },
        },
        final(primary).contents() == if r.committed() {
            old(primary).contents().insert(R::key(record@), record@)
        } else {
            old(primary).contents()
        },
        final(cache).contents() == if r is Mirrored {
            old(cache).contents().insert(R::key(record@), R::mirrored(record@, now))
        } else {
            old(cache).contents()
        },
{
    match primary.upsert(record.duplicate()) {
        Err(e) => WriteOutcome::PrimaryFailed(e),
        Ok(_) => match mirror(cache, &record, now) {
            Ok(_) => WriteOutcome::Mirrored(record),
            Err(e) => WriteOutcome::MirrorFailed(record, e),
        },
    }
}

/// What a write-through of `record` leaves in the two stores: the primary
/// holds the record where it takes the write, and the cache holds the
/// mirrored copy where both take theirs.
pub open spec fn stores_after_write<R: Row>(
    old_primary: &Store<R>,
    old_cache: &Store<R>,
    record: R::V,
    now: Timestamp,
    new_primary: &Store<R>,
    new_cache: &Store<R>,
) -> bool {
    let id = R::key(record);
    &&& new_primary.contents() == if old_primary.write_failure(id) is None {
        old_primary.contents().insert(id, record)
    } else {
        old_primary.contents()
    }
    &&& new_cache.contents() == if old_primary.write_failure(id) is None && old_cache.write_failure(
        id,
    ) is None {
        old_cache.contents().insert(id, R::mirrored(record, now))
    } else {
        old_cache.contents()
    }
}

/// Neither store changed.
pub open spec fn stores_untouched<R: Row>(
    old_primary: &Store<R>,
    old_cache: &Store<R>,
    new_primary: &Store<R>,
    new_cache: &Store<R>,
) -> bool {
    new_primary.contents() == old_primary.contents() && new_cache.contents()
        == old_cache.contents()
}

/// Commits a record to the primary and mirrors it, as `write_through` does,
/// and reports a write that the primary took as done, with the failure of
/// the cache where there was one.
pub fn commit<R: Row>(primary: &mut Store<R>, cache: &mut Store<R>, record: R, now: Timestamp) -> (r:
    Result<Written<R>, StoreError>)
    requires
        old(primary).wf(),
        old(cache).wf(),
    ensures
        final(primary).wf(),
        final(cache).wf(),
        final(primary).same_setup(old(primary)),
        final(cache).same_setup(old(cache)),
        stores_after_write::<R>(old(primary), old(cache), record@, now, final(primary), final(cache)),
        match r {
            Ok(written) => {
                &&& old(primary).write_failure(R::key(record@)) is None
                &&& written.record@ == record@
                &&& written.cache_failure == old(cache).write_failure(R::key(record@))
            },
            Err(e) => old(primary).write_failure(R::key(record@)) == Some(e),
        },
{
    match write_through(primary, cache, record, now) {
        WriteOutcome::PrimaryFailed(e) => Err(e),
        WriteOutcome::Mirrored(record) => Ok(Written { record, cache_failure: None }),
        WriteOutcome::MirrorFailed(record, e) => Ok(Written { record, cache_failure: Some(e) }),
    }
}

/// What a write-through of `record` reports: the record and how mirroring
/// it went where the primary takes the write, the failure of the primary
/// under the given introduction where it does not.
pub open spec fn write_report<R: Row>(
    primary: &Store<R>,
    cache: &Store<R>,
    record: R::V,
    intro: Seq<char>,
) -> Result<WrittenView<R::V>, FailureView> {
    match primary.write_failure(R::key(record)) {
        Some(e) => Err(store_failure_view(intro, e)),
        None => Ok(WrittenView { record, cache_failure: cache.write_failure(R::key(record)) }),
    }
}

/// Commits a record to the primary and mirrors it, as `commit` does, and
/// words a failure of the primary under the given introduction.
pub fn commit_or_fail<R: Row>(
    primary: &mut Store<R>,
    cache: &mut Store<R>,
    record: R,
    now: Timestamp,
    intro: &str,
) -> (r: Result<Written<R>, Failure>)
    requires
        old(primary).wf(),
        old(cache).wf(),
    ensures
        final(primary).wf(),
        final(cache).wf(),
        final(primary).same_setup(old(primary)),
        final(cache).same_setup(old(cache)),
        stores_after_write::<R>(old(primary), old(cache), record@, now, final(primary), final(cache)),
        result_view(r) == write_report::<R>(old(primary), old(cache), record@, intro@),
{
    match commit(primary, cache, record, now) {
        Ok(written) => Ok(written),
        Err(e) => Err(store_failure(intro, e)),
    }
}

/// The identity that the store assigns to the next new row.
pub open spec fn next_identity<R: Row>(contents: Map<i32, R::V>) -> int {
    choose|n: int| is_next_identity::<R>(contents, n)
}

/// Why the primary does not take a new row, if it does not: it cannot be
/// reached, its identities are used up, or it refuses the next identity.
pub open spec fn insertion_failure<R: Row>(primary: &Store<R>) -> Option<StoreError> {
    if !primary.reachable() {
        Some(StoreError::Unreachable)
    } else if next_identity::<R>(primary.contents()) > i32::MAX {
        Some(StoreError::Rejected)
    } else {
        primary.write_failure(next_identity::<R>(primary.contents()) as i32)
    }
}

/// Adds a new record to the primary under the next identity. The identity
/// of the draft is ignored.
pub fn insert_into<R: Row>(primary: &mut Store<R>, draft: R) -> (r: Result<R, StoreError>)
    requires
        old(primary).wf(),
    ensures
        final(primary).wf(),
        final(primary).same_setup(old(primary)),
        match r {
            Ok(record) => {
                let id = next_identity::<R>(old(primary).contents()) as i32;
                &&& insertion_failure::<R>(old(primary)) is None
                &&& record@ == R::keyed_as(draft@, id)
                &&& final(primary).contents() == old(primary).contents().insert(id, record@)
            },
            Err(e) => {
                &&& insertion_failure::<R>(old(primary)) == Some(e)
                &&& final(primary).contents() == old(primary).contents()
            },
        },
{
    let id = match primary.next_identity() {
        Ok(id) => {
            proof {
                next_identity_is_unique::<R>(
                    primary.contents(),
                    id as int,
                    next_identity::<R>(primary.contents()),
                );
            }
            id
        },
        Err(e) => {
            proof {
                if primary.reachable() {
                    next_identity_is_unique::<R>(
                        primary.contents(),
                        i32::MAX + 1,
                        next_identity::<R>(primary.contents()),
                    );
                }
            }
            return Err(e);
        },
    };
    proof {
        R::tombstones_keep_identity(draft@);
    }
    let record = draft.into_keyed(id);
    match primary.upsert(record.duplicate()) {
        Ok(_) => Ok(record),
        Err(e) => Err(e),
    }
}

/// Adds a new record: the primary assigns the next identity and takes the
/// record, then the cache takes its copy. The identity of the draft is
/// ignored.
///
/// Where the primary does not take the record, nothing changes. Where only
/// the cache fails, the record stands and the failure is reported with it.
pub fn insert_through<R: Row>(
    primary: &mut Store<R>,
    cache: &mut Store<R>,
    draft: R,
    now: Timestamp,
) -> (r: Result<Written<R>, StoreError>)
    requires
        old(primary).wf(),
        old(cache).wf(),
    ensures
        final(primary).wf(),
        final(cache).wf(),
        final(primary).same_setup(old(primary)),
        final(cache).same_setup(old(cache)),
        match r {
            Ok(written) => {
                let id = next_identity::<R>(old(primary).contents()) as i32;
                &&& insertion_failure::<R>(old(primary)) is None
                &&& written.record@ == R::keyed_as(draft@, id)
                &&& written.cache_failure == old(cache).write_failure(id)
                &&& final(primary).contents() == old(primary).contents().insert(id, written.record@)
                &&& final(cache).contents() == if written.cache_failure is None {
                    old(cache).contents().insert(id, R::mirrored(written.record@, now))
                } else {
                    old(cache).contents()
                }
            },
            Err(e) => {
                &&& insertion_failure::<R>(old(primary)) == Some(e)
                &&& final(primary).contents() == old(primary).contents()
                &&& final(cache).contents() == old(cache).contents()
            },
        },
{
    let record = match insert_into(primary, draft) {
        Ok(record) => record,
        Err(e) => {
            return Err(e);
        },
    };
    proof {
        R::tombstones_keep_identity(draft@);
    }
    match mirror(cache, &record, now) {
        Ok(_) => Ok(Written { record, cache_failure: None }),
        Err(e) => Ok(Written { record, cache_failure: Some(e) }),
    }
}

/// How a delete-through ended.
#[derive(Clone, Copy, Debug, PartialEq, Eq, Structural)]
pub enum DeleteOutcome {
    /// Both stores carry the tombstone, or the cache never held the row.
    Deleted,
    /// The primary has no live row under the identity. Nothing changed.
    NotFound,
    /// The primary could not take the delete. Nothing changed.
    PrimaryFailed(StoreError),
    /// The primary carries the tombstone; the cache write failed.
    MirrorFailed(StoreError),
}

/// How a delete-through ends, given what the stores are like.
pub open spec fn delete_outcome<R: Row>(primary: &Store<R>, cache: &Store<R>, id: i32) -> DeleteOutcome {
    if !primary.reachable() {
        DeleteOutcome::PrimaryFailed(StoreError::Unreachable)
    } else if live::<R>(primary.contents(), id) is None {
        DeleteOutcome::NotFound
    } else if primary.write_failure(id) is Some {
        DeleteOutcome::PrimaryFailed(primary.write_failure(id)->0)
    } else if cache.write_failure(id) is Some {
        DeleteOutcome::MirrorFailed(cache.write_failure(id)->0)
    } else {
        DeleteOutcome::Deleted
    }
}

/// Soft-deletes a record in the primary and then in the cache. A record
/// that the primary does not hold, or holds as a tombstone already, is not
/// found.
pub fn delete_through<R: Row>(primary: &mut Store<R>, cache: &mut Store<R>, id: i32) -> (r:
    DeleteOutcome)
    requires
        old(primary).wf(),
        old(cache).wf(),
    ensures
        final(primary).wf(),
        final(cache).wf(),
        final(primary).same_setup(old(primary)),
        final(cache).same_setup(old(cache)),
        r == delete_outcome::<R>(old(primary), old(cache), id),
        final(primary).contents() == match r {
            DeleteOutcome::Deleted | DeleteOutcome::MirrorFailed(_) => entombed_at::<R>(
                old(primary).contents(),
                id,
            ),
            _ => old(primary).contents(),
        },
        final(cache).contents() == match r {
            DeleteOutcome::Deleted => entombed_at::<R>(old(cache).contents(), id),
            _ => old(cache).contents(),
        },
{
    match primary.fetch_raw(id) {
        Err(e) => {
            return DeleteOutcome::PrimaryFailed(e);
        },
        Ok(None) => {
            return DeleteOutcome::NotFound;
        },
        Ok(Some(row)) => {
            if row.is_deleted() {
                return DeleteOutcome::NotFound;
            }
        },
    }
    match primary.soft_delete(id) {
        Err(e) => {
            return DeleteOutcome::PrimaryFailed(e);
        },
        Ok(_) => {},
    }
    match cache.soft_delete(id) {
        Err(e) => DeleteOutcome::MirrorFailed(e),
        Ok(_) => DeleteOutcome::Deleted,
    }
}

/// Where a read by identity found its row.
pub enum ReadOutcome<R> {
    /// The cache holds a live row.
    FromCache(R),
    /// The cache has none, or could not be asked; the primary holds a live
    /// row.
    FromPrimary(R),
    /// Neither store holds a live row.
    NotFound,
    /// The cache has none and the primary could not be asked.
    PrimaryFailed(StoreError),
}

/// Reads a record by identity: from the cache where it holds a live row,
/// otherwise from the primary.
pub fn read_through<R: Row>(cache: &Store<R>, primary: &Store<R>, id: i32) -> (r: ReadOutcome<R>)
    requires
        cache.wf(),
        primary.wf(),
    ensures
        match r {
            ReadOutcome::FromCache(row) => cache.reachable() && live::<R>(cache.contents(), id)
                == Some(row@),
            ReadOutcome::FromPrimary(row) => !(cache.reachable() && live::<R>(
                cache.contents(),
                id,
            ) is Some) && primary.reachable() && live::<R>(primary.contents(), id) == Some(row@),
            ReadOutcome::NotFound => !(cache.reachable() && live::<R>(cache.contents(), id) is Some)
                && primary.reachable() && live::<R>(primary.contents(), id) is None,
            ReadOutcome::PrimaryFailed(e) => !(cache.reachable() && live::<R>(
                cache.contents(),
                id,
            ) is Some) && !primary.reachable() && e == StoreError::Unreachable,
        },
{
    match cache.fetch_all() {
        Ok(rows) => {
            assert(find::<R>(views(rows@), id) == live::<R>(cache.contents(), id));
            match find_row(&rows, id) {
                Some(row) => {
                    return ReadOutcome::FromCache(row.duplicate());
                },
                None => {},
            }
        },
        Err(_) => {},
    }
    match primary.fetch_raw(id) {
        Err(e) => ReadOutcome::PrimaryFailed(e),
        Ok(None) => ReadOutcome::NotFound,
        Ok(Some(row)) => {
            if row.is_deleted() {
                ReadOutcome::NotFound
            } else {
                ReadOutcome::FromPrimary(row)
            }
        },
    }
}

/// How a delete-through is reported: a delete that the primary took is
/// done, with the failure of the cache where there was one; a record that
/// is not found is refused with the given message; a failure of the
/// primary is reported under the given introduction.
pub open spec fn delete_report(
    outcome: DeleteOutcome,
    id: i32,
    not_found: Seq<char>,
    intro: Seq<char>,
) -> Result<WrittenView<i32>, FailureView> {
    match outcome {
        DeleteOutcome::Deleted => Ok(WrittenView { record: id, cache_failure: None }),
        DeleteOutcome::MirrorFailed(e) => Ok(WrittenView { record: id, cache_failure: Some(e) }),
        DeleteOutcome::NotFound => Err(
            FailureView { kind: ErrorKind::NotFound, message: not_found },
        ),
        DeleteOutcome::PrimaryFailed(e) => Err(store_failure_view(intro, e)),
    }
}

/// Reports a delete-through as `delete_report` says.
pub fn report_delete(outcome: DeleteOutcome, id: i32, not_found: &str, intro: &str) -> (r: Result<
    Written<i32>,
    Failure,
>)
    ensures
        result_view(r) == delete_report(outcome, id, not_found@, intro@),
{
    match outcome {
        DeleteOutcome::Deleted => Ok(Written { record: id, cache_failure: None }),
        DeleteOutcome::MirrorFailed(e) => Ok(Written { record: id, cache_failure: Some(e) }),
        DeleteOutcome::NotFound => Err(Failure::new(ErrorKind::NotFound, not_found)),
        DeleteOutcome::PrimaryFailed(e) => Err(store_failure(intro, e)),
    }
}

/// What a read by identity answers: the live row of the cache, else the
/// live row of the primary, else a refusal with the given message; a
/// primary that cannot be asked is reported under the given introduction.
pub open spec fn read_report<R: Row>(
    cache: &Store<R>,
    primary: &Store<R>,
    id: i32,
    not_found: Seq<char>,
    intro: Seq<char>,
) -> Result<R::V, FailureView> {
    if cache.reachable() && live::<R>(cache.contents(), id) is Some {
        Ok(live::<R>(cache.contents(), id)->0)
    } else if !primary.reachable() {
        Err(store_failure_view(intro, StoreError::Unreachable))
    } else if live::<R>(primary.contents(), id) is Some {
        Ok(live::<R>(primary.contents(), id)->0)
    } else {
        Err(FailureView { kind: ErrorKind::NotFound, message: not_found })
    }
}

/// Reads a record by identity through the cache and reports the outcome as
/// `read_report` says.
pub fn read_or_fail<R: Row>(
    cache: &Store<R>,
    primary: &Store<R>,
    id: i32,
    not_found: &str,
    intro: &str,
) -> (r: Result<R, Failure>)
    requires
        cache.wf(),
        primary.wf(),
    ensures
        result_view(r) == read_report::<R>(cache, primary, id, not_found@, intro@),
{
    match read_through(cache, primary, id) {
        ReadOutcome::FromCache(row) => Ok(row),
        ReadOutcome::FromPrimary(row) => Ok(row),
        ReadOutcome::NotFound => Err(Failure::new(ErrorKind::NotFound, not_found)),
        ReadOutcome::PrimaryFailed(e) => Err(store_failure(intro, e)),
    }
}

/// A mirrored write can be read back at once: right after the cache took
/// the copy of a record, a raw read by its identity gives that copy, which
/// differs from the record only in the cache's own bookkeeping, and the copy
/// is live exactly when the record is.
pub proof fn mirrored_write_is_readable<R: Row>(cache: Map<i32, R::V>, record: R::V, now: Timestamp)
    ensures
        ({
            let after = cache.insert(R::key(record), R::mirrored(record, now));
            &&& after.dom().contains(R::key(record))
            &&& after[R::key(record)] == R::mirrored(record, now)
            &&& R::key(after[R::key(record)]) == R::key(record)
            &&& R::label(after[R::key(record)]) == R::label(record)
            &&& R::payload(after[R::key(record)]) == R::payload(record)
            &&& (live::<R>(after, R::key(record)) is Some) == !R::tombstoned(record)
        }),
{
    R::marks_keep_identity(record, now);
    R::marks_keep_payload(record, now);
}

/// A soft-deleted record is retained: a raw read still gives it, flagged,
/// and no listing shows it.
pub proof fn tombstone_is_retained<R: Row>(contents: Map<i32, R::V>, id: i32, listing: Seq<R::V>)
    requires
        contents.dom().contains(id),
        lists::<R>(listing, entombed_at::<R>(contents, id)),
    ensures
        entombed_at::<R>(contents, id).dom().contains(id),
        R::tombstoned(entombed_at::<R>(contents, id)[id]),
        entombed_at::<R>(contents, id)[id] == R::entombed(contents[id]),
        !holds::<R>(listing, id),
        forall|other: i32|
            other != id ==> live::<R>(entombed_at::<R>(contents, id), other) == live::<R>(
                contents,
                other,
            ),
{
    R::tombstones_keep_identity(contents[id]);
    find_agrees_with_holds::<R>(listing, id);
    assert(find::<R>(listing, id) == live::<R>(entombed_at::<R>(contents, id), id));
}

} // verus!
