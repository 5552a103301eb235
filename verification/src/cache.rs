//! The cache side of the store adapter: mirroring records into the cache,
//! soft-deleting them there and listing what the cache holds.

use vstd::prelude::*;
use crate::error::{store_failure, store_failure_view, Failure};
use crate::lookup::views;
use crate::records::{Machine, Row, User, WorkType};
use crate::store::{entombed_at, lists, Store, StoreError};
use crate::time::Timestamp;
use crate::write_through::mirror;

verus! {

/// A cache write of the row under `id` went as the cache allows: it either
/// failed, reported under `intro`, and changed nothing, or it left `after`
/// as the contents of the cache.
pub open spec fn cache_written<R: Row>(
    old_cache: &Store<R>,
    id: i32,
    after: Map<i32, R::V>,
    intro: Seq<char>,
    r: Result<(), Failure>,
    new_cache: &Store<R>,
) -> bool {
    match old_cache.write_failure(id) {
        Some(e) => {
            &&& r is Err
            &&& r->Err_0@ == store_failure_view(intro, e)
            &&& new_cache.contents() == old_cache.contents()
        },
        None => r is Ok && new_cache.contents() == after,
    }
}

/// Mirrors a record that the primary holds into the cache: the copy is
/// marked synced and keeps the time of its last synchronisation, or gets
/// `now` where it has none.
pub fn save_to_cache<R: Row>(cache: &mut Store<R>, record: &R, now: Timestamp, intro: &str) -> (r:
    Result<(), Failure>)
    requires
        old(cache).wf(),
    ensures
        final(cache).wf(),
        final(cache).same_setup(old(cache)),
        cache_written::<R>(
            old(cache),
            R::key(record@),
            old(cache).contents().insert(R::key(record@), R::mirrored(record@, now)),
            intro@,
            r,
            final(cache),
        ),
{
    match mirror(cache, record, now) {
        Ok(_) => Ok(()),
        Err(e) => Err(store_failure(intro, e)),
    }
}

/// Soft-deletes the cache copy under an identity. A cache that holds no
/// such copy is left as it is.
pub fn delete_from_cache<R: Row>(cache: &mut Store<R>, id: i32, intro: &str) -> (r: Result<
    (),
    Failure,
>)
    requires
        old(cache).wf(),
    ensures
        final(cache).wf(),
        final(cache).same_setup(old(cache)),
        cache_written::<R>(
            old(cache),
            id,
            entombed_at::<R>(old(cache).contents(), id),
            intro@,
            r,
            final(cache),
        ),
{
    match cache.soft_delete(id) {
        Ok(_) => Ok(()),
        Err(e) => Err(store_failure(intro, e)),
    }
}

/// What listing a store answers: its live rows in listing order, or the
/// failure of the store under `intro`.
pub open spec fn listed<R: Row>(store: &Store<R>, intro: Seq<char>, r: Result<Vec<R>, Failure>) -> bool {
    match r {
        Ok(rows) => store.reachable() && lists::<R>(views(rows@), store.contents()),
        Err(f) => !store.reachable() && f@ == store_failure_view(intro, StoreError::Unreachable),
    }
}

/// Lists the live rows of a store.
pub fn list_store<R: Row>(store: &Store<R>, intro: &str) -> (r: Result<Vec<R>, Failure>)
    requires
        store.wf(),
    ensures
        listed::<R>(store, intro@, r),
{
    match store.fetch_all() {
        Ok(rows) => Ok(rows),
        Err(e) => Err(store_failure(intro, e)),
    }
}

/// Mirrors a user into the cache.
pub fn save_user_to_sqlite(cache: &mut Store<User>, user: &User, now: Timestamp) -> (r: Result<
    (),
    Failure,
>)
    requires
        old(cache).wf(),
    ensures
        final(cache).wf(),
        final(cache).same_setup(old(cache)),
        cache_written::<User>(
            old(cache),
            user@.id,
            old(cache).contents().insert(user@.id, User::mirrored(user@, now)),
            "Errore salvataggio utente in SQLite: "@,
            r,
            final(cache),
        ),
{
    save_to_cache(cache, user, now, "Errore salvataggio utente in SQLite: ")
}

/// Mirrors a machine into the cache.
pub fn save_machine_to_sqlite(cache: &mut Store<Machine>, machine: &Machine, now: Timestamp) -> (r:
    Result<(), Failure>)
    requires
        old(cache).wf(),
    ensures
        final(cache).wf(),
        final(cache).same_setup(old(cache)),
        cache_written::<Machine>(
            old(cache),
            machine@.id,
            old(cache).contents().insert(machine@.id, Machine::mirrored(machine@, now)),
            "Errore salvataggio macchina in SQLite: "@,
            r,
            final(cache),
        ),
{
    save_to_cache(cache, machine, now, "Errore salvataggio macchina in SQLite: ")
}

/// Mirrors a work type into the cache.
pub fn save_work_type_to_sqlite(
    cache: &mut Store<WorkType>,
    work_type: &WorkType,
    now: Timestamp,
) -> (r: Result<(), Failure>)
    requires
        old(cache).wf(),
    ensures
        final(cache).wf(),
        final(cache).same_setup(old(cache)),
        cache_written::<WorkType>(
            old(cache),
            work_type@.id,
            old(cache).contents().insert(work_type@.id, WorkType::mirrored(work_type@, now)),
            "Errore salvataggio work type in SQLite: "@,
            r,
            final(cache),
        ),
{
    save_to_cache(cache, work_type, now, "Errore salvataggio work type in SQLite: ")
}

/// Soft-deletes the cache copy of a machine.
pub fn delete_machine_from_sqlite(cache: &mut Store<Machine>, id: i32) -> (r: Result<(), Failure>)
    requires
        old(cache).wf(),
    ensures
        final(cache).wf(),
        final(cache).same_setup(old(cache)),
        cache_written::<Machine>(
            old(cache),
            id,
            entombed_at::<Machine>(old(cache).contents(), id),
            "Errore soft delete macchina da SQLite: "@,
            r,
            final(cache),
        ),
{
    delete_from_cache(cache, id, "Errore soft delete macchina da SQLite: ")
}

/// Soft-deletes the cache copy of a work type.
pub fn delete_work_type_from_sqlite(cache: &mut Store<WorkType>, id: i32) -> (r: Result<
    (),
    Failure,
>)
    requires
        old(cache).wf(),
    ensures
        final(cache).wf(),
        final(cache).same_setup(old(cache)),
        cache_written::<WorkType>(
            old(cache),
            id,
            entombed_at::<WorkType>(old(cache).contents(), id),
            "Errore soft delete work type da SQLite: "@,
            r,
            final(cache),
        ),
{
    delete_from_cache(cache, id, "Errore soft delete work type da SQLite: ")
}

/// Lists the cached users, newest first.
pub fn get_users_from_sqlite(cache: &Store<User>) -> (r: Result<Vec<User>, Failure>)
    requires
        cache.wf(),
    ensures
        listed::<User>(cache, "Errore apertura connessione SQLite: "@, r),
{
    list_store(cache, "Errore apertura connessione SQLite: ")
}

/// Lists the cached machines by name.
pub fn get_machines_from_sqlite(cache: &Store<Machine>) -> (r: Result<Vec<Machine>, Failure>)
    requires
        cache.wf(),
    ensures
        listed::<Machine>(cache, "Errore apertura connessione SQLite: "@, r),
{
    list_store(cache, "Errore apertura connessione SQLite: ")
}

/// Lists the cached work types by name.
pub fn get_work_types_from_sqlite(cache: &Store<WorkType>) -> (r: Result<Vec<WorkType>, Failure>)
    requires
        cache.wf(),
    ensures
        listed::<WorkType>(cache, "Errore apertura connessione SQLite: "@, r),
{
    list_store(cache, "Errore apertura connessione SQLite: ")
}

/// Lists the cached users, as `get_users_from_sqlite` does.
pub fn get_cached_users(cache: &Store<User>) -> (r: Result<Vec<User>, Failure>)
    requires
        cache.wf(),
    ensures
        listed::<User>(cache, "Errore apertura connessione SQLite: "@, r),
{
    get_users_from_sqlite(cache)
}

/// Lists the cached machines, as `get_machines_from_sqlite` does.
pub fn get_cached_machines(cache: &Store<Machine>) -> (r: Result<Vec<Machine>, Failure>)
    requires
        cache.wf(),
    ensures
        listed::<Machine>(cache, "Errore apertura connessione SQLite: "@, r),
{
    get_machines_from_sqlite(cache)
}

/// Lists the cached work types, as `get_work_types_from_sqlite` does.
pub fn get_cached_work_types(cache: &Store<WorkType>) -> (r: Result<Vec<WorkType>, Failure>)
    requires
        cache.wf(),
    ensures
        listed::<WorkType>(cache, "Errore apertura connessione SQLite: "@, r),
{
    get_work_types_from_sqlite(cache)
}

} // verus!
