//! Work types: adding, changing, deleting and reading them through the
//! cache. Unlike machines and users, a work type that is deleted is erased
//! from the primary; the cache keeps a tombstone.

use vstd::prelude::*;
use crate::cache::{list_store, listed};
use crate::error::{
    failure,
    result_view,
    store_failure,
    store_failure_view,
    ErrorKind,
    Failure,
    FailureView,
};
use crate::lookup::{find, find_gives_the_row, views};
use crate::records::{Row, SyncStatus, WorkType, WorkTypeView};
use crate::store::{entombed_at, label_taken, lists, live, Store, StoreError};
use crate::time::Timestamp;
use crate::write_through::{
    commit_or_fail,
    insert_into,
    insertion_failure,
    mirror,
    next_identity,
    read_or_fail,
    read_report,
    stores_after_write,
    stores_untouched,
    write_report,
    Written,
};

verus! {

/// What is sent to add a work type.
#[derive(Debug)]
pub struct NewWorkType {
    pub name: String,
    pub image: Option<Vec<u8>>,
}

/// What is sent to change a work type.
#[derive(Debug)]
pub struct UpdateWorkType {
    pub name: String,
    pub image: Option<Vec<u8>>,
}

/// The cache holds a live work type.
pub open spec fn cache_holds_any(cache: &Store<WorkType>) -> bool {
    cache.reachable() && exists|id: i32| live::<WorkType>(cache.contents(), id) is Some
}

/// Lists the work types: from the cache where it holds any, otherwise from
/// the primary.
pub fn get_work_types(cache: &Store<WorkType>, primary: &Store<WorkType>) -> (r: Result<
    Vec<WorkType>,
    Failure,
>)
    requires
        cache.wf(),
        primary.wf(),
    ensures
        if cache_holds_any(cache) {
            r is Ok && lists::<WorkType>(views(r->Ok_0@), cache.contents())
        } else {
            listed::<WorkType>(primary, "Errore nel recupero dei tipi di lavorazione: "@, r)
        },
{
    match cache.fetch_all() {
        Ok(rows) => {
            if rows.len() > 0 {
                proof {
                    let first = views(rows@)[0];
                    find_gives_the_row::<WorkType>(views(rows@), 0);
                    assert(find::<WorkType>(views(rows@), first.id) == live::<WorkType>(
                        cache.contents(),
                        first.id,
                    ));
                }
                return Ok(rows);
            }
            proof {
                assert forall|id: i32| live::<WorkType>(cache.contents(), id) is None by {
                    assert(find::<WorkType>(views(rows@), id) == live::<WorkType>(
                        cache.contents(),
                        id,
                    ));
                }
            }
        },
        Err(_) => {},
    }
    list_store(primary, "Errore nel recupero dei tipi di lavorazione: ")
}

/// Reads a work type by identity: from the cache where it holds a live
/// row, otherwise from the primary.
pub fn get_work_type(cache: &Store<WorkType>, primary: &Store<WorkType>, id: i32) -> (r: Result<
    WorkType,
    Failure,
>)
    requires
        cache.wf(),
        primary.wf(),
    ensures
        result_view(r) == read_report::<WorkType>(
                cache,
                primary,
                id,
                "Tipo di lavorazione non trovato"@,
                "Errore nel recupero del tipo di lavorazione: "@,
            ),
{
    read_or_fail(
        cache,
        primary,
        id,
        "Tipo di lavorazione non trovato",
        "Errore nel recupero del tipo di lavorazione: ",
    )
}

/// A new work type, before the primary gives it an identity.
pub open spec fn new_work_type(name: Seq<char>, image: Option<Seq<u8>>, now: Timestamp) -> WorkTypeView {
    WorkTypeView {
        id: 0,
        name,
        image,
        created_at: now,
        updated_at: now,
        sync_status: SyncStatus::Synced,
        last_sync: None,
        deleted: false,
    }
}

/// Why a name is refused for the work type under `except`, or for a new
/// one, if it is.
pub open spec fn name_refusal(primary: &Store<WorkType>, name: Seq<char>, except: Option<i32>) -> Option<
    FailureView,
> {
    if !primary.reachable() {
        Some(store_failure_view("Errore nella verifica del nome: "@, StoreError::Unreachable))
    } else if label_taken::<WorkType>(primary.contents(), name, except) {
        Some(
            failure(
                ErrorKind::Conflict,
                "Un tipo di lavorazione con questo nome esiste gi\u{e0}"@,
            ),
        )
    } else {
        None
    }
}

fn check_name(primary: &Store<WorkType>, name: &str, except: Option<i32>) -> (r: Result<
    (),
    Failure,
>)
    requires
        primary.wf(),
    ensures
        match name_refusal(primary, name@, except) {
            Some(refusal) => r is Err && r->Err_0@ == refusal,
            None => r is Ok,
        },
{
    match primary.label_in_use(name, except) {
        Err(e) => Err(store_failure("Errore nella verifica del nome: ", e)),
        Ok(true) => Err(
            Failure::new(
                ErrorKind::Conflict,
                "Un tipo di lavorazione con questo nome esiste gi\u{e0}",
            ),
        ),
        Ok(false) => Ok(()),
    }
}

/// Adds a work type: to the primary first, then to the cache.
///
/// Refused, with nothing changed, where the primary cannot be reached or
/// holds a work type of the same name. Where only the cache fails, the
/// work type stands and the failure is reported with it.
pub fn add_work_type(
    primary: &mut Store<WorkType>,
    cache: &mut Store<WorkType>,
    work_type: NewWorkType,
    now: Timestamp,
) -> (r: Result<Written<WorkType>, Failure>)
    requires
        old(primary).wf(),
        old(cache).wf(),
    ensures
        final(primary).wf(),
        final(cache).wf(),
        final(primary).same_setup(old(primary)),
        final(cache).same_setup(old(cache)),
        match name_refusal(old(primary), work_type.name@, None) {
            Some(refusal) => {
                &&& r is Err
                &&& r->Err_0@ == refusal
                &&& stores_untouched::<WorkType>(
                    old(primary),
                    old(cache),
                    final(primary),
                    final(cache),
                )
            },
            None => match r {
                Ok(written) => {
                    let id = next_identity::<WorkType>(old(primary).contents()) as i32;
                    &&& insertion_failure::<WorkType>(old(primary)) is None
                    &&& written.record@ == WorkType::keyed_as(
                        new_work_type(work_type.name@, work_type.image.deep_view(), now),
                        id,
                    )
                    &&& written.cache_failure == old(cache).write_failure(id)
                    &&& stores_after_write::<WorkType>(
                        old(primary),
                        old(cache),
                        written.record@,
                        now,
                        final(primary),
                        final(cache),
                    )
                },
                Err(f) => {
                    &&& insertion_failure::<WorkType>(old(primary)) is Some
                    &&& f@ == store_failure_view(
                        "Errore nell'aggiunta del tipo di lavorazione: "@,
                        insertion_failure::<WorkType>(old(primary))->0,
                    )
                    &&& stores_untouched::<WorkType>(
                        old(primary),
                        old(cache),
                        final(primary),
                        final(cache),
                    )
                },
            },
        },
{
    match check_name(primary, work_type.name.as_str(), None) {
        Err(refusal) => {
            return Err(refusal);
        },
        Ok(_) => {},
    }
    let draft = WorkType {
        id: 0,
        name: work_type.name,
        image: work_type.image,
        created_at: now,
        updated_at: now,
        sync_status: SyncStatus::Synced,
        last_sync: None,
        deleted: false,
    };
    let created = match insert_into(primary, draft) {
        Ok(created) => created,
        Err(e) => {
            return Err(store_failure("Errore nell'aggiunta del tipo di lavorazione: ", e));
        },
    };
    proof {
        WorkType::tombstones_keep_identity(draft@);
    }
    let cache_failure = match mirror(cache, &created, now) {
        Ok(_) => None,
        Err(e) => Some(e),
    };
    Ok(Written { record: created, cache_failure })
}

/// Why a change to a work type is refused, if it is.
pub open spec fn work_type_update_refusal(primary: &Store<WorkType>, id: i32, name: Seq<char>) -> Option<
    FailureView,
> {
    if name_refusal(primary, name, Some(id)) is Some {
        name_refusal(primary, name, Some(id))
    } else if live::<WorkType>(primary.contents(), id) is None {
        Some(failure(ErrorKind::NotFound, "Tipo di lavorazione non trovato"@))
    } else {
        None
    }
}

/// The work type after a change at `now`.
pub open spec fn updated_work_type(
    current: WorkTypeView,
    name: Seq<char>,
    image: Option<Seq<u8>>,
    now: Timestamp,
) -> WorkTypeView {
    WorkTypeView { name, image, updated_at: now, ..current }
}

/// Changes the name and picture of a work type: in the primary first, then
/// in the cache.
///
/// Refused, with nothing changed, where the primary cannot be reached,
/// another work type carries the name, or the primary holds no live work
/// type under the identity.
pub fn update_work_type(
    primary: &mut Store<WorkType>,
    cache: &mut Store<WorkType>,
    id: i32,
    work_type: UpdateWorkType,
    now: Timestamp,
) -> (r: Result<Written<WorkType>, Failure>)
    requires
        old(primary).wf(),
        old(cache).wf(),
    ensures
        final(primary).wf(),
        final(cache).wf(),
        final(primary).same_setup(old(primary)),
        final(cache).same_setup(old(cache)),
        match work_type_update_refusal(old(primary), id, work_type.name@) {
            Some(refusal) => {
                &&& r is Err
                &&& r->Err_0@ == refusal
                &&& stores_untouched::<WorkType>(
                    old(primary),
                    old(cache),
                    final(primary),
                    final(cache),
                )
            },
            None => {
                let updated = updated_work_type(
                    old(primary).contents()[id],
                    work_type.name@,
                    work_type.image.deep_view(),
                    now,
                );
                &&& stores_after_write::<WorkType>(
                    old(primary),
                    old(cache),
                    updated,
                    now,
                    final(primary),
                    final(cache),
                )
                &&& result_view(r) == write_report::<WorkType>(
                    old(primary),
                    old(cache),
                    updated,
                    "Errore nell'aggiornamento del tipo di lavorazione: "@,
                )
            },
        },
{
    match check_name(primary, work_type.name.as_str(), Some(id)) {
        Err(refusal) => {
            return Err(refusal);
        },
        Ok(_) => {},
    }
    let current = match primary.fetch_raw(id) {
        Ok(Some(current)) => current,
        _ => {
            return Err(Failure::new(ErrorKind::NotFound, "Tipo di lavorazione non trovato"));
        },
    };
    if current.deleted {
        return Err(Failure::new(ErrorKind::NotFound, "Tipo di lavorazione non trovato"));
    }
    proof {
        primary.contents_are_keyed();
    }
    let updated = WorkType {
        id: current.id,
        name: work_type.name,
        image: work_type.image,
        created_at: current.created_at,
        updated_at: now,
        sync_status: current.sync_status,
        last_sync: current.last_sync,
        deleted: current.deleted,
    };
    commit_or_fail(
        primary,
        cache,
        updated,
        now,
        "Errore nell'aggiornamento del tipo di lavorazione: ",
    )
}

/// Why deleting a work type is refused, if it is.
pub open spec fn work_type_delete_refusal(primary: &Store<WorkType>, id: i32) -> Option<FailureView> {
    match primary.write_failure(id) {
        Some(e) => Some(
            store_failure_view("Errore nell'eliminazione del tipo di lavorazione: "@, e),
        ),
        None => if !primary.contents().dom().contains(id) {
            Some(failure(ErrorKind::NotFound, "Tipo di lavorazione non trovato"@))
        } else {
            None
        },
    }
}

/// Deletes a work type: it is erased from the primary, and the cache copy
/// is kept as a tombstone.
///
/// Refused, with nothing changed, where the primary does not take the
/// delete or does not hold the work type. Where only the cache fails, the
/// delete stands and the failure is reported with it.
pub fn delete_work_type(primary: &mut Store<WorkType>, cache: &mut Store<WorkType>, id: i32) -> (r:
    Result<Written<i32>, Failure>)
    requires
        old(primary).wf(),
        old(cache).wf(),
    ensures
        final(primary).wf(),
        final(cache).wf(),
        final(primary).same_setup(old(primary)),
        final(cache).same_setup(old(cache)),
        match work_type_delete_refusal(old(primary), id) {
            Some(refusal) => {
                &&& r is Err
                &&& r->Err_0@ == refusal
                &&& stores_untouched::<WorkType>(
                    old(primary),
                    old(cache),
                    final(primary),
                    final(cache),
                )
            },
            None => {
                &&& r is Ok
                &&& r->Ok_0.record == id
                &&& r->Ok_0.cache_failure == old(cache).write_failure(id)
                &&& final(primary).contents() == old(primary).contents().remove(id)
                &&& final(cache).contents() == if old(cache).write_failure(id) is None {
                    entombed_at::<WorkType>(old(cache).contents(), id)
                } else {
                    old(cache).contents()
                }
            },
        },
{
    match primary.remove(id) {
        Err(e) => {
            return Err(store_failure("Errore nell'eliminazione del tipo di lavorazione: ", e));
        },
        Ok(false) => {
            assert(primary.contents() =~= old(primary).contents());
            return Err(Failure::new(ErrorKind::NotFound, "Tipo di lavorazione non trovato"));
        },
        Ok(true) => {},
    }
    let cache_failure = match cache.soft_delete(id) {
        Ok(_) => None,
        Err(e) => Some(e),
    };
    Ok(Written { record: id, cache_failure })
}

} // verus!
