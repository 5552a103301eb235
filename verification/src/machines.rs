//! Machines: adding, changing, deleting and reading them through the cache.

use vstd::prelude::*;
use vstd::string::*;
use crate::cache::{list_store, listed};
use crate::error::{result_view, store_failure, store_failure_view, ErrorKind, Failure, FailureView};
use crate::records::{Machine, MachineView, Row, SyncStatus};
use crate::store::{entombed_at, live, Store, StoreError};
use crate::text::{blank, decimal, integer_text, trim, trimmed};
use crate::time::Timestamp;
use crate::write_through::{
    commit_or_fail,
    delete_outcome,
    delete_report,
    delete_through,
    insert_into,
    insertion_failure,
    mirror,
    next_identity,
    read_or_fail,
    read_report,
    report_delete,
    stores_after_write,
    stores_untouched,
    write_report,
    Written,
};

verus! {

/// An optional text without its surrounding white space; a text that holds
/// nothing else counts as absent.
pub open spec fn normalized(text: Option<Seq<char>>) -> Option<Seq<char>> {
    match text {
        Some(t) => if blank(t) {
            None
        } else {
            Some(trimmed(t))
        },
        None => None,
    }
}

/// Trims an optional text and drops it where nothing is left.
pub fn normalize(text: &Option<String>) -> (r: Option<String>)
    ensures
        r.deep_view() == normalized(text.deep_view()),
{
    match text {
        Some(t) => {
            let inner = trim(t.as_str());
            if inner.is_empty() {
                None
            } else {
                Some(inner.to_owned())
            }
        },
        None => None,
    }
}

/// A new machine, before the primary gives it an identity.
pub open spec fn new_machine(
    name: Seq<char>,
    image: Option<Seq<u8>>,
    ip_address: Option<Seq<char>>,
    database_name: Option<Seq<char>>,
    description: Option<Seq<char>>,
    works_types: Seq<i32>,
    now: Timestamp,
) -> MachineView {
    MachineView {
        id: 0,
        name,
        image,
        user_name: None,
        assistant_name: None,
        ip_address,
        description,
        database_name,
        works_types,
        sync_status: SyncStatus::Synced,
        last_sync: Some(now),
        deleted: false,
    }
}

/// The message for a machine that is not there to be changed.
pub open spec fn machine_not_found(id: i32) -> Seq<char> {
    "Macchina con id "@ + decimal(id as int) + " non trovata o \u{e8} stata eliminata"@
}

/// The message for a machine that is not there to be deleted.
pub open spec fn machine_not_deletable(id: i32) -> Seq<char> {
    "Macchina con id "@ + decimal(id as int) + " non trovata o gi\u{e0} eliminata"@
}

/// Adds a machine to the primary. The primary assigns the identity.
pub fn save_machine_to_postgres(
    primary: &mut Store<Machine>,
    name: String,
    image: Option<Vec<u8>>,
    ip_address: Option<String>,
    database_name: Option<String>,
    description: Option<String>,
    works_types: Vec<i32>,
    now: Timestamp,
) -> (r: Result<Machine, Failure>)
    requires
        old(primary).wf(),
    ensures
        final(primary).wf(),
        final(primary).same_setup(old(primary)),
        match r {
            Ok(machine) => {
                let id = next_identity::<Machine>(old(primary).contents()) as i32;
                &&& insertion_failure::<Machine>(old(primary)) is None
                &&& machine@ == Machine::keyed_as(
                    new_machine(
                        name@,
                        image.deep_view(),
                        ip_address.deep_view(),
                        database_name.deep_view(),
                        description.deep_view(),
                        works_types@,
                        now,
                    ),
                    id,
                )
                &&& final(primary).contents() == old(primary).contents().insert(id, machine@)
            },
            Err(f) => {
                &&& insertion_failure::<Machine>(old(primary)) is Some
                &&& f@ == store_failure_view(
                    "Errore inserimento macchina in PostgreSQL: "@,
                    insertion_failure::<Machine>(old(primary))->0,
                )
                &&& final(primary).contents() == old(primary).contents()
            },
        },
{
    let draft = Machine {
        id: 0,
        name,
        image,
        user_name: None,
        assistant_name: None,
        ip_address,
        description,
        database_name,
        works_types,
        sync_status: SyncStatus::Synced,
        last_sync: Some(now),
        deleted: false,
    };
    match insert_into(primary, draft) {
        Ok(machine) => Ok(machine),
        Err(e) => Err(store_failure("Errore inserimento macchina in PostgreSQL: ", e)),
    }
}

/// Adds a machine: to the primary first, then to the cache.
///
/// Where the primary does not take it, nothing changes. Where only the
/// cache fails, the machine stands and the failure is reported with it.
pub fn add_new_machine(
    primary: &mut Store<Machine>,
    cache: &mut Store<Machine>,
    name: String,
    image: Option<Vec<u8>>,
    ip_address: Option<String>,
    database_name: Option<String>,
    description: Option<String>,
    works_types: Vec<i32>,
    now: Timestamp,
) -> (r: Result<Written<Machine>, Failure>)
    requires
        old(primary).wf(),
        old(cache).wf(),
    ensures
        final(primary).wf(),
        final(cache).wf(),
        final(primary).same_setup(old(primary)),
        final(cache).same_setup(old(cache)),
        match r {
            Ok(written) => {
                let id = next_identity::<Machine>(old(primary).contents()) as i32;
                &&& insertion_failure::<Machine>(old(primary)) is None
                &&& written.record@ == Machine::keyed_as(
                    new_machine(
                        name@,
                        image.deep_view(),
                        ip_address.deep_view(),
                        database_name.deep_view(),
                        description.deep_view(),
                        works_types@,
                        now,
                    ),
                    id,
                )
                &&& written.cache_failure == old(cache).write_failure(id)
                &&& stores_after_write::<Machine>(
                    old(primary),
                    old(cache),
                    written.record@,
                    now,
                    final(primary),
                    final(cache),
                )
            },
            Err(f) => {
                &&& insertion_failure::<Machine>(old(primary)) is Some
                &&& f@ == store_failure_view(
                    "Errore inserimento macchina in PostgreSQL: "@,
                    insertion_failure::<Machine>(old(primary))->0,
                )
                &&& stores_untouched::<Machine>(
                    old(primary),
                    old(cache),
                    final(primary),
                    final(cache),
                )
            },
        },
{
    let machine = match save_machine_to_postgres(
        primary,
        name,
        image,
        ip_address,
        database_name,
        description,
        works_types,
        now,
    ) {
        Ok(machine) => machine,
        Err(f) => {
            return Err(f);
        },
    };
    let cache_failure = match mirror(cache, &machine, now) {
        Ok(_) => None,
        Err(e) => Some(e),
    };
    Ok(Written { record: machine, cache_failure })
}

/// Why a change to a machine is refused, if it is.
pub open spec fn machine_update_refusal(primary: &Store<Machine>, id: i32) -> Option<FailureView> {
    if !primary.reachable() {
        Some(store_failure_view("Errore verifica esistenza macchina: "@, StoreError::Unreachable))
    } else if live::<Machine>(primary.contents(), id) is None {
        Some(FailureView { kind: ErrorKind::NotFound, message: machine_not_found(id) })
    } else {
        None
    }
}

/// The machine after a change at `now`. Its address, database name and
/// description are normalised; who works on it stays as it was.
pub open spec fn updated_machine(
    current: MachineView,
    name: Seq<char>,
    image: Option<Seq<u8>>,
    ip_address: Option<Seq<char>>,
    database_name: Option<Seq<char>>,
    description: Option<Seq<char>>,
    works_types: Seq<i32>,
    now: Timestamp,
) -> MachineView {
    MachineView {
        name,
        image,
        ip_address: normalized(ip_address),
        database_name: normalized(database_name),
        description: normalized(description),
        works_types,
        sync_status: SyncStatus::Synced,
        last_sync: Some(now),
        ..current
    }
}

/// Changes a machine: in the primary first, then in the cache.
///
/// Refused, with nothing changed, where the primary cannot be reached or
/// holds no live machine under the identity.
pub fn update_machine(
    primary: &mut Store<Machine>,
    cache: &mut Store<Machine>,
    id: i32,
    name: String,
    image: Option<Vec<u8>>,
    ip_address: Option<String>,
    database_name: Option<String>,
    description: Option<String>,
    works_types: Vec<i32>,
    now: Timestamp,
) -> (r: Result<Written<Machine>, Failure>)
    requires
        old(primary).wf(),
        old(cache).wf(),
    ensures
        final(primary).wf(),
        final(cache).wf(),
        final(primary).same_setup(old(primary)),
        final(cache).same_setup(old(cache)),
        match machine_update_refusal(old(primary), id) {
            Some(refusal) => {
                &&& r is Err
                &&& r->Err_0@ == refusal
                &&& stores_untouched::<Machine>(
                    old(primary),
                    old(cache),
                    final(primary),
                    final(cache),
                )
            },
            None => {
                let updated = updated_machine(
                    old(primary).contents()[id],
                    name@,
                    image.deep_view(),
                    ip_address.deep_view(),
                    database_name.deep_view(),
                    description.deep_view(),
                    works_types@,
                    now,
                );
                &&& stores_after_write::<Machine>(
                    old(primary),
                    old(cache),
                    updated,
                    now,
                    final(primary),
                    final(cache),
                )
                &&& result_view(r) == write_report::<Machine>(
                    old(primary),
                    old(cache),
                    updated,
                    "Errore aggiornamento macchina: "@,
                )
            },
        },
{
    let ip_address = normalize(&ip_address);
    let database_name = normalize(&database_name);
    let description = normalize(&description);
    let current = match primary.fetch_raw(id) {
        Err(e) => {
            return Err(store_failure("Errore verifica esistenza macchina: ", e));
        },
        Ok(Some(machine)) => machine,
        Ok(None) => {
            return Err(not_found_failure(id, " non trovata o \u{e8} stata eliminata"));
        },
    };
    if current.deleted {
        return Err(not_found_failure(id, " non trovata o \u{e8} stata eliminata"));
    }
    proof {
        primary.contents_are_keyed();
    }
    let updated = Machine {
        id: current.id,
        name,
        image,
        user_name: current.user_name,
        assistant_name: current.assistant_name,
        ip_address,
        description,
        database_name,
        works_types,
        sync_status: SyncStatus::Synced,
        last_sync: Some(now),
        deleted: current.deleted,
    };
    commit_or_fail(primary, cache, updated, now, "Errore aggiornamento macchina: ")
}

fn not_found_text(id: i32, ending: &str) -> (r: String)
    ensures
        r@ == "Macchina con id "@ + decimal(id as int) + ending@,
{
    let mut message = "Macchina con id ".to_owned();
    message.append(integer_text(id as i64).as_str());
    message.append(ending);
    message
}

fn not_found_failure(id: i32, ending: &str) -> (r: Failure)
    ensures
        r@ == (FailureView {
            kind: ErrorKind::NotFound,
            message: "Macchina con id "@ + decimal(id as int) + ending@,
        }),
{
    Failure { kind: ErrorKind::NotFound, message: not_found_text(id, ending) }
}

/// Soft-deletes a machine: in the primary first, then in the cache.
pub fn delete_machine(primary: &mut Store<Machine>, cache: &mut Store<Machine>, id: i32) -> (r:
    Result<Written<i32>, Failure>)
    requires
        old(primary).wf(),
        old(cache).wf(),
    ensures
        final(primary).wf(),
        final(cache).wf(),
        final(primary).same_setup(old(primary)),
        final(cache).same_setup(old(cache)),
        result_view(r) == delete_report(
            delete_outcome::<Machine>(old(primary), old(cache), id),
            id,
            machine_not_deletable(id),
            "Errore soft delete macchina da PostgreSQL: "@,
        ),
        final(primary).contents() == if r is Ok {
            entombed_at::<Machine>(old(primary).contents(), id)
        } else {
            old(primary).contents()
        },
        final(cache).contents() == if r is Ok && r->Ok_0.cache_failure is None {
            entombed_at::<Machine>(old(cache).contents(), id)
        } else {
            old(cache).contents()
        },
{
    let outcome = delete_through(primary, cache, id);
    let not_found = not_found_text(id, " non trovata o gi\u{e0} eliminata");
    report_delete(outcome, id, not_found.as_str(), "Errore soft delete macchina da PostgreSQL: ")
}

/// Reads a machine by identity: from the cache where it holds a live row,
/// otherwise from the primary.
pub fn get_machine(cache: &Store<Machine>, primary: &Store<Machine>, id: i32) -> (r: Result<
    Machine,
    Failure,
>)
    requires
        cache.wf(),
        primary.wf(),
    ensures
        result_view(r) == read_report::<Machine>(
                cache,
                primary,
                id,
                "Macchina non trovata"@,
                "Errore recupero macchina: "@,
            ),
{
    read_or_fail(cache, primary, id, "Macchina non trovata", "Errore recupero macchina: ")
}

/// Lists the machines: always from the cache.
pub fn get_machines(cache: &Store<Machine>) -> (r: Result<Vec<Machine>, Failure>)
    requires
        cache.wf(),
    ensures
        listed::<Machine>(cache, "Errore apertura connessione SQLite: "@, r),
{
    list_store(cache, "Errore apertura connessione SQLite: ")
}

/// Lists the machines of the primary.
pub fn get_machines_from_postgres(primary: &Store<Machine>) -> (r: Result<Vec<Machine>, Failure>)
    requires
        primary.wf(),
    ensures
        listed::<Machine>(primary, "Errore recupero macchine: "@, r),
{
    list_store(primary, "Errore recupero macchine: ")
}

} // verus!
