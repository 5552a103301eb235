//! The resync engine: pull the live rows of the primary and write each into
//! the cache as a synced copy. A row that the cache refuses is skipped, the
//! others still go through; rows that only the cache knows are left alone.

use vstd::prelude::*;
use vstd::string::*;
use crate::error::{result_view, store_failure, store_failure_view, Failure, FailureView};
use crate::diff::{nothing_earned_nothing_found, primary_findings, stale, verdict, FindingView};
use crate::lookup::{distinct_keys, find, find_after_push, find_agrees_with_holds, holds, views};
use crate::records::{Collection, Machine, Row, SyncStatus, User, WorkType};
use crate::replica::Replica;
use crate::text::{digits, natural_text};
use crate::store::{keyed, lists, live, live_ids, Store, StoreError};
use crate::time::Timestamp;

verus! {

/// The identities that a resync writes: live in the primary and not refused
/// by the cache.
pub open spec fn resync_targets<R: Row>(primary: Map<i32, R::V>, refused: Set<i32>) -> Set<i32> {
    Set::new(|id: i32| live::<R>(primary, id) is Some && !refused.contains(id))
}

/// The cache after a resync at `now`: every target holds the synced copy of
/// the primary row, every other identity is as it was.
pub open spec fn resynced_contents<R: Row>(
    cache: Map<i32, R::V>,
    primary: Map<i32, R::V>,
    refused: Set<i32>,
    now: Timestamp,
) -> Map<i32, R::V> {
    Map::new(
        |id: i32| cache.dom().contains(id) || resync_targets::<R>(primary, refused).contains(id),
        |id: i32|
            if resync_targets::<R>(primary, refused).contains(id) {
                R::resynced(primary[id], now)
            } else {
                cache[id]
            },
    )
}

/// The cache part-way through a resync: the first rows of the listing are
/// written, the rest are not yet.
spec fn partly_resynced<R: Row>(
    cache: Map<i32, R::V>,
    done: Seq<R::V>,
    refused: Set<i32>,
    now: Timestamp,
) -> Map<i32, R::V> {
    Map::new(
        |id: i32| cache.dom().contains(id) || (holds::<R>(done, id) && !refused.contains(id)),
        |id: i32|
            if holds::<R>(done, id) && !refused.contains(id) {
                R::resynced(find::<R>(done, id)->0, now)
            } else {
                cache[id]
            },
    )
}

spec fn written<R: Row>(done: Seq<R::V>, refused: Set<i32>) -> Set<i32> {
    Set::new(|id: i32| holds::<R>(done, id) && !refused.contains(id))
}

proof fn one_more_row<R: Row>(rows: Seq<R::V>, i: int, id: i32)
    requires
        distinct_keys::<R>(rows),
        0 <= i < rows.len(),
    ensures
        distinct_keys::<R>(rows.take(i)),
        !holds::<R>(rows.take(i), R::key(rows[i])),
        holds::<R>(rows.take(i + 1), id) == (holds::<R>(rows.take(i), id) || id == R::key(rows[i])),
        find::<R>(rows.take(i + 1), id) == if id == R::key(rows[i]) {
            Some(rows[i])
        } else {
            find::<R>(rows.take(i), id)
        },
{
    let head = rows.take(i);
    assert forall|a: int, b: int| 0 <= a < head.len() && 0 <= b < head.len() && a != b implies R::key(
        #[trigger] head[a],
    ) != R::key(#[trigger] head[b]) by {
        assert(head[a] == rows[a]);
        assert(head[b] == rows[b]);
    }
    if holds::<R>(head, R::key(rows[i])) {
        let j = choose|j: int| 0 <= j < head.len() && R::key(#[trigger] head[j]) == R::key(rows[i]);
        assert(head[j] == rows[j]);
    }
    assert(rows.take(i + 1) =~= head.push(rows[i]));
    find_after_push::<R>(head, rows[i], id);
    find_agrees_with_holds::<R>(head, id);
    find_agrees_with_holds::<R>(head.push(rows[i]), id);
}

/// Brings the cache up to the primary. Returns how many rows were written.
///
/// Fails, and writes nothing, where either store is unreachable. A row
/// that the cache refuses is skipped and not counted.
pub fn resync<R: Row>(primary: &Store<R>, cache: &mut Store<R>, now: Timestamp) -> (r: Result<
    usize,
    StoreError,
>)
    requires
        primary.wf(),
        old(cache).wf(),
    ensures
        final(cache).wf(),
        final(cache).same_setup(old(cache)),
        match r {
            Ok(count) => {
                &&& primary.reachable()
                &&& old(cache).reachable()
                &&& final(cache).contents() == resynced_contents::<R>(
                    old(cache).contents(),
                    primary.contents(),
                    old(cache).refused(),
                    now,
                )
                &&& resync_targets::<R>(primary.contents(), old(cache).refused()).finite()
                &&& count == resync_targets::<R>(primary.contents(), old(cache).refused()).len()
            },
            Err(e) => {
                &&& !(primary.reachable() && old(cache).reachable())
                &&& e == StoreError::Unreachable
                &&& final(cache).contents() == old(cache).contents()
            },
        },
{
    if !cache.is_reachable() {
        return Err(StoreError::Unreachable);
    }
    let rows = match primary.fetch_all() {
        Ok(rows) => rows,
        Err(e) => {
            return Err(e);
        },
    };
    let ghost listing = views(rows@);
    let ghost start = cache.contents();
    let ghost refused = cache.refused();
    let mut count: usize = 0;
    let mut i: usize = 0;
    proof {
        assert(listing.take(0) =~= Seq::<R::V>::empty());
        assert(written::<R>(listing.take(0), refused) =~= Set::<i32>::empty());
        assert(cache.contents() =~= partly_resynced::<R>(start, listing.take(0), refused, now));
    }
    while i < rows.len()
        invariant
            i <= rows.len(),
            count <= i,
            listing == views(rows@),
            distinct_keys::<R>(listing),
            cache.wf(),
            cache.reachable(),
            cache.refused() == refused,
            cache.contents() == partly_resynced::<R>(start, listing.take(i as int), refused, now),
            written::<R>(listing.take(i as int), refused).finite(),
            count == written::<R>(listing.take(i as int), refused).len(),
        decreases rows.len() - i,
    {
        let copy = rows[i].duplicate().into_resynced(now);
        let ghost before = cache.contents();
        let ghost row = listing[i as int];
        proof {
            R::marks_keep_identity(row, now);
            one_more_row::<R>(listing, i as int, R::key(row));
        }
        match cache.upsert(copy) {
            Ok(_) => {
                count += 1;
                proof {
                    assert forall|id: i32|
                        holds::<R>(listing.take(i + 1), id) == (holds::<R>(
                            listing.take(i as int),
                            id,
                        ) || id == R::key(row)) && find::<R>(listing.take(i + 1), id) == (if id
                            == R::key(row) {
                            Some(row)
                        } else {
                            find::<R>(listing.take(i as int), id)
                        }) by {
                        one_more_row::<R>(listing, i as int, id);
                    }
                    assert(written::<R>(listing.take(i + 1), refused) =~= written::<R>(
                        listing.take(i as int),
                        refused,
                    ).insert(R::key(row)));
                    assert(cache.contents() =~= partly_resynced::<R>(
                        start,
                        listing.take(i + 1),
                        refused,
                        now,
                    ));
                }
            },
            Err(_) => {
                proof {
                    assert forall|id: i32|
                        holds::<R>(listing.take(i + 1), id) == (holds::<R>(
                            listing.take(i as int),
                            id,
                        ) || id == R::key(row)) && find::<R>(listing.take(i + 1), id) == (if id
                            == R::key(row) {
                            Some(row)
                        } else {
                            find::<R>(listing.take(i as int), id)
                        }) by {
                        one_more_row::<R>(listing, i as int, id);
                    }
                    assert(written::<R>(listing.take(i + 1), refused) =~= written::<R>(
                        listing.take(i as int),
                        refused,
                    ));
                    assert(cache.contents() =~= partly_resynced::<R>(
                        start,
                        listing.take(i + 1),
                        refused,
                        now,
                    ));
                }
            },
        }
        i += 1;
    }
    proof {
        assert(listing.take(i as int) =~= listing);
        let targets = resync_targets::<R>(primary.contents(), refused);
        assert forall|id: i32| holds::<R>(listing, id) == (live::<R>(primary.contents(), id) is Some) by {
            find_agrees_with_holds::<R>(listing, id);
            assert(find::<R>(listing, id) == live::<R>(primary.contents(), id));
        }
        assert(written::<R>(listing, refused) =~= targets);
        assert forall|id: i32| targets.contains(id) implies find::<R>(listing, id)->0
            == primary.contents()[id] by {
            assert(find::<R>(listing, id) == live::<R>(primary.contents(), id));
        }
        assert(cache.contents() =~= resynced_contents::<R>(
            start,
            primary.contents(),
            refused,
            now,
        ));
    }
    Ok(count)
}

/// Resync is idempotent. A second resync from an unchanged primary leaves
/// the cache as the first one alone would have left it at that time, so with
/// the same clock reading the cache does not change at all; and both runs
/// write, and report, the same rows.
pub proof fn resync_is_idempotent<R: Row>(
    cache: Map<i32, R::V>,
    primary: Map<i32, R::V>,
    refused: Set<i32>,
    first: Timestamp,
    second: Timestamp,
)
    ensures
        resynced_contents::<R>(
            resynced_contents::<R>(cache, primary, refused, first),
            primary,
            refused,
            second,
        ) == resynced_contents::<R>(cache, primary, refused, second),
        resynced_contents::<R>(
            resynced_contents::<R>(cache, primary, refused, first),
            primary,
            refused,
            first,
        ) == resynced_contents::<R>(cache, primary, refused, first),
{
    let once = resynced_contents::<R>(cache, primary, refused, first);
    assert(resynced_contents::<R>(once, primary, refused, second) =~= resynced_contents::<R>(
        cache,
        primary,
        refused,
        second,
    ));
    assert(resynced_contents::<R>(once, primary, refused, first) =~= once);
}

/// Where the cache refuses nothing, a resync writes as many rows as the
/// primary has live ones.
pub proof fn resync_counts_the_collection<R: Row>(primary: Map<i32, R::V>)
    ensures
        resync_targets::<R>(primary, Set::<i32>::empty()) == live_ids::<R>(primary),
{
    assert(resync_targets::<R>(primary, Set::<i32>::empty()) =~= live_ids::<R>(primary));
}

/// After a resync every live primary row that the cache accepts is live in
/// the cache under the same identity, as a synced copy; rows that only the
/// cache knows stay as they were.
pub proof fn resync_fills_the_cache<R: Row>(
    cache: Map<i32, R::V>,
    primary: Map<i32, R::V>,
    refused: Set<i32>,
    now: Timestamp,
    id: i32,
)
    requires
        keyed::<R>(primary),
    ensures
        resync_targets::<R>(primary, refused).contains(id) ==> live::<R>(
            resynced_contents::<R>(cache, primary, refused, now),
            id,
        ) == Some(R::resynced(primary[id], now)),
        !resync_targets::<R>(primary, refused).contains(id) ==> live::<R>(
            resynced_contents::<R>(cache, primary, refused, now),
            id,
        ) == live::<R>(cache, id),
        keyed::<R>(cache) ==> keyed::<R>(resynced_contents::<R>(cache, primary, refused, now)),
{
    if resync_targets::<R>(primary, refused).contains(id) {
        R::marks_keep_identity(primary[id], now);
    }
    if keyed::<R>(cache) {
        let after = resynced_contents::<R>(cache, primary, refused, now);
        assert forall|x: i32| #[trigger] after.dom().contains(x) implies R::key(after[x]) == x by {
            if resync_targets::<R>(primary, refused).contains(x) {
                R::marks_keep_identity(primary[x], now);
                assert(primary.dom().contains(x));
            } else {
                assert(cache.dom().contains(x));
            }
        }
    }
}

/// After a resync that the cache refused nothing of, every live identity
/// of the primary is live in the cache as a synced copy; and where the cache
/// held no live row that the primary does not hold, the two stores agree on
/// the set of live identities.
pub proof fn resync_agrees_on_live_identities<R: Row>(
    primary: Map<i32, R::V>,
    cache: Map<i32, R::V>,
    now: Timestamp,
)
    requires
        keyed::<R>(primary),
    ensures
        live_ids::<R>(primary).subset_of(
            live_ids::<R>(resynced_contents::<R>(cache, primary, Set::<i32>::empty(), now)),
        ),
        forall|id: i32|
            live::<R>(primary, id) is Some ==> R::status(
                #[trigger] resynced_contents::<R>(cache, primary, Set::<i32>::empty(), now)[id],
            ) == SyncStatus::Synced,
        live_ids::<R>(cache).subset_of(live_ids::<R>(primary)) ==> live_ids::<R>(
            resynced_contents::<R>(cache, primary, Set::<i32>::empty(), now),
        ) == live_ids::<R>(primary),
{
    let after = resynced_contents::<R>(cache, primary, Set::<i32>::empty(), now);
    assert forall|id: i32| live::<R>(primary, id) is Some implies live::<R>(after, id) is Some
        && R::status(after[id]) == SyncStatus::Synced by {
        resync_fills_the_cache::<R>(cache, primary, Set::<i32>::empty(), now, id);
        R::marks_keep_payload(primary[id], now);
    }
    if live_ids::<R>(cache).subset_of(live_ids::<R>(primary)) {
        assert forall|id: i32| live::<R>(after, id) is Some implies live::<R>(primary, id) is Some by {
            resync_fills_the_cache::<R>(cache, primary, Set::<i32>::empty(), now, id);
            if live::<R>(primary, id) is None {
                assert(live_ids::<R>(cache).contains(id));
            }
        }
        assert(live_ids::<R>(after) =~= live_ids::<R>(primary));
    }
}

/// A resync heals what the primary side of a report shows. After a resync
/// that the cache refused nothing of, no primary row is missing from the
/// cache, and none is reported as newer unless its synced copy is stale from
/// the start (a machine whose primary marker lies after the time of the
/// resync).
pub proof fn resync_heals<R: Row>(
    primary: Map<i32, R::V>,
    cache: Map<i32, R::V>,
    now: Timestamp,
    later: Timestamp,
    primary_listing: Seq<R::V>,
    cache_listing: Seq<R::V>,
)
    requires
        keyed::<R>(primary),
        lists::<R>(primary_listing, primary),
        lists::<R>(cache_listing, resynced_contents::<R>(cache, primary, Set::<i32>::empty(), now)),
        forall|id: i32|
            live::<R>(primary, id) is Some ==> !stale(
                R::freshness(R::resynced(#[trigger] primary[id], now)),
                R::freshness(primary[id]),
                later,
            ),
    ensures
        primary_findings::<R>(primary_listing, cache_listing, later) == Seq::<FindingView>::empty(),
{
    let after = resynced_contents::<R>(cache, primary, Set::<i32>::empty(), now);
    assert forall|i: int| 0 <= i < primary_listing.len() implies verdict::<R>(
        #[trigger] primary_listing[i],
        cache_listing,
        later,
    ) is None by {
        let p = primary_listing[i];
        let id = R::key(p);
        crate::lookup::find_gives_the_row::<R>(primary_listing, i);
        assert(find::<R>(primary_listing, id) == live::<R>(primary, id));
        assert(primary[id] == p);
        resync_fills_the_cache::<R>(cache, primary, Set::<i32>::empty(), now, id);
        assert(find::<R>(cache_listing, id) == live::<R>(after, id));
    }
    nothing_earned_nothing_found::<R>(primary_listing, cache_listing, later);
}

/// Why a resync fails, if it does: the cache is asked first, then the
/// primary, and either may be unreachable.
pub open spec fn sync_refusal<R: Row>(
    primary: &Store<R>,
    cache: &Store<R>,
    primary_intro: Seq<char>,
) -> Option<FailureView> {
    if !cache.reachable() {
        Some(store_failure_view("Errore apertura database SQLite: "@, StoreError::Unreachable))
    } else if !primary.reachable() {
        Some(store_failure_view(primary_intro, StoreError::Unreachable))
    } else {
        None
    }
}

/// What a resync of one collection reports: how many rows it wrote, or why
/// it failed.
pub open spec fn sync_report<R: Row>(
    primary: &Store<R>,
    cache: &Store<R>,
    primary_intro: Seq<char>,
) -> Result<nat, FailureView> {
    match sync_refusal::<R>(primary, cache, primary_intro) {
        Some(refusal) => Err(refusal),
        None => Ok(resync_targets::<R>(primary.contents(), cache.refused()).len()),
    }
}

/// What a resync of one collection leaves in the cache: the resynced
/// contents where both stores can be reached, the old contents otherwise.
pub open spec fn cache_after_sync<R: Row>(
    primary: &Store<R>,
    cache: &Store<R>,
    now: Timestamp,
) -> Map<i32, R::V> {
    if primary.reachable() && cache.reachable() {
        resynced_contents::<R>(cache.contents(), primary.contents(), cache.refused(), now)
    } else {
        cache.contents()
    }
}

/// Resyncs one collection and words a failure for the operator.
pub fn sync_collection<R: Row>(
    primary: &Store<R>,
    cache: &mut Store<R>,
    now: Timestamp,
    primary_intro: &str,
) -> (r: Result<usize, Failure>)
    requires
        primary.wf(),
        old(cache).wf(),
    ensures
        final(cache).wf(),
        final(cache).same_setup(old(cache)),
        final(cache).contents() == cache_after_sync::<R>(primary, old(cache), now),
        match r {
            Ok(count) => sync_report::<R>(primary, old(cache), primary_intro@) == Ok::<
                nat,
                FailureView,
            >(count as nat),
            Err(f) => sync_report::<R>(primary, old(cache), primary_intro@) == Err::<
                nat,
                FailureView,
            >(f@),
        },
{
    if !cache.is_reachable() {
        return Err(store_failure("Errore apertura database SQLite: ", StoreError::Unreachable));
    }
    match resync(primary, cache, now) {
        Ok(count) => Ok(count),
        Err(e) => Err(store_failure(primary_intro, e)),
    }
}

/// Brings the user cache up to the primary. Returns how many users were
/// written.
pub fn sync_users_from_postgres(primary: &Store<User>, cache: &mut Store<User>, now: Timestamp) -> (r:
    Result<usize, Failure>)
    requires
        primary.wf(),
        old(cache).wf(),
    ensures
        final(cache).wf(),
        final(cache).same_setup(old(cache)),
        final(cache).contents() == cache_after_sync::<User>(primary, old(cache), now),
        match r {
            Ok(count) => sync_report::<User>(
                primary,
                old(cache),
                "Errore recupero utenti da PostgreSQL: "@,
            ) == Ok::<nat, FailureView>(count as nat),
            Err(f) => sync_report::<User>(
                primary,
                old(cache),
                "Errore recupero utenti da PostgreSQL: "@,
            ) == Err::<nat, FailureView>(f@),
        },
{
    sync_collection(primary, cache, now, "Errore recupero utenti da PostgreSQL: ")
}

/// Brings the machine cache up to the primary. Returns how many machines
/// were written.
pub fn sync_machines_from_postgres(
    primary: &Store<Machine>,
    cache: &mut Store<Machine>,
    now: Timestamp,
) -> (r: Result<usize, Failure>)
    requires
        primary.wf(),
        old(cache).wf(),
    ensures
        final(cache).wf(),
        final(cache).same_setup(old(cache)),
        final(cache).contents() == cache_after_sync::<Machine>(primary, old(cache), now),
        match r {
            Ok(count) => sync_report::<Machine>(primary, old(cache), "Errore recupero macchine: "@)
                == Ok::<nat, FailureView>(count as nat),
            Err(f) => sync_report::<Machine>(primary, old(cache), "Errore recupero macchine: "@)
                == Err::<nat, FailureView>(f@),
        },
{
    sync_collection(primary, cache, now, "Errore recupero macchine: ")
}

/// Brings the work type cache up to the primary. Returns how many work
/// types were written.
pub fn sync_work_types_from_postgres(
    primary: &Store<WorkType>,
    cache: &mut Store<WorkType>,
    now: Timestamp,
) -> (r: Result<usize, Failure>)
    requires
        primary.wf(),
        old(cache).wf(),
    ensures
        final(cache).wf(),
        final(cache).same_setup(old(cache)),
        final(cache).contents() == cache_after_sync::<WorkType>(primary, old(cache), now),
        match r {
            Ok(count) => sync_report::<WorkType>(
                primary,
                old(cache),
                "Errore nel recupero dei tipi di lavorazione: "@,
            ) == Ok::<nat, FailureView>(count as nat),
            Err(f) => sync_report::<WorkType>(
                primary,
                old(cache),
                "Errore nel recupero dei tipi di lavorazione: "@,
            ) == Err::<nat, FailureView>(f@),
        },
{
    sync_collection(primary, cache, now, "Errore nel recupero dei tipi di lavorazione: ")
}

/// What a sync command answers: the count between the two given texts
/// where the resync went through, its failure after the given introduction
/// where it did not.
pub open spec fn sync_answer(
    report: Result<nat, FailureView>,
    before: Seq<char>,
    after: Seq<char>,
    failure_intro: Seq<char>,
) -> Result<Seq<char>, Seq<char>> {
    match report {
        Ok(count) => Ok(before + digits(count) + after),
        Err(f) => Err(failure_intro + f.message),
    }
}

/// The report of a resync as a plain value.
pub open spec fn report_view(outcome: Result<usize, Failure>) -> Result<nat, FailureView> {
    match outcome {
        Ok(count) => Ok(count as nat),
        Err(f) => Err(f@),
    }
}

/// Words the outcome of a resync as `sync_answer` says.
pub fn answer_sync(outcome: Result<usize, Failure>, before: &str, after: &str, failure_intro: &str) -> (r:
    Result<String, String>)
    ensures
        result_view(r) == sync_answer(report_view(outcome), before@, after@, failure_intro@),
{
    match outcome {
        Ok(count) => {
            let mut text = before.to_owned();
            text.append(natural_text(count as u64).as_str());
            text.append(after);
            Ok(text)
        },
        Err(f) => {
            let mut text = failure_intro.to_owned();
            text.append(f.message.as_str());
            Err(text)
        },
    }
}

/// Resyncs the users and says how many were written.
pub fn sync_users(primary: &Store<User>, cache: &mut Store<User>, now: Timestamp) -> (r: Result<
    String,
    String,
>)
    requires
        primary.wf(),
        old(cache).wf(),
    ensures
        final(cache).wf(),
        final(cache).same_setup(old(cache)),
        final(cache).contents() == cache_after_sync::<User>(primary, old(cache), now),
        result_view(r) == sync_answer(
            sync_report::<User>(primary, old(cache), "Errore recupero utenti da PostgreSQL: "@),
            "Sincronizzati "@,
            " utenti"@,
            "Errore sincronizzazione utenti: "@,
        ),
{
    let outcome = sync_users_from_postgres(primary, cache, now);
    answer_sync(outcome, "Sincronizzati ", " utenti", "Errore sincronizzazione utenti: ")
}

/// Resyncs the machines and says how many were written.
pub fn sync_machines(primary: &Store<Machine>, cache: &mut Store<Machine>, now: Timestamp) -> (r:
    Result<String, String>)
    requires
        primary.wf(),
        old(cache).wf(),
    ensures
        final(cache).wf(),
        final(cache).same_setup(old(cache)),
        final(cache).contents() == cache_after_sync::<Machine>(primary, old(cache), now),
        result_view(r) == sync_answer(
            sync_report::<Machine>(primary, old(cache), "Errore recupero macchine: "@),
            "Sincronizzate "@,
            " macchine"@,
            "Errore sincronizzazione macchine: "@,
        ),
{
    let outcome = sync_machines_from_postgres(primary, cache, now);
    answer_sync(outcome, "Sincronizzate ", " macchine", "Errore sincronizzazione macchine: ")
}

/// Resyncs the work types and says how many were written.
pub fn sync_work_types(primary: &Store<WorkType>, cache: &mut Store<WorkType>, now: Timestamp) -> (r:
    Result<String, String>)
    requires
        primary.wf(),
        old(cache).wf(),
    ensures
        final(cache).wf(),
        final(cache).same_setup(old(cache)),
        final(cache).contents() == cache_after_sync::<WorkType>(primary, old(cache), now),
        result_view(r) == sync_answer(
            sync_report::<WorkType>(
                primary,
                old(cache),
                "Errore nel recupero dei tipi di lavorazione: "@,
            ),
            "Sincronizzati "@,
            " tipi di lavorazione"@,
            "Errore sincronizzazione tipi di lavorazione: "@,
        ),
{
    let outcome = sync_work_types_from_postgres(primary, cache, now);
    answer_sync(
        outcome,
        "Sincronizzati ",
        " tipi di lavorazione",
        "Errore sincronizzazione tipi di lavorazione: ",
    )
}

/// Resyncs the named collection of a cache from the same collection of a
/// primary and says how many rows were written, as the command of that
/// collection does. The other collections are not touched.
pub fn sync_replica(primary: &Replica, cache: &mut Replica, collection: Collection, now: Timestamp) -> (r:
    Result<String, String>)
    requires
        primary.wf(),
        old(cache).wf(),
    ensures
        final(cache).wf(),
        match collection {
            Collection::Users => {
                &&& final(cache).machines == old(cache).machines
                &&& final(cache).work_types == old(cache).work_types
                &&& final(cache).users.same_setup(&old(cache).users)
                &&& final(cache).users.contents() == cache_after_sync::<User>(
                    &primary.users,
                    &old(cache).users,
                    now,
                )
                &&& result_view(r) == sync_answer(
                    sync_report::<User>(
                        &primary.users,
                        &old(cache).users,
                        "Errore recupero utenti da PostgreSQL: "@,
                    ),
                    "Sincronizzati "@,
                    " utenti"@,
                    "Errore sincronizzazione utenti: "@,
                )
            },
            Collection::Machines => {
                &&& final(cache).users == old(cache).users
                &&& final(cache).work_types == old(cache).work_types
                &&& final(cache).machines.same_setup(&old(cache).machines)
                &&& final(cache).machines.contents() == cache_after_sync::<Machine>(
                    &primary.machines,
                    &old(cache).machines,
                    now,
                )
                &&& result_view(r) == sync_answer(
                    sync_report::<Machine>(
                        &primary.machines,
                        &old(cache).machines,
                        "Errore recupero macchine: "@,
                    ),
                    "Sincronizzate "@,
                    " macchine"@,
                    "Errore sincronizzazione macchine: "@,
                )
            },
            Collection::WorkTypes => {
                &&& final(cache).users == old(cache).users
                &&& final(cache).machines == old(cache).machines
                &&& final(cache).work_types.same_setup(&old(cache).work_types)
                &&& final(cache).work_types.contents() == cache_after_sync::<WorkType>(
                    &primary.work_types,
                    &old(cache).work_types,
                    now,
                )
                &&& result_view(r) == sync_answer(
                    sync_report::<WorkType>(
                        &primary.work_types,
                        &old(cache).work_types,
                        "Errore nel recupero dei tipi di lavorazione: "@,
                    ),
                    "Sincronizzati "@,
                    " tipi di lavorazione"@,
                    "Errore sincronizzazione tipi di lavorazione: "@,
                )
            },
        },
{
    match collection {
        Collection::Users => sync_users(&primary.users, &mut cache.users, now),
        Collection::Machines => sync_machines(&primary.machines, &mut cache.machines, now),
        Collection::WorkTypes => sync_work_types(&primary.work_types, &mut cache.work_types, now),
    }
}

} // verus!
