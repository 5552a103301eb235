//! The diff engine: which records differ between a primary snapshot and a
//! cache snapshot, and why.

use vstd::prelude::*;
use crate::lookup::{distinct_keys, find, find_agrees_with_holds, holds, views, IdIndex};
use crate::records::{Machine, MachineView, Row, SyncStatus, User, UserView, WorkType};
use crate::store::StoreError;
use crate::time::Timestamp;

verus! {

/// Why a record is reported.
#[derive(Clone, Copy, Debug, PartialEq, Eq, Structural)]
pub enum DiffReason {
    /// Present in the primary, absent from the cache.
    MissingInCache,
    /// Present in both, and the cache copy is older or carries no marker.
    PrimaryNewer,
    /// Present in the cache, absent from the primary.
    ExtraInCache,
}

/// One reported record of any collection.
#[derive(Debug)]
pub struct Finding {
    pub id: i32,
    pub name: String,
    pub reason: DiffReason,
}

/// A finding as a plain value.
pub ghost struct FindingView {
    pub id: i32,
    pub name: Seq<char>,
    pub reason: DiffReason,
}

impl View for Finding {
    type V = FindingView;

    open spec fn view(&self) -> FindingView {
        FindingView { id: self.id, name: self.name@, reason: self.reason }
    }
}

/// The cache copy is older than the primary copy. A cache copy without a
/// marker is always stale; a primary copy without one counts as changed at
/// `now`.
pub open spec fn stale(
    cache_marker: Option<Timestamp>,
    primary_marker: Option<Timestamp>,
    now: Timestamp,
) -> bool {
    match cache_marker {
        None => true,
        Some(c) => c.before(
            match primary_marker {
                Some(p) => p,
                None => now,
            },
        ),
    }
}

/// What is reported for one primary row, if anything.
pub open spec fn verdict<R: Row>(p: R::V, cache: Seq<R::V>, now: Timestamp) -> Option<DiffReason> {
    match find::<R>(cache, R::key(p)) {
        None => Some(DiffReason::MissingInCache),
        Some(c) => if stale(R::freshness(c), R::freshness(p), now) {
            Some(DiffReason::PrimaryNewer)
        } else {
            None
        },
    }
}

/// The findings for the primary rows, in the order of the primary snapshot.
pub open spec fn primary_findings<R: Row>(
    primary: Seq<R::V>,
    cache: Seq<R::V>,
    now: Timestamp,
) -> Seq<FindingView>
    decreases primary.len(),
{
    if primary.len() == 0 {
        Seq::empty()
    } else {
        let rest = primary_findings::<R>(primary.drop_last(), cache, now);
        let p = primary.last();
        match verdict::<R>(p, cache, now) {
            Some(reason) => rest.push(FindingView { id: R::key(p), name: R::label(p), reason }),
            None => rest,
        }
    }
}

/// The cache rows that the primary does not know, in the order of the cache
/// snapshot.
pub open spec fn extra_findings<R: Row>(cache: Seq<R::V>, primary: Seq<R::V>) -> Seq<FindingView>
    decreases cache.len(),
{
    if cache.len() == 0 {
        Seq::empty()
    } else {
        let rest = extra_findings::<R>(cache.drop_last(), primary);
        let c = cache.last();
        if find::<R>(primary, R::key(c)) is None {
            rest.push(
                FindingView { id: R::key(c), name: R::label(c), reason: DiffReason::ExtraInCache },
            )
        } else {
            rest
        }
    }
}

/// The divergence between two snapshots of one collection: first what the
/// primary rows give, then the extras of the cache.
pub open spec fn divergence<R: Row>(
    primary: Seq<R::V>,
    cache: Seq<R::V>,
    now: Timestamp,
) -> Seq<FindingView> {
    primary_findings::<R>(primary, cache, now) + extra_findings::<R>(cache, primary)
}

/// Some finding names the identity under the reason.
pub open spec fn reported(findings: Seq<FindingView>, id: i32, reason: DiffReason) -> bool {
    exists|k: int|
        0 <= k < findings.len() && (#[trigger] findings[k]).id == id && findings[k].reason
            == reason
}

/// Some primary row with the identity earns the reason.
pub open spec fn earned<R: Row>(
    primary: Seq<R::V>,
    cache: Seq<R::V>,
    now: Timestamp,
    id: i32,
    reason: DiffReason,
) -> bool {
    exists|i: int|
        0 <= i < primary.len() && R::key(#[trigger] primary[i]) == id && verdict::<R>(
            primary[i],
            cache,
            now,
        ) == Some(reason)
}

proof fn primary_findings_report_what_is_earned<R: Row>(
    primary: Seq<R::V>,
    cache: Seq<R::V>,
    now: Timestamp,
    id: i32,
    reason: DiffReason,
)
    ensures
        reported(primary_findings::<R>(primary, cache, now), id, reason) <==> earned::<R>(
            primary,
            cache,
            now,
            id,
            reason,
        ),
    decreases primary.len(),
{
    let out = primary_findings::<R>(primary, cache, now);
    if primary.len() == 0 {
    } else {
        let init = primary.drop_last();
        let rest = primary_findings::<R>(init, cache, now);
        let p = primary.last();
        primary_findings_report_what_is_earned::<R>(init, cache, now, id, reason);
        if reported(out, id, reason) {
            let k = choose|k: int|
                0 <= k < out.len() && (#[trigger] out[k]).id == id && out[k].reason == reason;
            if k < rest.len() {
                assert(rest[k] == out[k]);
                let i = choose|i: int|
                    0 <= i < init.len() && R::key(#[trigger] init[i]) == id && verdict::<R>(
                        init[i],
                        cache,
                        now,
                    ) == Some(reason);
                assert(primary[i] == init[i]);
            } else {
                assert(primary[primary.len() - 1] == p);
            }
        }
        if earned::<R>(primary, cache, now, id, reason) {
            let i = choose|i: int|
                0 <= i < primary.len() && R::key(#[trigger] primary[i]) == id && verdict::<R>(
                    primary[i],
                    cache,
                    now,
                ) == Some(reason);
            if i < init.len() {
                assert(init[i] == primary[i]);
                let k = choose|k: int|
                    0 <= k < rest.len() && (#[trigger] rest[k]).id == id && rest[k].reason
                        == reason;
                assert(out[k] == rest[k]);
            } else {
                assert(out[out.len() - 1].id == id);
            }
        }
    }
}

proof fn extra_findings_report_the_unknown<R: Row>(
    cache: Seq<R::V>,
    primary: Seq<R::V>,
    id: i32,
    reason: DiffReason,
)
    ensures
        reported(extra_findings::<R>(cache, primary), id, reason) <==> (reason
            == DiffReason::ExtraInCache && holds::<R>(cache, id) && !holds::<R>(primary, id)),
    decreases cache.len(),
{
    let out = extra_findings::<R>(cache, primary);
    find_agrees_with_holds::<R>(primary, id);
    if cache.len() == 0 {
    } else {
        let init = cache.drop_last();
        let rest = extra_findings::<R>(init, primary);
        let c = cache.last();
        extra_findings_report_the_unknown::<R>(init, primary, id, reason);
        if reported(out, id, reason) {
            let k = choose|k: int|
                0 <= k < out.len() && (#[trigger] out[k]).id == id && out[k].reason == reason;
            if k < rest.len() {
                assert(rest[k] == out[k]);
                let i = choose|i: int| 0 <= i < init.len() && R::key(#[trigger] init[i]) == id;
                assert(cache[i] == init[i]);
            } else {
                assert(cache[cache.len() - 1] == c);
            }
        }
        if reason == DiffReason::ExtraInCache && holds::<R>(cache, id) && !holds::<R>(primary, id) {
            let i = choose|i: int| 0 <= i < cache.len() && R::key(#[trigger] cache[i]) == id;
            if i < init.len() {
                assert(init[i] == cache[i]);
                let k = choose|k: int|
                    0 <= k < rest.len() && (#[trigger] rest[k]).id == id && rest[k].reason
                        == reason;
                assert(out[k] == rest[k]);
            } else {
                assert(out[out.len() - 1].id == id);
            }
        }
    }
}

proof fn reported_splits(a: Seq<FindingView>, b: Seq<FindingView>, id: i32, reason: DiffReason)
    ensures
        reported(a + b, id, reason) <==> reported(a, id, reason) || reported(b, id, reason),
{
    let ab = a + b;
    if reported(ab, id, reason) {
        let k = choose|k: int|
            0 <= k < ab.len() && (#[trigger] ab[k]).id == id && ab[k].reason == reason;
        if k < a.len() {
            assert(a[k] == ab[k]);
        } else {
            assert(b[k - a.len()] == ab[k]);
        }
    }
    if reported(a, id, reason) {
        let k = choose|k: int|
            0 <= k < a.len() && (#[trigger] a[k]).id == id && a[k].reason == reason;
        assert(ab[k] == a[k]);
    }
    if reported(b, id, reason) {
        let k = choose|k: int|
            0 <= k < b.len() && (#[trigger] b[k]).id == id && b[k].reason == reason;
        assert(ab[k + a.len()] == b[k]);
    }
}

/// The report is complete and free of false alarms. An identity is reported
/// as missing exactly when the primary holds it and the cache does not; as
/// newer in the primary exactly when the cache holds it and some primary row
/// with that identity is fresher than the cache copy; as extra exactly when
/// the cache holds it and the primary does not.
pub proof fn diff_is_complete<R: Row>(
    primary: Seq<R::V>,
    cache: Seq<R::V>,
    now: Timestamp,
    id: i32,
)
    ensures
        reported(divergence::<R>(primary, cache, now), id, DiffReason::MissingInCache) <==> (
        holds::<R>(primary, id) && !holds::<R>(cache, id)),
        reported(divergence::<R>(primary, cache, now), id, DiffReason::PrimaryNewer) <==> (
        exists|i: int|
            0 <= i < primary.len() && R::key(#[trigger] primary[i]) == id && (find::<R>(
                cache,
                id,
            ) matches Some(c) && stale(R::freshness(c), R::freshness(primary[i]), now))),
        reported(divergence::<R>(primary, cache, now), id, DiffReason::ExtraInCache) <==> (
        holds::<R>(cache, id) && !holds::<R>(primary, id)),
{
    let a = primary_findings::<R>(primary, cache, now);
    let b = extra_findings::<R>(cache, primary);
    find_agrees_with_holds::<R>(cache, id);
    reported_splits(a, b, id, DiffReason::MissingInCache);
    reported_splits(a, b, id, DiffReason::PrimaryNewer);
    reported_splits(a, b, id, DiffReason::ExtraInCache);
    primary_findings_report_what_is_earned::<R>(primary, cache, now, id, DiffReason::MissingInCache);
    primary_findings_report_what_is_earned::<R>(primary, cache, now, id, DiffReason::PrimaryNewer);
    primary_findings_report_what_is_earned::<R>(primary, cache, now, id, DiffReason::ExtraInCache);
    extra_findings_report_the_unknown::<R>(cache, primary, id, DiffReason::MissingInCache);
    extra_findings_report_the_unknown::<R>(cache, primary, id, DiffReason::PrimaryNewer);
    extra_findings_report_the_unknown::<R>(cache, primary, id, DiffReason::ExtraInCache);
    if earned::<R>(primary, cache, now, id, DiffReason::MissingInCache) {
        let i = choose|i: int|
            0 <= i < primary.len() && R::key(#[trigger] primary[i]) == id && verdict::<R>(
                primary[i],
                cache,
                now,
            ) == Some(DiffReason::MissingInCache);
        assert(R::key(primary[i]) == id);
    }
    if holds::<R>(primary, id) && !holds::<R>(cache, id) {
        let i = choose|i: int| 0 <= i < primary.len() && R::key(#[trigger] primary[i]) == id;
        assert(verdict::<R>(primary[i], cache, now) == Some(DiffReason::MissingInCache));
    }
    if earned::<R>(primary, cache, now, id, DiffReason::PrimaryNewer) {
        let i = choose|i: int|
            0 <= i < primary.len() && R::key(#[trigger] primary[i]) == id && verdict::<R>(
                primary[i],
                cache,
                now,
            ) == Some(DiffReason::PrimaryNewer);
        assert(R::key(primary[i]) == id);
    }
    if exists|i: int|
        0 <= i < primary.len() && R::key(#[trigger] primary[i]) == id && (find::<R>(cache, id)
            matches Some(c) && stale(R::freshness(c), R::freshness(primary[i]), now)) {
        let i = choose|i: int|
            0 <= i < primary.len() && R::key(#[trigger] primary[i]) == id && (find::<R>(
                cache,
                id,
            ) matches Some(c) && stale(R::freshness(c), R::freshness(primary[i]), now));
        assert(verdict::<R>(primary[i], cache, now) == Some(DiffReason::PrimaryNewer));
    }
    assert(!earned::<R>(primary, cache, now, id, DiffReason::ExtraInCache));
}

/// Two snapshots that agree report nothing: where both hold the same
/// identities and no cache copy is stale, the divergence is empty.
pub proof fn agreement_reports_nothing<R: Row>(primary: Seq<R::V>, cache: Seq<R::V>, now: Timestamp)
    requires
        forall|i: int|
            0 <= i < primary.len() ==> verdict::<R>(#[trigger] primary[i], cache, now) is None,
        forall|j: int| 0 <= j < cache.len() ==> holds::<R>(primary, R::key(#[trigger] cache[j])),
    ensures
        divergence::<R>(primary, cache, now) == Seq::<FindingView>::empty(),
{
    nothing_earned_nothing_found::<R>(primary, cache, now);
    nothing_unknown_nothing_extra::<R>(cache, primary);
}

/// Where no primary row earns a reason, the primary side reports nothing.
pub(crate) proof fn nothing_earned_nothing_found<R: Row>(primary: Seq<R::V>, cache: Seq<R::V>, now: Timestamp)
    requires
        forall|i: int|
            0 <= i < primary.len() ==> verdict::<R>(#[trigger] primary[i], cache, now) is None,
    ensures
        primary_findings::<R>(primary, cache, now) == Seq::<FindingView>::empty(),
    decreases primary.len(),
{
    if primary.len() > 0 {
        let init = primary.drop_last();
        assert forall|i: int| 0 <= i < init.len() implies verdict::<R>(
            #[trigger] init[i],
            cache,
            now,
        ) is None by {
            assert(init[i] == primary[i]);
        }
        nothing_earned_nothing_found::<R>(init, cache, now);
        assert(primary.last() == primary[primary.len() - 1]);
    }
}

proof fn nothing_unknown_nothing_extra<R: Row>(cache: Seq<R::V>, primary: Seq<R::V>)
    requires
        forall|j: int| 0 <= j < cache.len() ==> holds::<R>(primary, R::key(#[trigger] cache[j])),
    ensures
        extra_findings::<R>(cache, primary) == Seq::<FindingView>::empty(),
    decreases cache.len(),
{
    if cache.len() > 0 {
        let init = cache.drop_last();
        assert forall|j: int| 0 <= j < init.len() implies holds::<R>(
            primary,
            R::key(#[trigger] init[j]),
        ) by {
            assert(init[j] == cache[j]);
        }
        nothing_unknown_nothing_extra::<R>(init, primary);
        assert(cache.last() == cache[cache.len() - 1]);
        find_agrees_with_holds::<R>(primary, R::key(cache.last()));
    }
}

/// Compares two markers as `stale` states.
pub fn is_stale(cache_marker: Option<Timestamp>, primary_marker: Option<Timestamp>, now: Timestamp) -> (r:
    bool)
    ensures
        r == stale(cache_marker, primary_marker, now),
{
    match cache_marker {
        None => true,
        Some(c) => {
            let p = match primary_marker {
                Some(p) => p,
                None => now,
            };
            c.is_before(&p)
        },
    }
}

/// Computes the divergence between a primary snapshot and a cache snapshot
/// of one collection.
pub fn diff_collection<R: Row>(primary: &Vec<R>, cache: &Vec<R>, now: Timestamp) -> (out: Vec<Finding>)
    ensures
        views(out@) == divergence::<R>(views(primary@), views(cache@), now),
{
    let ghost pv = views(primary@);
    let ghost cv = views(cache@);
    let cache_index = IdIndex::build(cache);
    let primary_index = IdIndex::build(primary);
    let mut out: Vec<Finding> = Vec::new();
    let mut i: usize = 0;
    assert(pv.take(0) =~= Seq::empty());
    assert(views(out@) =~= Seq::empty());
    while i < primary.len()
        invariant
            i <= primary.len(),
            pv == views(primary@),
            cv == views(cache@),
            cache_index.covers::<R>(cv),
            views(out@) == primary_findings::<R>(pv.take(i as int), cv, now),
        decreases primary.len() - i,
    {
        let p = &primary[i];
        let ghost before = views(out@);
        assert(pv.take(i + 1).drop_last() =~= pv.take(i as int));
        assert(pv.take(i + 1).last() == p@);
        match cache_index.find(cache, p.id()) {
            None => {
                out.push(Finding { id: p.id(), name: p.name(), reason: DiffReason::MissingInCache });
                assert(views(out@) =~= before.push(
                    FindingView {
                        id: R::key(p@),
                        name: R::label(p@),
                        reason: DiffReason::MissingInCache,
                    },
                ));
            },
            Some(c) => {
                if is_stale(c.marker(), p.marker(), now) {
                    out.push(
                        Finding { id: p.id(), name: p.name(), reason: DiffReason::PrimaryNewer },
                    );
                    assert(views(out@) =~= before.push(
                        FindingView {
                            id: R::key(p@),
                            name: R::label(p@),
                            reason: DiffReason::PrimaryNewer,
                        },
                    ));
                }
            },
        }
        i += 1;
    }
    assert(pv.take(i as int) =~= pv);
    let ghost forward = views(out@);
    let mut j: usize = 0;
    assert(cv.take(0) =~= Seq::empty());
    assert(forward + Seq::<FindingView>::empty() =~= forward);
    while j < cache.len()
        invariant
            j <= cache.len(),
            pv == views(primary@),
            cv == views(cache@),
            primary_index.covers::<R>(pv),
            forward == primary_findings::<R>(pv, cv, now),
            views(out@) == forward + extra_findings::<R>(cv.take(j as int), pv),
        decreases cache.len() - j,
    {
        let c = &cache[j];
        let ghost before = views(out@);
        assert(cv.take(j + 1).drop_last() =~= cv.take(j as int));
        assert(cv.take(j + 1).last() == c@);
        if primary_index.find(primary, c.id()).is_none() {
            out.push(Finding { id: c.id(), name: c.name(), reason: DiffReason::ExtraInCache });
            assert(views(out@) =~= before.push(
                FindingView { id: R::key(c@), name: R::label(c@), reason: DiffReason::ExtraInCache },
            ));
        }
        j += 1;
    }
    assert(cv.take(j as int) =~= cv);
    out
}

impl DiffReason {
    /// The reason as it is shown to the operator.
    pub fn label(&self) -> (r: String)
        ensures
            r@ == match *self {
                DiffReason::MissingInCache => "missing in sqlite"@,
                DiffReason::PrimaryNewer => "postgres newer"@,
                DiffReason::ExtraInCache => "extra in sqlite"@,
            },
    {
        match self {
            DiffReason::MissingInCache => "missing in sqlite".to_owned(),
            DiffReason::PrimaryNewer => "postgres newer".to_owned(),
            DiffReason::ExtraInCache => "extra in sqlite".to_owned(),
        }
    }
}

/// A reported user.
#[derive(Debug)]
pub struct UserDiff {
    pub id: i32,
    pub username: String,
    pub reason: DiffReason,
}

/// A reported machine.
#[derive(Debug)]
pub struct MachineDiff {
    pub id: i32,
    pub name: String,
    pub reason: DiffReason,
}

/// A reported work type.
#[derive(Debug)]
pub struct WorkTypeDiff {
    pub id: i32,
    pub name: String,
    pub reason: DiffReason,
}

impl View for UserDiff {
    type V = FindingView;

    open spec fn view(&self) -> FindingView {
        FindingView { id: self.id, name: self.username@, reason: self.reason }
    }
}

impl View for MachineDiff {
    type V = FindingView;

    open spec fn view(&self) -> FindingView {
        FindingView { id: self.id, name: self.name@, reason: self.reason }
    }
}

impl View for WorkTypeDiff {
    type V = FindingView;

    open spec fn view(&self) -> FindingView {
        FindingView { id: self.id, name: self.name@, reason: self.reason }
    }
}

/// The divergence report: what differs, collection by collection.
#[derive(Debug)]
pub struct Diffs {
    pub users: Vec<UserDiff>,
    pub machines: Vec<MachineDiff>,
    pub work_types: Vec<WorkTypeDiff>,
}

/// A divergence report as a plain value.
pub ghost struct DiffsView {
    pub users: Seq<FindingView>,
    pub machines: Seq<FindingView>,
    pub work_types: Seq<FindingView>,
}

impl View for Diffs {
    type V = DiffsView;

    open spec fn view(&self) -> DiffsView {
        DiffsView {
            users: views(self.users@),
            machines: views(self.machines@),
            work_types: views(self.work_types@),
        }
    }
}

impl DiffsView {
    /// Nothing is reported for any collection.
    pub open spec fn is_empty(self) -> bool {
        self.users.len() == 0 && self.machines.len() == 0 && self.work_types.len() == 0
    }
}

impl Diffs {
    /// Nothing is reported for any collection.
    pub fn is_empty(&self) -> (r: bool)
        ensures
            r == self@.is_empty(),
    {
        self.users.len() == 0 && self.machines.len() == 0 && self.work_types.len() == 0
    }
}

/// What listing each collection of one side gave: the live rows, or the
/// failure of the store.
pub struct Snapshot {
    pub users: Result<Vec<User>, StoreError>,
    pub machines: Result<Vec<Machine>, StoreError>,
    pub work_types: Result<Vec<WorkType>, StoreError>,
}

/// What is reported for one collection. A primary that could not be listed
/// reports nothing: the cache is then taken as it is.
pub open spec fn collection_report<R: Row>(
    primary: Result<Vec<R>, StoreError>,
    cache: Vec<R>,
    now: Timestamp,
) -> Seq<FindingView> {
    match primary {
        Ok(rows) => divergence::<R>(views(rows@), views(cache@), now),
        Err(_) => Seq::empty(),
    }
}

fn report_collection<R: Row>(primary: &Result<Vec<R>, StoreError>, cache: &Vec<R>, now: Timestamp) -> (out:
    Vec<Finding>)
    ensures
        views(out@) == collection_report::<R>(*primary, *cache, now),
{
    match primary {
        Ok(rows) => diff_collection(rows, cache, now),
        Err(_) => {
            let out: Vec<Finding> = Vec::new();
            assert(views(out@) =~= Seq::<FindingView>::empty());
            out
        },
    }
}

fn into_user_diffs(findings: Vec<Finding>) -> (out: Vec<UserDiff>)
    ensures
        views(out@) == views(findings@),
{
    let mut out: Vec<UserDiff> = Vec::new();
    let mut i: usize = 0;
    while i < findings.len()
        invariant
            i <= findings.len(),
            out.len() == i,
            forall|k: int| 0 <= k < i ==> (#[trigger] out@[k])@ == findings@[k]@,
        decreases findings.len() - i,
    {
        let f = &findings[i];
        out.push(UserDiff { id: f.id, username: f.name.clone(), reason: f.reason });
        i += 1;
    }
    assert(views(out@) =~= views(findings@));
    out
}

fn into_machine_diffs(findings: Vec<Finding>) -> (out: Vec<MachineDiff>)
    ensures
        views(out@) == views(findings@),
{
    let mut out: Vec<MachineDiff> = Vec::new();
    let mut i: usize = 0;
    while i < findings.len()
        invariant
            i <= findings.len(),
            out.len() == i,
            forall|k: int| 0 <= k < i ==> (#[trigger] out@[k])@ == findings@[k]@,
        decreases findings.len() - i,
    {
        let f = &findings[i];
        out.push(MachineDiff { id: f.id, name: f.name.clone(), reason: f.reason });
        i += 1;
    }
    assert(views(out@) =~= views(findings@));
    out
}

fn into_work_type_diffs(findings: Vec<Finding>) -> (out: Vec<WorkTypeDiff>)
    ensures
        views(out@) == views(findings@),
{
    let mut out: Vec<WorkTypeDiff> = Vec::new();
    let mut i: usize = 0;
    while i < findings.len()
        invariant
            i <= findings.len(),
            out.len() == i,
            forall|k: int| 0 <= k < i ==> (#[trigger] out@[k])@ == findings@[k]@,
        decreases findings.len() - i,
    {
        let f = &findings[i];
        out.push(WorkTypeDiff { id: f.id, name: f.name.clone(), reason: f.reason });
        i += 1;
    }
    assert(views(out@) =~= views(findings@));
    out
}

/// The first failure among the cache listings, in the order users, machines,
/// work types.
pub open spec fn cache_failure(cache: Snapshot) -> Option<StoreError> {
    match cache.users {
        Err(e) => Some(e),
        Ok(_) => match cache.machines {
            Err(e) => Some(e),
            Ok(_) => match cache.work_types {
                Err(e) => Some(e),
                Ok(_) => None,
            },
        },
    }
}

/// Compares what the two sides listed.
///
/// Fails open on the primary: a collection whose primary listing failed
/// reports nothing, whatever the cache holds. Fails closed on the cache: a
/// cache listing that failed fails the whole check with that failure.
pub fn compute_diffs(primary: &Snapshot, cache: &Snapshot, now: Timestamp) -> (r: Result<
    Diffs,
    StoreError,
>)
    ensures
        match r {
            Ok(diffs) => {
                &&& cache_failure(*cache) is None
                &&& diffs@.users == collection_report::<User>(
                    primary.users,
                    cache.users->Ok_0,
                    now,
                )
                &&& diffs@.machines == collection_report::<Machine>(
                    primary.machines,
                    cache.machines->Ok_0,
                    now,
                )
                &&& diffs@.work_types == collection_report::<WorkType>(
                    primary.work_types,
                    cache.work_types->Ok_0,
                    now,
                )
            },
            Err(e) => cache_failure(*cache) == Some(e),
        },
        primary.users is Err && primary.machines is Err && primary.work_types is Err
            && cache_failure(*cache) is None ==> r is Ok && r->Ok_0@.is_empty(),
{
    let cache_users = match &cache.users {
        Ok(rows) => rows,
        Err(e) => {
            return Err(*e);
        },
    };
    let cache_machines = match &cache.machines {
        Ok(rows) => rows,
        Err(e) => {
            return Err(*e);
        },
    };
    let cache_work_types = match &cache.work_types {
        Ok(rows) => rows,
        Err(e) => {
            return Err(*e);
        },
    };
    let users = into_user_diffs(report_collection(&primary.users, cache_users, now));
    let machines = into_machine_diffs(report_collection(&primary.machines, cache_machines, now));
    let work_types = into_work_type_diffs(
        report_collection(&primary.work_types, cache_work_types, now),
    );
    Ok(Diffs { users, machines, work_types })
}

/// The cache copy of a user is missing or older than the primary copy.
pub open spec fn user_is_behind(p: UserView, cache: Seq<UserView>) -> bool {
    match find::<User>(cache, p.id) {
        None => true,
        Some(c) => c.updated_at.before(p.updated_at),
    }
}

/// The user cache needs a resync: the two sides list different numbers of
/// users, or a cached user is not marked synced, or a primary user is
/// missing from the cache or newer than the cached copy.
pub open spec fn users_need_sync(primary: Seq<UserView>, cache: Seq<UserView>) -> bool {
    ||| primary.len() != cache.len()
    ||| exists|i: int| 0 <= i < cache.len() && (#[trigger] cache[i]).sync_status != SyncStatus::Synced
    ||| exists|i: int| 0 <= i < primary.len() && user_is_behind(#[trigger] primary[i], cache)
}

fn users_differ(p: &Vec<User>, c: &Vec<User>) -> (r: bool)
    ensures
        r == users_need_sync(views(p@), views(c@)),
{
    let ghost pv = views(p@);
    let ghost cv = views(c@);
    if p.len() != c.len() {
        return true;
    }
    let mut i: usize = 0;
    while i < c.len()
        invariant
            i <= c.len(),
            cv == views(c@),
            pv == views(p@),
            forall|k: int| 0 <= k < i ==> (#[trigger] cv[k]).sync_status == SyncStatus::Synced,
        decreases c.len() - i,
    {
        match c[i].sync_status {
            SyncStatus::Synced => {},
            SyncStatus::Pending => {
                assert(cv[i as int].sync_status != SyncStatus::Synced);
                return true;
            },
        }
        i += 1;
    }
    let index = IdIndex::build(c);
    let mut j: usize = 0;
    while j < p.len()
        invariant
            j <= p.len(),
            pv == views(p@),
            cv == views(c@),
            index.covers::<User>(cv),
            p.len() == c.len(),
            forall|k: int| 0 <= k < cv.len() ==> (#[trigger] cv[k]).sync_status == SyncStatus::Synced,
            forall|k: int| 0 <= k < j ==> !user_is_behind(#[trigger] pv[k], cv),
        decreases p.len() - j,
    {
        let behind = match index.find(c, p[j].id) {
            None => true,
            Some(u) => u.updated_at.is_before(&p[j].updated_at),
        };
        if behind {
            assert(user_is_behind(pv[j as int], cv));
            return true;
        }
        j += 1;
    }
    false
}

/// Whether the user cache needs a resync. An unreachable primary needs
/// none; with a reachable primary an unreachable cache is a failure.
pub fn check_sync_needed(
    primary: &Result<Vec<User>, StoreError>,
    cache: &Result<Vec<User>, StoreError>,
) -> (r: Result<bool, StoreError>)
    ensures
        r == check_sync_needed_spec(*primary, *cache),
{
    match primary {
        Err(_) => Ok(false),
        Ok(p) => match cache {
            Err(e) => Err(*e),
            Ok(c) => Ok(users_differ(p, c)),
        },
    }
}

/// The machine cache needs a resync: the two sides list different numbers
/// of machines, or a cached machine is not marked synced.
pub open spec fn machines_need_sync(
    primary: Seq<MachineView>,
    cache: Seq<MachineView>,
) -> bool {
    ||| primary.len() != cache.len()
    ||| exists|i: int| 0 <= i < cache.len() && (#[trigger] cache[i]).sync_status != SyncStatus::Synced
}

fn machines_differ(p: &Vec<Machine>, c: &Vec<Machine>) -> (r: bool)
    ensures
        r == machines_need_sync(views(p@), views(c@)),
{
    let ghost cv = views(c@);
    if p.len() != c.len() {
        return true;
    }
    let mut i: usize = 0;
    while i < c.len()
        invariant
            i <= c.len(),
            cv == views(c@),
            p.len() == c.len(),
            forall|k: int| 0 <= k < i ==> (#[trigger] cv[k]).sync_status == SyncStatus::Synced,
        decreases c.len() - i,
    {
        match c[i].sync_status {
            SyncStatus::Synced => {},
            SyncStatus::Pending => {
                assert(cv[i as int].sync_status != SyncStatus::Synced);
                return true;
            },
        }
        i += 1;
    }
    false
}

/// Whether the machine cache needs a resync. An unreachable primary needs
/// none; with a reachable primary an unreachable cache is a failure.
pub fn check_machines_sync_needed(
    primary: &Result<Vec<Machine>, StoreError>,
    cache: &Result<Vec<Machine>, StoreError>,
) -> (r: Result<bool, StoreError>)
    ensures
        r == check_machines_sync_needed_spec(*primary, *cache),
{
    match primary {
        Err(_) => Ok(false),
        Ok(p) => match cache {
            Err(e) => Err(*e),
            Ok(c) => Ok(machines_differ(p, c)),
        },
    }
}

/// Whether the work type cache needs a resync: only where the two sides
/// list different numbers of work types. An unreachable primary needs none;
/// with a reachable primary an unreachable cache is a failure.
pub fn check_work_types_sync_needed(
    primary: &Result<Vec<WorkType>, StoreError>,
    cache: &Result<Vec<WorkType>, StoreError>,
) -> (r: Result<bool, StoreError>)
    ensures
        r == check_work_types_sync_needed_spec(*primary, *cache),
{
    match primary {
        Err(_) => Ok(false),
        Ok(p) => match cache {
            Err(e) => Err(*e),
            Ok(c) => Ok(p.len() != c.len()),
        },
    }
}

/// The identities of the rows of a snapshot, in order.
pub open spec fn user_ids(rows: Seq<UserView>) -> Seq<i32> {
    Seq::new(rows.len(), |i: int| rows[i].id)
}

/// The user check and the user report agree on snapshots that hold no
/// identity twice: where the check finds nothing to sync, the report is
/// empty. The converse does not hold, since the check also looks at the
/// sync status of the cached rows; and the checks of the machines and of the
/// work types look at less than the report does, so that they can find
/// nothing to sync where the report is not empty.
pub proof fn settled_users_report_nothing(
    primary: Seq<UserView>,
    cache: Seq<UserView>,
    now: Timestamp,
)
    requires
        distinct_keys::<User>(primary),
        distinct_keys::<User>(cache),
        !users_need_sync(primary, cache),
    ensures
        divergence::<User>(primary, cache, now) == Seq::<FindingView>::empty(),
{
    let p = user_ids(primary);
    let c = user_ids(cache);
    assert forall|i: int| 0 <= i < primary.len() implies verdict::<User>(
        #[trigger] primary[i],
        cache,
        now,
    ) is None by {
        assert(!user_is_behind(primary[i], cache));
    }
    assert(p.no_duplicates()) by {
        assert forall|i: int, j: int| 0 <= i < p.len() && 0 <= j < p.len() && i != j implies p[i]
            != p[j] by {
            assert(User::key(primary[i]) != User::key(primary[j]));
        }
    }
    assert(c.no_duplicates()) by {
        assert forall|i: int, j: int| 0 <= i < c.len() && 0 <= j < c.len() && i != j implies c[i]
            != c[j] by {
            assert(User::key(cache[i]) != User::key(cache[j]));
        }
    }
    p.unique_seq_to_set();
    c.unique_seq_to_set();
    vstd::seq_lib::seq_to_set_is_finite(p);
    vstd::seq_lib::seq_to_set_is_finite(c);
    assert(p.to_set().subset_of(c.to_set())) by {
        assert forall|id: i32| p.to_set().contains(id) implies c.to_set().contains(id) by {
            let i = choose|i: int| 0 <= i < p.len() && p[i] == id;
            assert(!user_is_behind(primary[i], cache));
            find_agrees_with_holds::<User>(cache, id);
            let j = choose|j: int| 0 <= j < cache.len() && User::key(#[trigger] cache[j]) == id;
            assert(c[j] == id);
        }
    }
    vstd::set_lib::lemma_subset_equality(p.to_set(), c.to_set());
    assert forall|j: int| 0 <= j < cache.len() implies holds::<User>(
        primary,
        User::key(#[trigger] cache[j]),
    ) by {
        let id = cache[j].id;
        assert(c[j] == id);
        assert(c.to_set().contains(id));
        assert(p.to_set().contains(id));
        let i = choose|i: int| 0 <= i < p.len() && p[i] == id;
        assert(User::key(primary[i]) == id);
    }
    agreement_reports_nothing::<User>(primary, cache, now);
}

/// What the three checks say together.
pub open spec fn sync_status_of(
    users: Result<bool, StoreError>,
    machines: Result<bool, StoreError>,
    work_types: Result<bool, StoreError>,
) -> Result<Seq<char>, StoreError> {
    match users {
        Err(e) => Err(e),
        Ok(u) => match machines {
            Err(e) => Err(e),
            Ok(m) => match work_types {
                Err(e) => Err(e),
                Ok(w) => Ok(
                    if u || m || w {
                        "sync_needed"@
                    } else {
                        "synced"@
                    },
                ),
            },
        },
    }
}

/// Answers `sync_needed` where any collection needs a resync, `synced`
/// where none does, and fails with the first failure of the three checks.
///
/// This is a quick check, not the report: machines and work types are
/// judged by their numbers and, for machines, by the sync status of the
/// cached rows. It can answer `synced` where `compute_diffs` reports a
/// row, as with primary machines 1 and 2 against cached machines 1 and 3.
pub fn check_sync_status(primary: &Snapshot, cache: &Snapshot) -> (r: Result<String, StoreError>)
    ensures
        match r {
            Ok(text) => sync_status_of(
                check_sync_needed_spec(primary.users, cache.users),
                check_machines_sync_needed_spec(primary.machines, cache.machines),
                check_work_types_sync_needed_spec(primary.work_types, cache.work_types),
            ) == Ok::<Seq<char>, StoreError>(text@),
            Err(e) => sync_status_of(
                check_sync_needed_spec(primary.users, cache.users),
                check_machines_sync_needed_spec(primary.machines, cache.machines),
                check_work_types_sync_needed_spec(primary.work_types, cache.work_types),
            ) == Err::<Seq<char>, StoreError>(e),
        },
{
    let users = match check_sync_needed(&primary.users, &cache.users) {
        Ok(b) => b,
        Err(e) => {
            return Err(e);
        },
    };
    let machines = match check_machines_sync_needed(&primary.machines, &cache.machines) {
        Ok(b) => b,
        Err(e) => {
            return Err(e);
        },
    };
    let work_types = match check_work_types_sync_needed(&primary.work_types, &cache.work_types) {
        Ok(b) => b,
        Err(e) => {
            return Err(e);
        },
    };
    if users || machines || work_types {
        Ok("sync_needed".to_owned())
    } else {
        Ok("synced".to_owned())
    }
}

/// What `check_sync_needed` answers.
pub open spec fn check_sync_needed_spec(
    primary: Result<Vec<User>, StoreError>,
    cache: Result<Vec<User>, StoreError>,
) -> Result<bool, StoreError> {
    match primary {
        Err(_) => Ok(false),
        Ok(p) => match cache {
            Err(e) => Err(e),
            Ok(c) => Ok(users_need_sync(views(p@), views(c@))),
        },
    }
}

/// What `check_machines_sync_needed` answers.
pub open spec fn check_machines_sync_needed_spec(
    primary: Result<Vec<Machine>, StoreError>,
    cache: Result<Vec<Machine>, StoreError>,
) -> Result<bool, StoreError> {
    match primary {
        Err(_) => Ok(false),
        Ok(p) => match cache {
            Err(e) => Err(e),
            Ok(c) => Ok(machines_need_sync(views(p@), views(c@))),
        },
    }
}

/// What `check_work_types_sync_needed` answers.
pub open spec fn check_work_types_sync_needed_spec(
    primary: Result<Vec<WorkType>, StoreError>,
    cache: Result<Vec<WorkType>, StoreError>,
) -> Result<bool, StoreError> {
    match primary {
        Err(_) => Ok(false),
        Ok(p) => match cache {
            Err(e) => Err(e),
            Ok(c) => Ok(p@.len() != c@.len()),
        },
    }
}

} // verus!
