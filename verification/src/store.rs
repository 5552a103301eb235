//! An in-process store for one collection. It keeps the contract that the
//! engines expect of any store: list the live rows, insert or replace by
//! identity, soft-delete by identity. It can be switched unreachable and
//! told to refuse writes to chosen identities, so that the failure paths
//! of the engines can be exercised.

use vstd::prelude::*;
use crate::lookup::{
    distinct_keys,
    find,
    find_after_push,
    find_after_remove,
    find_after_update,
    find_agrees_with_holds,
    find_gives_the_row,
    holds,
    position,
    views,
};
use crate::records::Row;

verus! {

/// How a store can fail.
#[derive(Clone, Copy, Debug, PartialEq, Eq, Structural)]
pub enum StoreError {
    /// The store cannot be reached at all.
    Unreachable,
    /// The store refused this one write.
    Rejected,
}

/// Why a store in this condition does not take a write to `id`, if it does
/// not: an unreachable store takes none, a reachable one refuses the
/// identities it was told to refuse.
pub open spec fn write_failure(reachable: bool, refused: Set<i32>, id: i32) -> Option<StoreError> {
    if !reachable {
        Some(StoreError::Unreachable)
    } else if refused.contains(id) {
        Some(StoreError::Rejected)
    } else {
        None
    }
}

/// The contents with the row under `id` soft-deleted, where there is one.
pub open spec fn entombed_at<R: Row>(contents: Map<i32, R::V>, id: i32) -> Map<i32, R::V> {
    if contents.dom().contains(id) {
        contents.insert(id, R::entombed(contents[id]))
    } else {
        contents
    }
}

/// The live row under an identity: present and not soft-deleted.
pub open spec fn live<R: Row>(contents: Map<i32, R::V>, id: i32) -> Option<R::V> {
    if contents.dom().contains(id) && !R::tombstoned(contents[id]) {
        Some(contents[id])
    } else {
        None
    }
}

/// The identities of the live rows.
pub open spec fn live_ids<R: Row>(contents: Map<i32, R::V>) -> Set<i32> {
    Set::new(|id: i32| live::<R>(contents, id) is Some)
}

/// The rows stand in the listing order of their collection.
pub open spec fn sorted<R: Row>(rows: Seq<R::V>) -> bool {
    forall|i: int, j: int|
        0 <= i < j < rows.len() ==> R::precedes(#[trigger] rows[i], #[trigger] rows[j])
}

/// `rows` is a listing of the store contents: the live rows, each once, in
/// the listing order of the collection.
pub open spec fn lists<R: Row>(rows: Seq<R::V>, contents: Map<i32, R::V>) -> bool {
    &&& distinct_keys::<R>(rows)
    &&& sorted::<R>(rows)
    &&& forall|id: i32| #[trigger] find::<R>(rows, id) == live::<R>(contents, id)
}

/// Some row other than the one under `except` carries the label.
pub open spec fn label_taken<R: Row>(
    contents: Map<i32, R::V>,
    label: Seq<char>,
    except: Option<i32>,
) -> bool {
    exists|id: i32|
        #[trigger] contents.dom().contains(id) && Some(id) != except && R::label(contents[id])
            == label
}

/// `row` is the stored row with the least identity among those that carry
/// the label.
pub open spec fn least_labelled<R: Row>(contents: Map<i32, R::V>, label: Seq<char>, row: R::V) -> bool {
    &&& contents.dom().contains(R::key(row))
    &&& contents[R::key(row)] == row
    &&& R::label(row) == label
    &&& forall|id: i32|
        #[trigger] contents.dom().contains(id) && R::label(contents[id]) == label ==> R::key(row)
            <= id
}

/// `n` is the identity that the store assigns next: one beyond the
/// greatest identity in use, and at least one.
pub open spec fn is_next_identity<R: Row>(contents: Map<i32, R::V>, n: int) -> bool {
    &&& n >= 1
    &&& forall|id: i32| #[trigger] contents.dom().contains(id) ==> id < n
    &&& n == 1 || (i32::MIN <= n - 1 <= i32::MAX && contents.dom().contains((n - 1) as i32))
}

/// Only one identity can be the next.
pub proof fn next_identity_is_unique<R: Row>(contents: Map<i32, R::V>, a: int, b: int)
    requires
        is_next_identity::<R>(contents, a),
        is_next_identity::<R>(contents, b),
    ensures
        a == b,
{
    if a < b {
        assert(contents.dom().contains((b - 1) as i32));
    }
    if b < a {
        assert(contents.dom().contains((a - 1) as i32));
    }
}

/// `rows` holds every stored row once, tombstones included.
pub open spec fn lists_raw<R: Row>(rows: Seq<R::V>, contents: Map<i32, R::V>) -> bool {
    &&& distinct_keys::<R>(rows)
    &&& forall|id: i32|
        #[trigger] find::<R>(rows, id) == if contents.dom().contains(id) {
            Some(contents[id])
        } else {
            None
        }
}

/// Every row is filed under its own identity.
pub open spec fn keyed<R: Row>(contents: Map<i32, R::V>) -> bool {
    forall|id: i32| #[trigger] contents.dom().contains(id) ==> R::key(contents[id]) == id
}

/// A store for one collection, held in memory.
pub struct Store<R: Row> {
    rows: Vec<R>,
    reachable: bool,
    refused: Vec<i32>,
}

/// `v` is one of the first `upto` stored rows and is not soft-deleted.
spec fn taken_from<R: Row>(all: Seq<R::V>, upto: int, v: R::V) -> bool {
    exists|j: int| 0 <= j < upto && j < all.len() && #[trigger] all[j] == v && !R::tombstoned(all[j])
}

/// Where `row` can be put into a sorted list so that it stays sorted.
fn insertion_point<R: Row>(list: &Vec<R>, row: &R) -> (p: usize)
    requires
        sorted::<R>(views(list@)),
    ensures
        p <= list.len(),
        sorted::<R>(views(list@).insert(p as int, row@)),
{
    let ghost lv = views(list@);
    let mut p: usize = 0;
    while p < list.len()
        invariant
            p <= list.len(),
            lv == views(list@),
            sorted::<R>(lv),
            forall|k: int| 0 <= k < p ==> R::precedes(#[trigger] lv[k], row@),
        decreases list.len() - p,
    {
        if !list[p].comes_before(row) {
            proof {
                let next = lv.insert(p as int, row@);
                assert forall|i: int, j: int| 0 <= i < j < next.len() implies R::precedes(
                    #[trigger] next[i],
                    #[trigger] next[j],
                ) by {
                    R::listing_order_is_total_preorder(row@, lv[p as int], row@);
                    if i == p {
                        assert(next[j] == lv[j - 1]);
                        if j - 1 > p {
                            assert(R::precedes(lv[p as int], lv[j - 1]));
                            R::listing_order_is_total_preorder(row@, lv[p as int], lv[j - 1]);
                        }
                    } else if j == p {
                        assert(next[i] == lv[i]);
                    } else {
                        let i2 = if i < p { i } else { i - 1 };
                        let j2 = if j < p { j } else { j - 1 };
                        assert(next[i] == lv[i2]);
                        assert(next[j] == lv[j2]);
                    }
                }
            }
            return p;
        }
        p += 1;
    }
    proof {
        let next = lv.insert(p as int, row@);
        assert forall|i: int, j: int| 0 <= i < j < next.len() implies R::precedes(
            #[trigger] next[i],
            #[trigger] next[j],
        ) by {
            assert(next[i] == lv[i]);
            if j < p {
                assert(next[j] == lv[j]);
            }
        }
    }
    p
}

/// A store as a plain value: its rows by identity, whether it answers, and
/// the identities it refuses to write.
pub ghost struct StoreView<V> {
    pub contents: Map<i32, V>,
    pub reachable: bool,
    pub refused: Set<i32>,
}

impl<R: Row> View for Store<R> {
    type V = StoreView<R::V>;

    open spec fn view(&self) -> StoreView<R::V> {
        StoreView {
            contents: self.contents(),
            reachable: self.reachable(),
            refused: self.refused(),
        }
    }
}

impl<R: Row> Store<R> {
    /// No two stored rows share an identity.
    pub closed spec fn wf(&self) -> bool {
        distinct_keys::<R>(views(self.rows@))
    }

    /// The stored rows by identity, tombstones included.
    pub closed spec fn contents(&self) -> Map<i32, R::V> {
        Map::new(
            |id: i32| holds::<R>(views(self.rows@), id),
            |id: i32| find::<R>(views(self.rows@), id)->0,
        )
    }

    /// The store answers.
    pub closed spec fn reachable(&self) -> bool {
        self.reachable
    }

    /// The identities to which the store refuses writes.
    pub closed spec fn refused(&self) -> Set<i32> {
        Set::new(|id: i32| self.refused@.contains(id))
    }

    /// Why the store does not take a write to `id`, if it does not.
    pub open spec fn write_failure(&self, id: i32) -> Option<StoreError> {
        write_failure(self.reachable(), self.refused(), id)
    }

    /// The two stores are reachable alike and refuse the same writes.
    pub open spec fn same_setup(&self, other: &Store<R>) -> bool {
        self.reachable() == other.reachable() && self.refused() == other.refused()
    }

    /// The contents of a well-formed store are filed by identity.
    pub proof fn contents_are_keyed(&self)
        ensures
            keyed::<R>(self.contents()),
    {
        assert forall|id: i32| #[trigger] self.contents().dom().contains(id) implies R::key(
            self.contents()[id],
        ) == id by {
            find_agrees_with_holds::<R>(views(self.rows@), id);
        }
    }

    /// An empty store that answers and refuses nothing.
    pub fn new() -> (s: Self)
        ensures
            s.wf(),
            s.contents() == Map::<i32, R::V>::empty(),
            s.reachable(),
            s.refused() == Set::<i32>::empty(),
    {
        let s = Store { rows: Vec::new(), reachable: true, refused: Vec::new() };
        assert(s.contents() =~= Map::<i32, R::V>::empty());
        assert(s.refused() =~= Set::<i32>::empty());
        s
    }

    /// Whether the store answers.
    pub fn is_reachable(&self) -> (r: bool)
        ensures
            r == self.reachable(),
    {
        self.reachable
    }

    /// Switches the store reachable or unreachable. Its contents stay.
    pub fn set_reachable(&mut self, up: bool)
        ensures
            final(self).wf() == old(self).wf(),
            final(self).contents() == old(self).contents(),
            final(self).reachable() == up,
            final(self).refused() == old(self).refused(),
    {
        self.reachable = up;
    }

    /// From now on the store refuses writes to `id`.
    pub fn refuse_writes_to(&mut self, id: i32)
        ensures
            final(self).wf() == old(self).wf(),
            final(self).contents() == old(self).contents(),
            final(self).reachable() == old(self).reachable(),
            final(self).refused() == old(self).refused().insert(id),
    {
        self.refused.push(id);
        proof {
            let before = old(self).refused@;
            let after = self.refused@;
            assert forall|x: i32| after.contains(x) == (before.contains(x) || x == id) by {
                if before.contains(x) {
                    let k = choose|k: int| 0 <= k < before.len() && before[k] == x;
                    assert(after[k] == x);
                }
                if x == id {
                    assert(after[before.len() as int] == x);
                }
                if after.contains(x) {
                    let k = choose|k: int| 0 <= k < after.len() && after[k] == x;
                    if k < before.len() {
                        assert(before[k] == x);
                    }
                }
            }
            assert(self.refused() =~= old(self).refused().insert(id));
        }
    }

    fn is_refused(&self, id: i32) -> (r: bool)
        ensures
            r == self.refused().contains(id),
    {
        let mut k: usize = 0;
        while k < self.refused.len()
            invariant
                k <= self.refused.len(),
                forall|j: int| 0 <= j < k ==> self.refused@[j] != id,
            decreases self.refused.len() - k,
        {
            if self.refused[k] == id {
                return true;
            }
            k += 1;
        }
        false
    }

    /// Lists the live rows in the listing order of the collection.
    pub fn fetch_all(&self) -> (r: Result<Vec<R>, StoreError>)
        requires
            self.wf(),
        ensures
            match r {
                Ok(rows) => self.reachable() && lists::<R>(views(rows@), self.contents()),
                Err(e) => !self.reachable() && e == StoreError::Unreachable,
            },
    {
        if !self.reachable {
            return Err(StoreError::Unreachable);
        }
        let ghost all = views(self.rows@);
        let mut out: Vec<R> = Vec::new();
        let mut i: usize = 0;
        while i < self.rows.len()
            invariant
                i <= self.rows.len(),
                all == views(self.rows@),
                distinct_keys::<R>(all),
                sorted::<R>(views(out@)),
                forall|k: int|
                    0 <= k < out.len() ==> taken_from::<R>(all, i as int, #[trigger] views(out@)[k]),
                forall|j: int|
                    0 <= j < i && !R::tombstoned(#[trigger] all[j]) ==> views(out@).contains(
                        all[j],
                    ),
                distinct_keys::<R>(views(out@)),
            decreases self.rows.len() - i,
        {
            if !self.rows[i].is_deleted() {
                let row = self.rows[i].duplicate();
                let p = insertion_point(&out, &row);
                let ghost before = views(out@);
                out.insert(p, row);
                proof {
                    let after = views(out@);
                    assert(after =~= before.insert(p as int, all[i as int]));
                    assert forall|k: int| 0 <= k < after.len() implies taken_from::<R>(
                        all,
                        i + 1,
                        #[trigger] after[k],
                    ) by {
                        if k == p {
                            assert(all[i as int] == after[k]);
                        } else {
                            let k2 = if k < p { k } else { k - 1 };
                            assert(before[k2] == after[k]);
                            assert(taken_from::<R>(all, i as int, before[k2]));
                            let j = choose|j: int|
                                0 <= j < i && j < all.len() && #[trigger] all[j] == before[k2]
                                    && !R::tombstoned(all[j]);
                            assert(all[j] == after[k]);
                        }
                    }
                    assert forall|j: int|
                        0 <= j < i + 1 && !R::tombstoned(#[trigger] all[j]) implies after.contains(
                        all[j],
                    ) by {
                        if j == i {
                            assert(after[p as int] == all[j]);
                        } else {
                            let k = choose|k: int| 0 <= k < before.len() && before[k] == all[j];
                            let k2 = if k < p { k } else { k + 1 };
                            assert(after[k2] == all[j]);
                        }
                    }
                    assert forall|a: int, b: int|
                        0 <= a < after.len() && 0 <= b < after.len() && a != b implies R::key(
                        #[trigger] after[a],
                    ) != R::key(#[trigger] after[b]) by {
                        assert(taken_from::<R>(all, i + 1, after[a]));
                        assert(taken_from::<R>(all, i + 1, after[b]));
                        let ja = choose|j: int|
                            0 <= j < i + 1 && j < all.len() && #[trigger] all[j] == after[a]
                                && !R::tombstoned(all[j]);
                        let jb = choose|j: int|
                            0 <= j < i + 1 && j < all.len() && #[trigger] all[j] == after[b]
                                && !R::tombstoned(all[j]);
                        if ja == jb {
                            // both places hold the same stored row: only the new
                            // row was added, so one of them is an old place
                            let a2 = if a < p { a } else { a - 1 };
                            let b2 = if b < p { b } else { b - 1 };
                            if a == p {
                                assert(before[b2] == after[b]);
                                assert(taken_from::<R>(all, i as int, before[b2]));
                                let j = choose|j: int|
                                    0 <= j < i && j < all.len() && #[trigger] all[j] == before[b2]
                                        && !R::tombstoned(all[j]);
                                assert(R::key(all[j]) != R::key(all[i as int]));
                            } else if b == p {
                                assert(before[a2] == after[a]);
                                assert(taken_from::<R>(all, i as int, before[a2]));
                                let j = choose|j: int|
                                    0 <= j < i && j < all.len() && #[trigger] all[j] == before[a2]
                                        && !R::tombstoned(all[j]);
                                assert(R::key(all[j]) != R::key(all[i as int]));
                            } else {
                                assert(before[a2] == after[a]);
                                assert(before[b2] == after[b]);
                                assert(R::key(before[a2]) != R::key(before[b2]));
                            }
                        } else {
                            assert(R::key(all[ja]) != R::key(all[jb]));
                        }
                    }
                }
            }
            proof {
                assert forall|k: int| 0 <= k < out.len() implies taken_from::<R>(
                    all,
                    i + 1,
                    #[trigger] views(out@)[k],
                ) by {
                    if R::tombstoned(all[i as int]) {
                        assert(taken_from::<R>(all, i as int, views(out@)[k]));
                        let j = choose|j: int|
                            0 <= j < i && j < all.len() && #[trigger] all[j] == views(out@)[k]
                                && !R::tombstoned(all[j]);
                        assert(all[j] == views(out@)[k]);
                    }
                }
            }
            i += 1;
        }
        proof {
            let listed = views(out@);
            let contents = self.contents();
            assert forall|id: i32| #[trigger] find::<R>(listed, id) == live::<R>(contents, id) by {
                find_agrees_with_holds::<R>(listed, id);
                find_agrees_with_holds::<R>(all, id);
                if holds::<R>(listed, id) {
                    let k = choose|k: int| 0 <= k < listed.len() && R::key(#[trigger] listed[k]) == id;
                    find_gives_the_row::<R>(listed, k);
                    assert(taken_from::<R>(all, i as int, listed[k]));
                    let j = choose|j: int|
                        0 <= j < i && j < all.len() && #[trigger] all[j] == listed[k]
                            && !R::tombstoned(all[j]);
                    find_gives_the_row::<R>(all, j);
                } else if holds::<R>(all, id) {
                    let j = choose|j: int| 0 <= j < all.len() && R::key(#[trigger] all[j]) == id;
                    find_gives_the_row::<R>(all, j);
                    if !R::tombstoned(all[j]) {
                        let k = choose|k: int| 0 <= k < listed.len() && listed[k] == all[j];
                        assert(R::key(listed[k]) == id);
                    }
                }
            }
        }
        Ok(out)
    }

    /// Lists every stored row, tombstones included, in no particular order.
    pub fn fetch_raw_all(&self) -> (r: Result<Vec<R>, StoreError>)
        requires
            self.wf(),
        ensures
            match r {
                Ok(rows) => self.reachable() && lists_raw::<R>(views(rows@), self.contents()),
                Err(e) => !self.reachable() && e == StoreError::Unreachable,
            },
    {
        if !self.reachable {
            return Err(StoreError::Unreachable);
        }
        let mut out: Vec<R> = Vec::new();
        let mut i: usize = 0;
        while i < self.rows.len()
            invariant
                i <= self.rows.len(),
                out.len() == i,
                forall|k: int| 0 <= k < i ==> (#[trigger] out@[k])@ == self.rows@[k]@,
            decreases self.rows.len() - i,
        {
            out.push(self.rows[i].duplicate());
            i += 1;
        }
        proof {
            assert(views(out@) =~= views(self.rows@));
            assert forall|id: i32|
                #[trigger] find::<R>(views(out@), id) == if self.contents().dom().contains(id) {
                    Some(self.contents()[id])
                } else {
                    None
                } by {
                find_agrees_with_holds::<R>(views(self.rows@), id);
            }
        }
        Ok(out)
    }

    /// Whether a stored row other than the one under `except` carries the
    /// label. Tombstones count: a soft-deleted row keeps its name.
    pub fn label_in_use(&self, label: &str, except: Option<i32>) -> (r: Result<bool, StoreError>)
        requires
            self.wf(),
        ensures
            match r {
                Ok(taken) => self.reachable() && taken == label_taken::<R>(
                    self.contents(),
                    label@,
                    except,
                ),
                Err(e) => !self.reachable() && e == StoreError::Unreachable,
            },
    {
        if !self.reachable {
            return Err(StoreError::Unreachable);
        }
        let ghost all = views(self.rows@);
        let mut i: usize = 0;
        while i < self.rows.len()
            invariant
                i <= self.rows.len(),
                all == views(self.rows@),
                self.wf(),
                self.reachable(),
                forall|k: int|
                    0 <= k < i ==> !(Some(R::key(#[trigger] all[k])) != except && R::label(all[k])
                        == label@),
            decreases self.rows.len() - i,
        {
            let row = &self.rows[i];
            let other = match except {
                Some(x) => row.id() != x,
                None => true,
            };
            if other && row.has_label(label) {
                proof {
                    find_gives_the_row::<R>(all, i as int);
                    assert(holds::<R>(all, R::key(all[i as int])));
                    assert(self.contents().dom().contains(R::key(all[i as int])));
                    assert(self.contents()[R::key(all[i as int])] == all[i as int]);
                }
                return Ok(true);
            }
            i += 1;
        }
        proof {
            if label_taken::<R>(self.contents(), label@, except) {
                let id = choose|id: i32|
                    #[trigger] self.contents().dom().contains(id) && Some(id) != except && R::label(
                        self.contents()[id],
                    ) == label@;
                find_agrees_with_holds::<R>(all, id);
                let k = choose|k: int| 0 <= k < all.len() && R::key(#[trigger] all[k]) == id;
                find_gives_the_row::<R>(all, k);
            }
        }
        Ok(false)
    }

    /// Reads the stored row that carries the label, tombstone or not; where
    /// several carry it, the one with the least identity.
    pub fn fetch_by_label(&self, label: &str) -> (r: Result<Option<R>, StoreError>)
        requires
            self.wf(),
        ensures
            match r {
                Ok(Some(row)) => self.reachable() && least_labelled::<R>(
                    self.contents(),
                    label@,
                    row@,
                ),
                Ok(None) => self.reachable() && !label_taken::<R>(self.contents(), label@, None),
                Err(e) => !self.reachable() && e == StoreError::Unreachable,
            },
    {
        if !self.reachable {
            return Err(StoreError::Unreachable);
        }
        let ghost all = views(self.rows@);
        let mut best: Option<usize> = None;
        let mut i: usize = 0;
        while i < self.rows.len()
            invariant
                i <= self.rows.len(),
                all == views(self.rows@),
                match best {
                    Some(b) => b < i && R::label(all[b as int]) == label@ && forall|k: int|
                        0 <= k < i && R::label(#[trigger] all[k]) == label@ ==> R::key(
                            all[b as int],
                        ) <= R::key(all[k]),
                    None => forall|k: int| 0 <= k < i ==> R::label(#[trigger] all[k]) != label@,
                },
            decreases self.rows.len() - i,
        {
            if self.rows[i].has_label(label) {
                let better = match best {
                    Some(b) => self.rows[i].id() < self.rows[b].id(),
                    None => true,
                };
                if better {
                    best = Some(i);
                }
            }
            i += 1;
        }
        match best {
            Some(b) => {
                proof {
                    let contents = self.contents();
                    find_gives_the_row::<R>(all, b as int);
                    assert(holds::<R>(all, R::key(all[b as int])));
                    assert forall|id: i32|
                        #[trigger] contents.dom().contains(id) && R::label(contents[id])
                            == label@ implies R::key(all[b as int]) <= id by {
                        find_agrees_with_holds::<R>(all, id);
                        let k = choose|k: int| 0 <= k < all.len() && R::key(#[trigger] all[k]) == id;
                        find_gives_the_row::<R>(all, k);
                    }
                }
                Ok(Some(self.rows[b].duplicate()))
            },
            None => {
                proof {
                    let contents = self.contents();
                    if label_taken::<R>(contents, label@, None) {
                        let id = choose|id: i32|
                            #[trigger] contents.dom().contains(id) && Some(id) != None::<i32>
                                && R::label(contents[id]) == label@;
                        find_agrees_with_holds::<R>(all, id);
                        let k = choose|k: int| 0 <= k < all.len() && R::key(#[trigger] all[k]) == id;
                        find_gives_the_row::<R>(all, k);
                    }
                }
                Ok(None)
            },
        }
    }

    /// The identity that the next new row gets. Fails with `Rejected` where
    /// the identities are used up.
    pub fn next_identity(&self) -> (r: Result<i32, StoreError>)
        requires
            self.wf(),
        ensures
            match r {
                Ok(id) => self.reachable() && is_next_identity::<R>(self.contents(), id as int),
                Err(e) => if !self.reachable() {
                    e == StoreError::Unreachable
                } else {
                    e == StoreError::Rejected && is_next_identity::<R>(
                        self.contents(),
                        i32::MAX + 1,
                    )
                },
            },
    {
        if !self.reachable {
            return Err(StoreError::Unreachable);
        }
        let ghost all = views(self.rows@);
        let mut top: i32 = 0;
        let mut i: usize = 0;
        while i < self.rows.len()
            invariant
                i <= self.rows.len(),
                all == views(self.rows@),
                top >= 0,
                forall|k: int| 0 <= k < i ==> R::key(#[trigger] all[k]) <= top,
                top == 0 || exists|k: int| 0 <= k < i && R::key(#[trigger] all[k]) == top,
            decreases self.rows.len() - i,
        {
            let id = self.rows[i].id();
            if id > top {
                top = id;
                assert(R::key(all[i as int]) == top);
            } else {
                proof {
                    if top != 0 {
                        let k = choose|k: int| 0 <= k < i && R::key(#[trigger] all[k]) == top;
                        assert(R::key(all[k]) == top);
                    }
                }
            }
            i += 1;
        }
        proof {
            let contents = self.contents();
            assert forall|id: i32| #[trigger] contents.dom().contains(id) implies id <= top by {
                let k = choose|k: int| 0 <= k < all.len() && R::key(#[trigger] all[k]) == id;
                assert(R::key(all[k]) <= top);
            }
            if top != 0 {
                let k = choose|k: int| 0 <= k < i && R::key(#[trigger] all[k]) == top;
                assert(holds::<R>(all, top));
            }
        }
        if top == i32::MAX {
            Err(StoreError::Rejected)
        } else {
            Ok(top + 1)
        }
    }

    /// Reads the row under an identity as it is stored, tombstone or not.
    pub fn fetch_raw(&self, id: i32) -> (r: Result<Option<R>, StoreError>)
        requires
            self.wf(),
        ensures
            match r {
                Ok(Some(row)) => self.reachable() && self.contents().dom().contains(id)
                    && self.contents()[id] == row@,
                Ok(None) => self.reachable() && !self.contents().dom().contains(id),
                Err(e) => !self.reachable() && e == StoreError::Unreachable,
            },
    {
        if !self.reachable {
            return Err(StoreError::Unreachable);
        }
        match position(&self.rows, id) {
            Some(i) => {
                proof {
                    find_gives_the_row::<R>(views(self.rows@), i as int);
                }
                Ok(Some(self.rows[i].duplicate()))
            },
            None => Ok(None),
        }
    }

    /// Inserts the row, or replaces the stored row of the same identity.
    pub fn upsert(&mut self, row: R) -> (r: Result<(), StoreError>)
        requires
            old(self).wf(),
        ensures
            final(self).wf(),
            final(self).same_setup(old(self)),
            r == match old(self).write_failure(R::key(row@)) {
                Some(e) => Err::<(), StoreError>(e),
                None => Ok(()),
            },
            final(self).contents() == if r is Ok {
                old(self).contents().insert(R::key(row@), row@)
            } else {
                old(self).contents()
            },
    {
        if !self.reachable {
            return Err(StoreError::Unreachable);
        }
        let id = row.id();
        if self.is_refused(id) {
            return Err(StoreError::Rejected);
        }
        let ghost before = views(self.rows@);
        let ghost v = row@;
        match position(&self.rows, id) {
            Some(i) => {
                self.rows.set(i, row);
                proof {
                    let after = views(self.rows@);
                    assert(after =~= before.update(i as int, v));
                    find_after_update::<R>(before, i as int, v, id);
                    assert forall|x: i32| #[trigger]
                        find::<R>(after, x) == (if x == id {
                            Some(v)
                        } else {
                            find::<R>(before, x)
                        }) by {
                        find_after_update::<R>(before, i as int, v, x);
                    }
                }
            },
            None => {
                self.rows.push(row);
                proof {
                    let after = views(self.rows@);
                    assert(after =~= before.push(v));
                    find_after_push::<R>(before, v, id);
                    assert forall|x: i32| #[trigger]
                        find::<R>(after, x) == (if x == id {
                            Some(v)
                        } else {
                            find::<R>(before, x)
                        }) by {
                        find_after_push::<R>(before, v, x);
                    }
                }
            },
        }
        proof {
            let after = views(self.rows@);
            assert forall|x: i32| holds::<R>(after, x) == (x == id || holds::<R>(before, x)) by {
                find_agrees_with_holds::<R>(after, x);
                find_agrees_with_holds::<R>(before, x);
                assert(find::<R>(after, x) == (if x == id {
                    Some(v)
                } else {
                    find::<R>(before, x)
                }));
            }
            assert forall|x: i32| #[trigger]
                self.contents().dom().contains(x) implies self.contents()[x] == old(
                self,
            ).contents().insert(id, v)[x] by {
                assert(find::<R>(after, x) == (if x == id {
                    Some(v)
                } else {
                    find::<R>(before, x)
                }));
            }
            assert(self.contents() =~= old(self).contents().insert(id, v));
        }
        Ok(())
    }

    /// Sets the soft-delete flag of the row under `id`, where there is one.
    /// Says whether a row was there.
    pub fn soft_delete(&mut self, id: i32) -> (r: Result<bool, StoreError>)
        requires
            old(self).wf(),
        ensures
            final(self).wf(),
            final(self).same_setup(old(self)),
            r == match old(self).write_failure(id) {
                Some(e) => Err::<bool, StoreError>(e),
                None => Ok(old(self).contents().dom().contains(id)),
            },
            final(self).contents() == if r is Ok {
                entombed_at::<R>(old(self).contents(), id)
            } else {
                old(self).contents()
            },
    {
        if !self.reachable {
            return Err(StoreError::Unreachable);
        }
        if self.is_refused(id) {
            return Err(StoreError::Rejected);
        }
        let ghost before = views(self.rows@);
        match position(&self.rows, id) {
            Some(i) => {
                let tomb = self.rows[i].duplicate().into_tombstone();
                let ghost v = tomb@;
                proof {
                    R::tombstones_keep_identity(before[i as int]);
                    find_gives_the_row::<R>(before, i as int);
                }
                self.rows.set(i, tomb);
                proof {
                    let after = views(self.rows@);
                    assert(after =~= before.update(i as int, v));
                    find_after_update::<R>(before, i as int, v, id);
                    assert forall|x: i32| holds::<R>(after, x) == holds::<R>(before, x) by {
                        find_agrees_with_holds::<R>(after, x);
                        find_agrees_with_holds::<R>(before, x);
                        find_after_update::<R>(before, i as int, v, x);
                    }
                    assert forall|x: i32| #[trigger]
                        self.contents().dom().contains(x) implies self.contents()[x] == old(
                        self,
                    ).contents().insert(id, v)[x] by {
                        find_after_update::<R>(before, i as int, v, x);
                    }
                    assert(self.contents() =~= old(self).contents().insert(id, v));
                }
                Ok(true)
            },
            None => Ok(false),
        }
    }

    /// Erases the row under `id`, where there is one. Says whether a row
    /// was there.
    pub fn remove(&mut self, id: i32) -> (r: Result<bool, StoreError>)
        requires
            old(self).wf(),
        ensures
            final(self).wf(),
            final(self).same_setup(old(self)),
            r == match old(self).write_failure(id) {
                Some(e) => Err::<bool, StoreError>(e),
                None => Ok(old(self).contents().dom().contains(id)),
            },
            final(self).contents() == if r is Ok {
                old(self).contents().remove(id)
            } else {
                old(self).contents()
            },
    {
        if !self.reachable {
            return Err(StoreError::Unreachable);
        }
        if self.is_refused(id) {
            return Err(StoreError::Rejected);
        }
        let ghost before = views(self.rows@);
        match position(&self.rows, id) {
            Some(i) => {
                let _ = self.rows.remove(i);
                proof {
                    let after = views(self.rows@);
                    assert(after =~= before.remove(i as int));
                    find_after_remove::<R>(before, i as int, id);
                    assert forall|x: i32| holds::<R>(after, x) == (x != id && holds::<R>(
                        before,
                        x,
                    )) by {
                        find_agrees_with_holds::<R>(after, x);
                        find_agrees_with_holds::<R>(before, x);
                        find_after_remove::<R>(before, i as int, x);
                    }
                    assert forall|x: i32| #[trigger]
                        self.contents().dom().contains(x) implies self.contents()[x] == old(
                        self,
                    ).contents().remove(id)[x] by {
                        find_after_remove::<R>(before, i as int, x);
                    }
                    assert(self.contents() =~= old(self).contents().remove(id));
                }
                Ok(true)
            },
            None => {
                assert(self.contents() =~= old(self).contents().remove(id));
                Ok(false)
            },
        }
    }
}

/// Writing a row twice leaves what writing it once leaves.
pub proof fn upsert_is_idempotent<R: Row>(contents: Map<i32, R::V>, row: R::V)
    ensures
        contents.insert(R::key(row), row).insert(R::key(row), row) == contents.insert(
            R::key(row),
            row,
        ),
{
    assert(contents.insert(R::key(row), row).insert(R::key(row), row) =~= contents.insert(
        R::key(row),
        row,
    ));
}

/// Soft-deleting a row twice leaves what soft-deleting it once leaves.
pub proof fn soft_delete_is_idempotent<R: Row>(contents: Map<i32, R::V>, id: i32)
    ensures
        entombed_at::<R>(entombed_at::<R>(contents, id), id) == entombed_at::<R>(contents, id),
{
    if contents.dom().contains(id) {
        R::tombstones_keep_identity(contents[id]);
    }
    assert(entombed_at::<R>(entombed_at::<R>(contents, id), id) =~= entombed_at::<R>(
        contents,
        id,
    ));
}

/// A listing has one row for each live identity.
pub proof fn listing_length<R: Row>(rows: Seq<R::V>, contents: Map<i32, R::V>)
    requires
        lists::<R>(rows, contents),
    ensures
        live_ids::<R>(contents).finite(),
        rows.len() == live_ids::<R>(contents).len(),
    decreases rows.len(),
{
    let ids = live_ids::<R>(contents);
    if rows.len() == 0 {
        assert forall|id: i32| !ids.contains(id) by {
            assert(find::<R>(rows, id) == live::<R>(contents, id));
        }
        assert(ids =~= Set::<i32>::empty());
    } else {
        let last = rows.last();
        let id = R::key(last);
        let init = rows.drop_last();
        let rest = contents.remove(id);
        assert(rows =~= init.push(last));
        assert forall|a: int, b: int| 0 <= a < init.len() && 0 <= b < init.len() && a != b implies R::key(
            #[trigger] init[a],
        ) != R::key(#[trigger] init[b]) by {
            assert(init[a] == rows[a]);
            assert(init[b] == rows[b]);
        }
        if holds::<R>(init, id) {
            let j = choose|j: int| 0 <= j < init.len() && R::key(#[trigger] init[j]) == id;
            assert(init[j] == rows[j]);
            assert(R::key(rows[j]) == R::key(rows[rows.len() - 1]));
        }
        assert forall|i: int, j: int| 0 <= i < j < init.len() implies R::precedes(
            #[trigger] init[i],
            #[trigger] init[j],
        ) by {
            assert(init[i] == rows[i]);
            assert(init[j] == rows[j]);
        }
        assert forall|x: i32| #[trigger] find::<R>(init, x) == live::<R>(rest, x) by {
            find_after_push::<R>(init, last, x);
            assert(find::<R>(rows, x) == live::<R>(contents, x));
            if x == id {
                find_agrees_with_holds::<R>(init, x);
            }
        }
        listing_length::<R>(init, rest);
        assert(find::<R>(rows, id) == live::<R>(contents, id));
        find_after_push::<R>(init, last, id);
        assert(ids =~= live_ids::<R>(rest).insert(id));
    }
}

} // verus!
