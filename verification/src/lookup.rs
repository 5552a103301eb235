//! Looking rows up by identity in a snapshot, and the facts about such
//! lookups that the engines rest on.

use std::collections::HashMap;
use vstd::prelude::*;
use crate::records::Row;

verus! {

broadcast use vstd::std_specs::hash::group_hash_axioms;

/// The views of a list of values, in order.
pub open spec fn views<T: View>(items: Seq<T>) -> Seq<T::V> {
    Seq::new(items.len(), |i: int| items[i]@)
}

/// The first row with the given identity, if any.
pub open spec fn find<R: Row>(rows: Seq<R::V>, id: i32) -> Option<R::V>
    decreases rows.len(),
{
    if rows.len() == 0 {
        None
    } else if R::key(rows[0]) == id {
        Some(rows[0])
    } else {
        find::<R>(rows.drop_first(), id)
    }
}

/// Some row has the given identity.
pub open spec fn holds<R: Row>(rows: Seq<R::V>, id: i32) -> bool {
    exists|i: int| 0 <= i < rows.len() && R::key(#[trigger] rows[i]) == id
}

/// No two rows share an identity.
pub open spec fn distinct_keys<R: Row>(rows: Seq<R::V>) -> bool {
    forall|i: int, j: int|
        0 <= i < rows.len() && 0 <= j < rows.len() && i != j ==> R::key(#[trigger] rows[i])
            != R::key(#[trigger] rows[j])
}

/// `find` gives a row exactly where some row has the identity, and the row
/// it gives has that identity and stands in the list.
pub proof fn find_agrees_with_holds<R: Row>(rows: Seq<R::V>, id: i32)
    ensures
        find::<R>(rows, id) is Some <==> holds::<R>(rows, id),
        find::<R>(rows, id) matches Some(r) ==> R::key(r) == id && rows.contains(r),
    decreases rows.len(),
{
    if rows.len() == 0 {
    } else if R::key(rows[0]) == id {
        assert(R::key(rows[0]) == id);
    } else {
        let tail = rows.drop_first();
        find_agrees_with_holds::<R>(tail, id);
        if holds::<R>(tail, id) {
            let i = choose|i: int| 0 <= i < tail.len() && R::key(#[trigger] tail[i]) == id;
            assert(rows[i + 1] == tail[i]);
        }
        if holds::<R>(rows, id) {
            let i = choose|i: int| 0 <= i < rows.len() && R::key(#[trigger] rows[i]) == id;
            assert(tail[i - 1] == rows[i]);
        }
        if let Some(r) = find::<R>(tail, id) {
            let j = choose|j: int| 0 <= j < tail.len() && tail[j] == r;
            assert(rows[j + 1] == r);
        }
    }
}

/// The row of a snapshot with the given identity: the first, where several
/// share it.
pub fn find_row<'a, R: Row>(rows: &'a Vec<R>, id: i32) -> (r: Option<&'a R>)
    ensures
        match r {
            Some(row) => find::<R>(views(rows@), id) == Some(row@),
            None => find::<R>(views(rows@), id) is None,
        },
{
    let ghost all = views(rows@);
    let mut i: usize = 0;
    assert(all.skip(0) =~= all);
    while i < rows.len()
        invariant
            i <= rows.len(),
            all == views(rows@),
            find::<R>(all, id) == find::<R>(all.skip(i as int), id),
        decreases rows.len() - i,
    {
        assert(all.skip(i as int)[0] == rows@[i as int]@);
        if rows[i].id() == id {
            return Some(&rows[i]);
        }
        assert(all.skip(i as int).drop_first() =~= all.skip(i + 1));
        i += 1;
    }
    None
}

/// Where identities are distinct, the row found for an identity is the one
/// row that carries it.
pub proof fn find_gives_the_row<R: Row>(rows: Seq<R::V>, i: int)
    requires
        distinct_keys::<R>(rows),
        0 <= i < rows.len(),
    ensures
        find::<R>(rows, R::key(rows[i])) == Some(rows[i]),
{
    let id = R::key(rows[i]);
    find_agrees_with_holds::<R>(rows, id);
    let r = find::<R>(rows, id)->0;
    let j = choose|j: int| 0 <= j < rows.len() && rows[j] == r;
    assert(R::key(rows[j]) == R::key(rows[i]));
}

/// Replacing a row by one of the same identity changes what is found for
/// that identity and nothing else.
pub proof fn find_after_update<R: Row>(rows: Seq<R::V>, i: int, v: R::V, id: i32)
    requires
        distinct_keys::<R>(rows),
        0 <= i < rows.len(),
        R::key(v) == R::key(rows[i]),
    ensures
        distinct_keys::<R>(rows.update(i, v)),
        find::<R>(rows.update(i, v), id) == if id == R::key(v) {
            Some(v)
        } else {
            find::<R>(rows, id)
        },
{
    let next = rows.update(i, v);
    assert forall|a: int, b: int| 0 <= a < next.len() && 0 <= b < next.len() && a != b implies R::key(
        #[trigger] next[a],
    ) != R::key(#[trigger] next[b]) by {
        assert(R::key(next[a]) == R::key(rows[a]));
        assert(R::key(next[b]) == R::key(rows[b]));
    }
    find_agrees_with_holds::<R>(next, id);
    find_agrees_with_holds::<R>(rows, id);
    if holds::<R>(next, id) {
        let j = choose|j: int| 0 <= j < next.len() && R::key(#[trigger] next[j]) == id;
        find_gives_the_row::<R>(next, j);
        if j != i {
            assert(next[j] == rows[j]);
            find_gives_the_row::<R>(rows, j);
        }
    } else {
        if holds::<R>(rows, id) {
            let j = choose|j: int| 0 <= j < rows.len() && R::key(#[trigger] rows[j]) == id;
            assert(R::key(next[j]) == id);
        }
        assert(R::key(next[i]) == R::key(v));
    }
}

/// Appending a row of a new identity changes what is found for that
/// identity and nothing else.
pub proof fn find_after_push<R: Row>(rows: Seq<R::V>, v: R::V, id: i32)
    requires
        distinct_keys::<R>(rows),
        !holds::<R>(rows, R::key(v)),
    ensures
        distinct_keys::<R>(rows.push(v)),
        find::<R>(rows.push(v), id) == if id == R::key(v) {
            Some(v)
        } else {
            find::<R>(rows, id)
        },
{
    let next = rows.push(v);
    assert forall|a: int, b: int| 0 <= a < next.len() && 0 <= b < next.len() && a != b implies R::key(
        #[trigger] next[a],
    ) != R::key(#[trigger] next[b]) by {
        if a < rows.len() {
            assert(next[a] == rows[a]);
        }
        if b < rows.len() {
            assert(next[b] == rows[b]);
        }
    }
    find_agrees_with_holds::<R>(next, id);
    find_agrees_with_holds::<R>(rows, id);
    if holds::<R>(next, id) {
        let j = choose|j: int| 0 <= j < next.len() && R::key(#[trigger] next[j]) == id;
        find_gives_the_row::<R>(next, j);
        if j < rows.len() {
            assert(next[j] == rows[j]);
            find_gives_the_row::<R>(rows, j);
        }
    } else {
        if holds::<R>(rows, id) {
            let j = choose|j: int| 0 <= j < rows.len() && R::key(#[trigger] rows[j]) == id;
            assert(R::key(next[j]) == id);
        }
        assert(R::key(next[rows.len() as int]) == R::key(v));
    }
}

/// Taking a row out changes what is found for its identity and nothing
/// else.
pub proof fn find_after_remove<R: Row>(rows: Seq<R::V>, i: int, id: i32)
    requires
        distinct_keys::<R>(rows),
        0 <= i < rows.len(),
    ensures
        distinct_keys::<R>(rows.remove(i)),
        find::<R>(rows.remove(i), id) == if id == R::key(rows[i]) {
            None
        } else {
            find::<R>(rows, id)
        },
{
    let next = rows.remove(i);
    assert forall|a: int, b: int| 0 <= a < next.len() && 0 <= b < next.len() && a != b implies R::key(
        #[trigger] next[a],
    ) != R::key(#[trigger] next[b]) by {
        let a2 = if a < i { a } else { a + 1 };
        let b2 = if b < i { b } else { b + 1 };
        assert(next[a] == rows[a2]);
        assert(next[b] == rows[b2]);
    }
    find_agrees_with_holds::<R>(next, id);
    find_agrees_with_holds::<R>(rows, id);
    if holds::<R>(next, id) {
        let j = choose|j: int| 0 <= j < next.len() && R::key(#[trigger] next[j]) == id;
        let j2 = if j < i { j } else { j + 1 };
        assert(next[j] == rows[j2]);
        find_gives_the_row::<R>(next, j);
        find_gives_the_row::<R>(rows, j2);
        assert(R::key(rows[j2]) != R::key(rows[i]));
    } else {
        if holds::<R>(rows, id) && id != R::key(rows[i]) {
            let j = choose|j: int| 0 <= j < rows.len() && R::key(#[trigger] rows[j]) == id;
            let j2 = if j < i { j } else { j - 1 };
            assert(next[j2] == rows[j]);
        }
    }
}

/// The place of the row with the given identity in a snapshot.
pub fn position<R: Row>(rows: &Vec<R>, id: i32) -> (r: Option<usize>)
    ensures
        match r {
            Some(i) => i < rows.len() && R::key(rows@[i as int]@) == id,
            None => !holds::<R>(views(rows@), id),
        },
{
    let mut i: usize = 0;
    while i < rows.len()
        invariant
            i <= rows.len(),
            forall|j: int| 0 <= j < i ==> R::key(#[trigger] views(rows@)[j]) != id,
        decreases rows.len() - i,
    {
        if rows[i].id() == id {
            return Some(i);
        }
        i += 1;
    }
    None
}

/// The place of the first row with the given identity, if any.
pub open spec fn first_place<R: Row>(rows: Seq<R::V>, id: i32) -> Option<int>
    decreases rows.len(),
{
    if rows.len() == 0 {
        None
    } else if R::key(rows[0]) == id {
        Some(0)
    } else {
        match first_place::<R>(rows.drop_first(), id) {
            Some(i) => Some(i + 1),
            None => None,
        }
    }
}

/// The first row with an identity stands at its first place.
pub proof fn find_is_at_first_place<R: Row>(rows: Seq<R::V>, id: i32)
    ensures
        match first_place::<R>(rows, id) {
            Some(i) => 0 <= i < rows.len() && find::<R>(rows, id) == Some(rows[i]),
            None => find::<R>(rows, id) is None,
        },
    decreases rows.len(),
{
    if rows.len() > 0 && R::key(rows[0]) != id {
        find_is_at_first_place::<R>(rows.drop_first(), id);
    }
}

/// A lookup by identity for one snapshot: for every identity the place of
/// the first row that carries it.
pub struct IdIndex {
    places: HashMap<i32, usize>,
}

impl IdIndex {
    /// The index is the lookup of these rows.
    pub closed spec fn covers<R: Row>(&self, rows: Seq<R::V>) -> bool {
        forall|id: i32|
            match #[trigger] first_place::<R>(rows, id) {
                Some(i) => self.places@.contains_key(id) && self.places@[id] == i,
                None => !self.places@.contains_key(id),
            }
    }

    /// Builds the lookup of a snapshot.
    pub fn build<R: Row>(rows: &Vec<R>) -> (index: IdIndex)
        ensures
            index.covers::<R>(views(rows@)),
    {
        let ghost all = views(rows@);
        let mut places: HashMap<i32, usize> = HashMap::new();
        let mut i: usize = rows.len();
        assert(all.skip(i as int) =~= Seq::<R::V>::empty());
        // rows are entered from the back, so that the first row of an
        // identity is the one that stays
        while i > 0
            invariant
                i <= rows.len(),
                all == views(rows@),
                forall|id: i32|
                    match #[trigger] first_place::<R>(all.skip(i as int), id) {
                        Some(k) => places@.contains_key(id) && places@[id] == i + k,
                        None => !places@.contains_key(id),
                    },
            decreases i,
        {
            i -= 1;
            let id = rows[i].id();
            let ghost before = places@;
            places.insert(id, i);
            proof {
                let tail = all.skip(i as int);
                assert(tail.drop_first() =~= all.skip(i + 1));
                assert(tail[0] == all[i as int]);
                assert forall|x: i32|
                    match #[trigger] first_place::<R>(tail, x) {
                        Some(k) => places@.contains_key(x) && places@[x] == i + k,
                        None => !places@.contains_key(x),
                    } by {
                    find_is_at_first_place::<R>(all.skip(i + 1), x);
                }
            }
        }
        assert(all.skip(0) =~= all);
        IdIndex { places }
    }

    /// The row of the snapshot with the given identity: the first, where
    /// several share it.
    pub fn find<'a, R: Row>(&self, rows: &'a Vec<R>, id: i32) -> (r: Option<&'a R>)
        requires
            self.covers::<R>(views(rows@)),
        ensures
            match r {
                Some(row) => find::<R>(views(rows@), id) == Some(row@),
                None => find::<R>(views(rows@), id) is None,
            },
    {
        proof {
            find_is_at_first_place::<R>(views(rows@), id);
        }
        match self.places.get(&id) {
            Some(place) => Some(&rows[*place]),
            None => None,
        }
    }
}

} // verus!
