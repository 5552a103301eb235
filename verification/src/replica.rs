//! One side of the system: the three collections of a primary or of a cache.

use vstd::prelude::*;
use crate::diff::Snapshot;
use crate::lookup::views;
use crate::records::{Machine, Row, User, WorkType};
use crate::store::{lists, Store, StoreError};

verus! {

/// The three collections of one side.
pub struct Replica {
    pub users: Store<User>,
    pub machines: Store<Machine>,
    pub work_types: Store<WorkType>,
}

/// `listing` is what a store with these contents answers when asked for its
/// rows.
pub open spec fn answers<R: Row>(
    listing: Result<Vec<R>, StoreError>,
    reachable: bool,
    contents: Map<i32, R::V>,
) -> bool {
    match listing {
        Ok(rows) => reachable && lists::<R>(views(rows@), contents),
        Err(e) => !reachable && e == StoreError::Unreachable,
    }
}

impl Replica {
    /// All three stores are well formed.
    pub open spec fn wf(&self) -> bool {
        self.users.wf() && self.machines.wf() && self.work_types.wf()
    }

    /// Three empty, reachable stores.
    pub fn new() -> (r: Replica)
        ensures
            r.wf(),
            r.users.contents() == Map::<i32, <User as View>::V>::empty(),
            r.machines.contents() == Map::<i32, <Machine as View>::V>::empty(),
            r.work_types.contents() == Map::<i32, <WorkType as View>::V>::empty(),
            r.users.reachable() && r.machines.reachable() && r.work_types.reachable(),
            r.users.refused() == Set::<i32>::empty(),
            r.machines.refused() == Set::<i32>::empty(),
            r.work_types.refused() == Set::<i32>::empty(),
    {
        Replica { users: Store::new(), machines: Store::new(), work_types: Store::new() }
    }

    /// Switches all three stores reachable or unreachable. Their contents
    /// and the writes they refuse stay.
    pub fn set_reachable(&mut self, up: bool)
        ensures
            final(self).wf() == old(self).wf(),
            final(self).users.contents() == old(self).users.contents(),
            final(self).machines.contents() == old(self).machines.contents(),
            final(self).work_types.contents() == old(self).work_types.contents(),
            final(self).users.reachable() == up,
            final(self).machines.reachable() == up,
            final(self).work_types.reachable() == up,
            final(self).users.refused() == old(self).users.refused(),
            final(self).machines.refused() == old(self).machines.refused(),
            final(self).work_types.refused() == old(self).work_types.refused(),
    {
        self.users.set_reachable(up);
        self.machines.set_reachable(up);
        self.work_types.set_reachable(up);
    }

    /// Lists every collection.
    pub fn snapshot(&self) -> (s: Snapshot)
        requires
            self.wf(),
        ensures
            answers::<User>(s.users, self.users.reachable(), self.users.contents()),
            answers::<Machine>(s.machines, self.machines.reachable(), self.machines.contents()),
            answers::<WorkType>(
                s.work_types,
                self.work_types.reachable(),
                self.work_types.contents(),
            ),
    {
        Snapshot {
            users: self.users.fetch_all(),
            machines: self.machines.fetch_all(),
            work_types: self.work_types.fetch_all(),
        }
    }
}

} // verus!
