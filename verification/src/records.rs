//! The three record collections and what the reconciliation engine reads of
//! a record: its identity, display name, freshness marker and tombstone.

use vstd::prelude::*;
use crate::text::{text_eq, text_le, text_le_total, text_le_transitive, text_precedes};
use crate::time::Timestamp;

verus! {

/// Cache-side bookkeeping: whether the cache copy was taken from the primary.
#[derive(Clone, Copy, Debug, PartialEq, Eq, Structural)]
pub enum SyncStatus {
    Synced,
    Pending,
}

/// The three collections that are mirrored.
#[derive(Clone, Copy, Debug, PartialEq, Eq, Structural)]
pub enum Collection {
    Machines,
    Users,
    WorkTypes,
}

/// Copies an optional text.
pub fn clone_text(s: &Option<String>) -> (r: Option<String>)
    ensures
        r.deep_view() == s.deep_view(),
{
    match s {
        Some(t) => Some(t.clone()),
        None => None,
    }
}

/// Copies optional bytes.
pub fn clone_bytes(b: &Option<Vec<u8>>) -> (r: Option<Vec<u8>>)
    ensures
        r.deep_view() == b.deep_view(),
{
    match b {
        Some(v) => {
            let w = v.clone();
            assert(w@ =~= v@);
            Some(w)
        },
        None => None,
    }
}

/// Copies a list of identities.
pub fn clone_ids(ids: &Vec<i32>) -> (r: Vec<i32>)
    ensures
        r@ == ids@,
{
    let r = ids.clone();
    assert(r@ =~= ids@);
    r
}

/// What the engine needs of a record, whatever its collection.
///
/// All statements are made over the record's view, so that two records with
/// equal content are interchangeable.
pub trait Row: View + Sized {
    /// The identity that the primary store assigned.
    spec fn key(v: Self::V) -> i32;

    /// The name shown to an operator.
    spec fn label(v: Self::V) -> Seq<char>;

    /// The marker by which two copies of one record are compared for staleness.
    spec fn freshness(v: Self::V) -> Option<Timestamp>;

    /// The soft-delete flag.
    spec fn tombstoned(v: Self::V) -> bool;

    /// Whether the copy was taken from the primary.
    spec fn status(v: Self::V) -> SyncStatus;

    /// The same record with its soft-delete flag set.
    spec fn entombed(v: Self::V) -> Self::V;

    /// The cache copy that a bulk resync at `now` writes.
    spec fn resynced(v: Self::V, now: Timestamp) -> Self::V;

    /// The cache copy that a write-through at `now` writes.
    spec fn mirrored(v: Self::V, now: Timestamp) -> Self::V;

    /// The same record under another identity.
    spec fn keyed_as(v: Self::V, id: i32) -> Self::V;

    /// The record without the bookkeeping that only the cache keeps: its
    /// sync status and the time of its last synchronisation.
    spec fn payload(v: Self::V) -> Self::V;

    /// The order in which a store lists its rows: `a` may stand before `b`.
    spec fn precedes(a: Self::V, b: Self::V) -> bool;

    fn id(&self) -> (r: i32)
        ensures
            r == Self::key(self@),
    ;

    fn comes_before(&self, other: &Self) -> (r: bool)
        ensures
            r == Self::precedes(self@, other@),
    ;

    fn name(&self) -> (r: String)
        ensures
            r@ == Self::label(self@),
    ;

    fn has_label(&self, label: &str) -> (r: bool)
        ensures
            r == (Self::label(self@) == label@),
    ;

    fn marker(&self) -> (r: Option<Timestamp>)
        ensures
            r == Self::freshness(self@),
    ;

    fn is_deleted(&self) -> (r: bool)
        ensures
            r == Self::tombstoned(self@),
    ;

    fn duplicate(&self) -> (r: Self)
        ensures
            r@ == self@,
    ;

    fn into_keyed(self, id: i32) -> (r: Self)
        ensures
            r@ == Self::keyed_as(self@, id),
    ;

    fn into_tombstone(self) -> (r: Self)
        ensures
            r@ == Self::entombed(self@),
    ;

    fn into_resynced(self, now: Timestamp) -> (r: Self)
        ensures
            r@ == Self::resynced(self@, now),
    ;

    fn into_mirrored(self, now: Timestamp) -> (r: Self)
        ensures
            r@ == Self::mirrored(self@, now),
    ;

    /// A tombstone is the record it was, flagged once and for all; a
    /// record under another identity carries that identity.
    proof fn tombstones_keep_identity(v: Self::V)
        ensures
            Self::key(Self::entombed(v)) == Self::key(v),
            Self::tombstoned(Self::entombed(v)),
            Self::entombed(Self::entombed(v)) == Self::entombed(v),
            forall|id: i32| Self::key(#[trigger] Self::keyed_as(v, id)) == id,
    ;

    /// Marking a record as synced never changes which record it is, and
    /// never touches the tombstone.
    proof fn marks_keep_identity(v: Self::V, now: Timestamp)
        ensures
            Self::key(Self::resynced(v, now)) == Self::key(v),
            Self::tombstoned(Self::resynced(v, now)) == Self::tombstoned(v),
            Self::label(Self::resynced(v, now)) == Self::label(v),
            Self::key(Self::mirrored(v, now)) == Self::key(v),
            Self::tombstoned(Self::mirrored(v, now)) == Self::tombstoned(v),
            Self::label(Self::mirrored(v, now)) == Self::label(v),
    ;

    /// Marking a record as synced changes its bookkeeping and nothing else.
    proof fn marks_keep_payload(v: Self::V, now: Timestamp)
        ensures
            Self::payload(Self::resynced(v, now)) == Self::payload(v),
            Self::payload(Self::mirrored(v, now)) == Self::payload(v),
            Self::payload(Self::payload(v)) == Self::payload(v),
            Self::key(Self::payload(v)) == Self::key(v),
            Self::status(Self::resynced(v, now)) == SyncStatus::Synced,
            Self::status(Self::mirrored(v, now)) == SyncStatus::Synced,
    ;

    /// The listing order compares any two rows and is transitive.
    proof fn listing_order_is_total_preorder(a: Self::V, b: Self::V, c: Self::V)
        ensures
            Self::precedes(a, b) || Self::precedes(b, a),
            Self::precedes(a, b) && Self::precedes(b, c) ==> Self::precedes(a, c),
    ;
}

/// A user account.
#[derive(Debug)]
pub struct User {
    pub id: i32,
    pub username: String,
    pub email: Option<String>,
    pub image: Option<Vec<u8>>,
    pub password_hash: String,
    pub created_at: Timestamp,
    pub updated_at: Timestamp,
    pub sync_status: SyncStatus,
    pub last_sync: Option<Timestamp>,
    pub deleted: bool,
}

/// A user as a plain value.
pub ghost struct UserView {
    pub id: i32,
    pub username: Seq<char>,
    pub email: Option<Seq<char>>,
    pub image: Option<Seq<u8>>,
    pub password_hash: Seq<char>,
    pub created_at: Timestamp,
    pub updated_at: Timestamp,
    pub sync_status: SyncStatus,
    pub last_sync: Option<Timestamp>,
    pub deleted: bool,
}

impl View for User {
    type V = UserView;

    open spec fn view(&self) -> UserView {
        UserView {
            id: self.id,
            username: self.username@,
            email: self.email.deep_view(),
            image: self.image.deep_view(),
            password_hash: self.password_hash@,
            created_at: self.created_at,
            updated_at: self.updated_at,
            sync_status: self.sync_status,
            last_sync: self.last_sync,
            deleted: self.deleted,
        }
    }
}

impl Clone for User {
    fn clone(&self) -> (r: User)
        ensures
            r@ == self@,
    {
        User {
            id: self.id,
            username: self.username.clone(),
            email: clone_text(&self.email),
            image: clone_bytes(&self.image),
            password_hash: self.password_hash.clone(),
            created_at: self.created_at,
            updated_at: self.updated_at,
            sync_status: self.sync_status,
            last_sync: self.last_sync,
            deleted: self.deleted,
        }
    }
}

/// Users are compared by the primary's modification time.
impl Row for User {
    open spec fn key(v: UserView) -> i32 {
        v.id
    }

    open spec fn label(v: UserView) -> Seq<char> {
        v.username
    }

    open spec fn freshness(v: UserView) -> Option<Timestamp> {
        Some(v.updated_at)
    }

    open spec fn tombstoned(v: UserView) -> bool {
        v.deleted
    }

    open spec fn status(v: UserView) -> SyncStatus {
        v.sync_status
    }

    open spec fn keyed_as(v: UserView, id: i32) -> UserView {
        UserView { id, ..v }
    }

    open spec fn payload(v: UserView) -> UserView {
        UserView { sync_status: SyncStatus::Synced, last_sync: None, ..v }
    }

    open spec fn entombed(v: UserView) -> UserView {
        UserView { deleted: true, ..v }
    }

    open spec fn resynced(v: UserView, now: Timestamp) -> UserView {
        UserView { sync_status: SyncStatus::Synced, last_sync: Some(now), ..v }
    }

    /// Users are listed newest first.
    open spec fn precedes(a: UserView, b: UserView) -> bool {
        !a.created_at.before(b.created_at)
    }

    open spec fn mirrored(v: UserView, now: Timestamp) -> UserView {
        UserView {
            sync_status: SyncStatus::Synced,
            last_sync: Some(
                match v.last_sync {
                    Some(t) => t,
                    None => now,
                },
            ),
            ..v
        }
    }

    fn id(&self) -> (r: i32) {
        self.id
    }

    fn name(&self) -> (r: String) {
        self.username.clone()
    }

    fn has_label(&self, label: &str) -> (r: bool) {
        text_eq(self.username.as_str(), label)
    }

    fn marker(&self) -> (r: Option<Timestamp>) {
        Some(self.updated_at)
    }

    fn is_deleted(&self) -> (r: bool) {
        self.deleted
    }

    fn duplicate(&self) -> (r: User) {
        self.clone()
    }

    fn into_keyed(self, id: i32) -> (r: User) {
        let mut r = self;
        r.id = id;
        r
    }

    fn into_tombstone(self) -> (r: User) {
        let mut r = self;
        r.deleted = true;
        r
    }

    fn into_resynced(self, now: Timestamp) -> (r: User) {
        let mut r = self;
        r.sync_status = SyncStatus::Synced;
        r.last_sync = Some(now);
        r
    }

    fn into_mirrored(self, now: Timestamp) -> (r: User) {
        let mut r = self;
        r.sync_status = SyncStatus::Synced;
        r.last_sync = match r.last_sync {
            Some(t) => Some(t),
            None => Some(now),
        };
        r
    }

    fn comes_before(&self, other: &User) -> (r: bool) {
        !self.created_at.is_before(&other.created_at)
    }

    proof fn tombstones_keep_identity(v: UserView) {
    }

    proof fn marks_keep_identity(v: UserView, now: Timestamp) {
    }

    proof fn marks_keep_payload(v: UserView, now: Timestamp) {
    }

    proof fn listing_order_is_total_preorder(a: UserView, b: UserView, c: UserView) {
    }
}

/// A machine on the shop floor.
#[derive(Debug)]
pub struct Machine {
    pub id: i32,
    pub name: String,
    pub image: Option<Vec<u8>>,
    pub user_name: Option<String>,
    pub assistant_name: Option<String>,
    pub ip_address: Option<String>,
    pub description: Option<String>,
    pub database_name: Option<String>,
    /// Identities of the work types that the machine can carry out.
    pub works_types: Vec<i32>,
    pub sync_status: SyncStatus,
    pub last_sync: Option<Timestamp>,
    pub deleted: bool,
}

/// A machine as a plain value.
pub ghost struct MachineView {
    pub id: i32,
    pub name: Seq<char>,
    pub image: Option<Seq<u8>>,
    pub user_name: Option<Seq<char>>,
    pub assistant_name: Option<Seq<char>>,
    pub ip_address: Option<Seq<char>>,
    pub description: Option<Seq<char>>,
    pub database_name: Option<Seq<char>>,
    pub works_types: Seq<i32>,
    pub sync_status: SyncStatus,
    pub last_sync: Option<Timestamp>,
    pub deleted: bool,
}

impl View for Machine {
    type V = MachineView;

    open spec fn view(&self) -> MachineView {
        MachineView {
            id: self.id,
            name: self.name@,
            image: self.image.deep_view(),
            user_name: self.user_name.deep_view(),
            assistant_name: self.assistant_name.deep_view(),
            ip_address: self.ip_address.deep_view(),
            description: self.description.deep_view(),
            database_name: self.database_name.deep_view(),
            works_types: self.works_types@,
            sync_status: self.sync_status,
            last_sync: self.last_sync,
            deleted: self.deleted,
        }
    }
}

impl Clone for Machine {
    fn clone(&self) -> (r: Machine)
        ensures
            r@ == self@,
    {
        Machine {
            id: self.id,
            name: self.name.clone(),
            image: clone_bytes(&self.image),
            user_name: clone_text(&self.user_name),
            assistant_name: clone_text(&self.assistant_name),
            ip_address: clone_text(&self.ip_address),
            description: clone_text(&self.description),
            database_name: clone_text(&self.database_name),
            works_types: clone_ids(&self.works_types),
            sync_status: self.sync_status,
            last_sync: self.last_sync,
            deleted: self.deleted,
        }
    }
}

/// Machines carry no modification time: two copies are compared by the time
/// of their last synchronisation.
impl Row for Machine {
    open spec fn key(v: MachineView) -> i32 {
        v.id
    }

    open spec fn label(v: MachineView) -> Seq<char> {
        v.name
    }

    open spec fn freshness(v: MachineView) -> Option<Timestamp> {
        v.last_sync
    }

    open spec fn tombstoned(v: MachineView) -> bool {
        v.deleted
    }

    open spec fn status(v: MachineView) -> SyncStatus {
        v.sync_status
    }

    open spec fn keyed_as(v: MachineView, id: i32) -> MachineView {
        MachineView { id, ..v }
    }

    open spec fn payload(v: MachineView) -> MachineView {
        MachineView { sync_status: SyncStatus::Synced, last_sync: None, ..v }
    }

    open spec fn entombed(v: MachineView) -> MachineView {
        MachineView { deleted: true, ..v }
    }

    open spec fn resynced(v: MachineView, now: Timestamp) -> MachineView {
        MachineView { sync_status: SyncStatus::Synced, last_sync: Some(now), ..v }
    }

    /// Listed by name, ascending.
    open spec fn precedes(a: MachineView, b: MachineView) -> bool {
        text_le(a.name, b.name)
    }

    open spec fn mirrored(v: MachineView, now: Timestamp) -> MachineView {
        MachineView {
            sync_status: SyncStatus::Synced,
            last_sync: Some(
                match v.last_sync {
                    Some(t) => t,
                    None => now,
                },
            ),
            ..v
        }
    }

    fn id(&self) -> (r: i32) {
        self.id
    }

    fn name(&self) -> (r: String) {
        self.name.clone()
    }

    fn has_label(&self, label: &str) -> (r: bool) {
        text_eq(self.name.as_str(), label)
    }

    fn marker(&self) -> (r: Option<Timestamp>) {
        self.last_sync
    }

    fn is_deleted(&self) -> (r: bool) {
        self.deleted
    }

    fn duplicate(&self) -> (r: Machine) {
        self.clone()
    }

    fn into_keyed(self, id: i32) -> (r: Machine) {
        let mut r = self;
        r.id = id;
        r
    }

    fn into_tombstone(self) -> (r: Machine) {
        let mut r = self;
        r.deleted = true;
        r
    }

    fn into_resynced(self, now: Timestamp) -> (r: Machine) {
        let mut r = self;
        r.sync_status = SyncStatus::Synced;
        r.last_sync = Some(now);
        r
    }

    fn into_mirrored(self, now: Timestamp) -> (r: Machine) {
        let mut r = self;
        r.sync_status = SyncStatus::Synced;
        r.last_sync = match r.last_sync {
            Some(t) => Some(t),
            None => Some(now),
        };
        r
    }

    fn comes_before(&self, other: &Machine) -> (r: bool) {
        text_precedes(self.name.as_str(), other.name.as_str())
    }

    proof fn tombstones_keep_identity(v: MachineView) {
    }

    proof fn marks_keep_identity(v: MachineView, now: Timestamp) {
    }

    proof fn marks_keep_payload(v: MachineView, now: Timestamp) {
    }

    proof fn listing_order_is_total_preorder(a: MachineView, b: MachineView, c: MachineView) {
        text_le_total(a.name, b.name);
        if text_le(a.name, b.name) && text_le(b.name, c.name) {
            text_le_transitive(a.name, b.name, c.name);
        }
    }
}

/// A kind of work that machines carry out.
#[derive(Debug)]
pub struct WorkType {
    pub id: i32,
    pub name: String,
    pub image: Option<Vec<u8>>,
    pub created_at: Timestamp,
    pub updated_at: Timestamp,
    pub sync_status: SyncStatus,
    pub last_sync: Option<Timestamp>,
    pub deleted: bool,
}

/// A work type as a plain value.
pub ghost struct WorkTypeView {
    pub id: i32,
    pub name: Seq<char>,
    pub image: Option<Seq<u8>>,
    pub created_at: Timestamp,
    pub updated_at: Timestamp,
    pub sync_status: SyncStatus,
    pub last_sync: Option<Timestamp>,
    pub deleted: bool,
}

impl View for WorkType {
    type V = WorkTypeView;

    open spec fn view(&self) -> WorkTypeView {
        WorkTypeView {
            id: self.id,
            name: self.name@,
            image: self.image.deep_view(),
            created_at: self.created_at,
            updated_at: self.updated_at,
            sync_status: self.sync_status,
            last_sync: self.last_sync,
            deleted: self.deleted,
        }
    }
}

impl Clone for WorkType {
    fn clone(&self) -> (r: WorkType)
        ensures
            r@ == self@,
    {
        WorkType {
            id: self.id,
            name: self.name.clone(),
            image: clone_bytes(&self.image),
            created_at: self.created_at,
            updated_at: self.updated_at,
            sync_status: self.sync_status,
            last_sync: self.last_sync,
            deleted: self.deleted,
        }
    }
}

/// Work types are compared by the primary's modification time.
impl Row for WorkType {
    open spec fn key(v: WorkTypeView) -> i32 {
        v.id
    }

    open spec fn label(v: WorkTypeView) -> Seq<char> {
        v.name
    }

    open spec fn freshness(v: WorkTypeView) -> Option<Timestamp> {
        Some(v.updated_at)
    }

    open spec fn tombstoned(v: WorkTypeView) -> bool {
        v.deleted
    }

    open spec fn status(v: WorkTypeView) -> SyncStatus {
        v.sync_status
    }

    open spec fn keyed_as(v: WorkTypeView, id: i32) -> WorkTypeView {
        WorkTypeView { id, ..v }
    }

    open spec fn payload(v: WorkTypeView) -> WorkTypeView {
        WorkTypeView { sync_status: SyncStatus::Synced, last_sync: None, ..v }
    }

    open spec fn entombed(v: WorkTypeView) -> WorkTypeView {
        WorkTypeView { deleted: true, ..v }
    }

    open spec fn resynced(v: WorkTypeView, now: Timestamp) -> WorkTypeView {
        WorkTypeView { sync_status: SyncStatus::Synced, last_sync: Some(now), ..v }
    }

    /// Listed by name, ascending.
    open spec fn precedes(a: WorkTypeView, b: WorkTypeView) -> bool {
        text_le(a.name, b.name)
    }

    open spec fn mirrored(v: WorkTypeView, now: Timestamp) -> WorkTypeView {
        WorkTypeView {
            sync_status: SyncStatus::Synced,
            last_sync: Some(
                match v.last_sync {
                    Some(t) => t,
                    None => now,
                },
            ),
            ..v
        }
    }

    fn id(&self) -> (r: i32) {
        self.id
    }

    fn name(&self) -> (r: String) {
        self.name.clone()
    }

    fn has_label(&self, label: &str) -> (r: bool) {
        text_eq(self.name.as_str(), label)
    }

    fn marker(&self) -> (r: Option<Timestamp>) {
        Some(self.updated_at)
    }

    fn is_deleted(&self) -> (r: bool) {
        self.deleted
    }

    fn duplicate(&self) -> (r: WorkType) {
        self.clone()
    }

    fn into_keyed(self, id: i32) -> (r: WorkType) {
        let mut r = self;
        r.id = id;
        r
    }

    fn into_tombstone(self) -> (r: WorkType) {
        let mut r = self;
        r.deleted = true;
        r
    }

    fn into_resynced(self, now: Timestamp) -> (r: WorkType) {
        let mut r = self;
        r.sync_status = SyncStatus::Synced;
        r.last_sync = Some(now);
        r
    }

    fn into_mirrored(self, now: Timestamp) -> (r: WorkType) {
        let mut r = self;
        r.sync_status = SyncStatus::Synced;
        r.last_sync = match r.last_sync {
            Some(t) => Some(t),
            None => Some(now),
        };
        r
    }

    fn comes_before(&self, other: &WorkType) -> (r: bool) {
        text_precedes(self.name.as_str(), other.name.as_str())
    }

    proof fn tombstones_keep_identity(v: WorkTypeView) {
    }

    proof fn marks_keep_identity(v: WorkTypeView, now: Timestamp) {
    }

    proof fn marks_keep_payload(v: WorkTypeView, now: Timestamp) {
    }

    proof fn listing_order_is_total_preorder(a: WorkTypeView, b: WorkTypeView, c: WorkTypeView) {
        text_le_total(a.name, b.name);
        if text_le(a.name, b.name) && text_le(b.name, c.name) {
            text_le_transitive(a.name, b.name, c.name);
        }
    }
}

} // verus!
