//! Records as the cache file stores them: instants as RFC 3339 text, the
//! sync status as a word, the tombstone as a number and the work types of a
//! machine as a JSON list.

use vstd::prelude::*;
use vstd::string::*;
use crate::error::{result_view, ErrorKind, Failure, FailureView};
use crate::lookup::views;
use crate::records::{
    clone_bytes,
    clone_text,
    Machine,
    MachineView,
    SyncStatus,
    User,
    UserView,
    WorkType,
    WorkTypeView,
};
use crate::text::{decimal, text_eq};
use crate::time::{instant_text, parsed_instant, Timestamp};

verus! {

/// What `serde_json::from_str` reads from a text as a list of 32-bit
/// integers, or `None` where the text is not such a list.
pub uninterp spec fn json_id_list(text: Seq<char>) -> Option<Seq<i32>>;

/// The identities of a list in decimal, separated by commas.
pub open spec fn id_list_body(ids: Seq<i32>) -> Seq<char>
    decreases ids.len(),
{
    if ids.len() == 0 {
        Seq::empty()
    } else if ids.len() == 1 {
        decimal(ids[0] as int)
    } else {
        id_list_body(ids.drop_last()) + seq![','] + decimal(ids.last() as int)
    }
}

/// A list of identities as compact JSON: a bracket, the identities in
/// decimal separated by commas, a bracket.
pub open spec fn id_list_text(ids: Seq<i32>) -> Seq<char> {
    seq!['['] + id_list_body(ids) + seq![']']
}

/// Calls `serde_json::from_str` for a list of 32-bit integers. The
/// contract only names the outcome.
#[verifier::external_body]
pub(crate) fn parse_id_list(text: &str) -> (r: Option<Vec<i32>>)
    ensures
        match r {
            Some(ids) => json_id_list(text@) == Some(ids@),
            None => json_id_list(text@) is None,
        },
{
    serde_json::from_str::<Vec<i32>>(text).ok()
}

/// Calls `serde_json::to_string` on a list of 32-bit integers. For such a
/// list it writes compact JSON into memory, which cannot fail: a bracket,
/// each integer in decimal, commas between them, a bracket. The contract
/// states that; the body is not read by the verifier.
#[verifier::external_body]
pub(crate) fn format_id_list(ids: &Vec<i32>) -> (r: Option<String>)
    ensures
        match r {
            Some(text) => text@ == id_list_text(ids@),
            None => false,
        },
{
    serde_json::to_string(ids).ok()
}

/// A user as the cache file stores it.
#[derive(Debug)]
pub struct UserRow {
    pub id: i32,
    pub username: String,
    pub email: Option<String>,
    pub image: Option<Vec<u8>>,
    pub password_hash: String,
    pub created_at: String,
    pub updated_at: String,
    pub sync_status: String,
    pub last_sync: Option<String>,
    pub deleted: i32,
}

/// A machine as the cache file stores it.
#[derive(Debug)]
pub struct MachineRow {
    pub id: i32,
    pub name: String,
    pub image: Option<Vec<u8>>,
    pub user_name: Option<String>,
    pub assistant_name: Option<String>,
    pub ip_address: Option<String>,
    pub description: Option<String>,
    pub database_name: Option<String>,
    pub works_types: String,
    pub sync_status: String,
    pub last_sync: Option<String>,
    pub deleted: i32,
}

/// A work type as the cache file stores it.
#[derive(Debug)]
pub struct WorkTypeRow {
    pub id: i32,
    pub name: String,
    pub image: Option<Vec<u8>>,
    pub created_at: String,
    pub updated_at: String,
    pub sync_status: String,
    pub last_sync: Option<String>,
    pub deleted: i32,
}

/// The sync status that a stored word stands for: `synced` is synced,
/// anything else is pending.
pub open spec fn status_of(word: Seq<char>) -> SyncStatus {
    if word == "synced"@ {
        SyncStatus::Synced
    } else {
        SyncStatus::Pending
    }
}

/// The word that is stored for a sync status.
pub open spec fn status_word(status: SyncStatus) -> Seq<char> {
    match status {
        SyncStatus::Synced => "synced"@,
        SyncStatus::Pending => "pending"@,
    }
}

/// The time of the last synchronisation that a stored text stands for: none
/// where nothing is stored, the instant of the text where it is one, and
/// `now` where it is not.
pub open spec fn last_sync_of(text: Option<Seq<char>>, now: Timestamp) -> Option<Timestamp> {
    match text {
        None => None,
        Some(t) => Some(
            match parsed_instant(t) {
                Some(instant) => instant,
                None => now,
            },
        ),
    }
}

/// The works types that a stored text stands for: the list it holds, or
/// none where it does not hold a list of identities.
pub open spec fn works_types_of(text: Seq<char>) -> Seq<i32> {
    match json_id_list(text) {
        Some(ids) => ids,
        None => Seq::empty(),
    }
}

/// The text that is stored for a list of works types.
pub open spec fn works_types_text(ids: Seq<i32>) -> Seq<char> {
    id_list_text(ids)
}

/// Reads a sync status from its stored word.
pub fn read_status(word: &str) -> (r: SyncStatus)
    ensures
        r == status_of(word@),
{
    if text_eq(word, "synced") {
        SyncStatus::Synced
    } else {
        SyncStatus::Pending
    }
}

/// Writes a sync status as its stored word.
pub fn write_status(status: SyncStatus) -> (r: String)
    ensures
        r@ == status_word(status),
{
    match status {
        SyncStatus::Synced => "synced".to_owned(),
        SyncStatus::Pending => "pending".to_owned(),
    }
}

/// Settles a time of last synchronisation, given what reading its stored
/// text gave: none where nothing is stored, the instant that was read, and
/// `now` where the text could not be read.
pub fn settle_last_sync(read: Option<Option<Timestamp>>, now: Timestamp) -> (r: Option<Timestamp>)
    ensures
        r == match read {
            None => None,
            Some(Some(instant)) => Some(instant),
            Some(None) => Some(now),
        },
{
    match read {
        None => None,
        Some(Some(instant)) => Some(instant),
        Some(None) => Some(now),
    }
}

/// Reads a time of last synchronisation from what is stored for it.
pub fn read_last_sync(text: &Option<String>, now: Timestamp) -> (r: Option<Timestamp>)
    ensures
        r == last_sync_of(text.deep_view(), now),
{
    let read = match text {
        None => None,
        Some(t) => Some(Timestamp::parse(t.as_str())),
    };
    settle_last_sync(read, now)
}

/// Settles the works types of a machine, given what reading their stored
/// text gave: the list that was read, or none where the text held no list.
pub fn settle_works_types(read: Option<Vec<i32>>) -> (r: Vec<i32>)
    ensures
        r@ == match read {
            Some(ids) => ids@,
            None => Seq::<i32>::empty(),
        },
{
    match read {
        Some(ids) => ids,
        None => Vec::new(),
    }
}

/// Reads the works types of a machine from their stored text.
pub fn read_works_types(text: &str) -> (r: Vec<i32>)
    ensures
        r@ == works_types_of(text@),
{
    settle_works_types(parse_id_list(text))
}

/// Writes the works types of a machine as their stored text.
pub fn write_works_types(ids: &Vec<i32>) -> (r: String)
    ensures
        r@ == works_types_text(ids@),
{
    match format_id_list(ids) {
        Some(text) => text,
        None => "[]".to_owned(),
    }
}

/// The failure that reports a stored instant which cannot be read.
pub open spec fn unreadable_instant(column: Seq<char>, text: Seq<char>) -> FailureView {
    FailureView {
        kind: ErrorKind::Serialization,
        message: "Errore lettura "@ + column + ": "@ + text,
    }
}

/// Settles an instant that a row cannot do without, given what reading
/// its stored text gave: the instant that was read, or a failure that
/// names the column and the text.
pub fn require_instant(column: &str, text: &str, read: Option<Timestamp>) -> (r: Result<
    Timestamp,
    Failure,
>)
    ensures
        match read {
            Some(instant) => r == Ok::<Timestamp, Failure>(instant),
            None => r is Err && r->Err_0@ == unreadable_instant(column@, text@),
        },
{
    match read {
        Some(instant) => Ok(instant),
        None => {
            let mut message = "Errore lettura ".to_owned();
            message.append(column);
            message.append(": ");
            message.append(text);
            Err(Failure { kind: ErrorKind::Serialization, message })
        },
    }
}

fn read_instant(column: &str, text: &str) -> (r: Result<Timestamp, Failure>)
    ensures
        match parsed_instant(text@) {
            Some(instant) => r == Ok::<Timestamp, Failure>(instant),
            None => r is Err && r->Err_0@ == unreadable_instant(column@, text@),
        },
{
    require_instant(column, text, Timestamp::parse(text))
}

/// The failure that reports an instant which cannot be written.
pub open spec fn unwritable_instant(column: Seq<char>) -> FailureView {
    FailureView { kind: ErrorKind::Serialization, message: "Errore scrittura "@ + column }
}

/// Settles the stored text of an instant, given what writing it gave: the
/// text that was written, or a failure that names the column.
pub fn require_instant_text(column: &str, written: Option<String>) -> (r: Result<String, Failure>)
    ensures
        match written {
            Some(text) => r is Ok && r->Ok_0@ == text@,
            None => r is Err && r->Err_0@ == unwritable_instant(column@),
        },
{
    match written {
        Some(text) => Ok(text),
        None => {
            let mut message = "Errore scrittura ".to_owned();
            message.append(column);
            Err(Failure { kind: ErrorKind::Serialization, message })
        },
    }
}

fn write_instant(column: &str, instant: Timestamp) -> (r: Result<String, Failure>)
    ensures
        match instant_text(instant) {
            Some(text) => r is Ok && r->Ok_0@ == text,
            None => r is Err && r->Err_0@ == unwritable_instant(column@),
        },
{
    require_instant_text(column, instant.to_text())
}

fn write_last_sync(instant: Option<Timestamp>) -> (r: Result<Option<String>, Failure>)
    ensures
        match instant {
            None => r is Ok && r->Ok_0 is None,
            Some(t) => match instant_text(t) {
                Some(text) => r is Ok && r->Ok_0.deep_view() == Some(text),
                None => r is Err && r->Err_0@ == unwritable_instant("last_sync"@),
            },
        },
{
    match instant {
        None => Ok(None),
        Some(t) => match write_instant("last_sync", t) {
            Ok(text) => Ok(Some(text)),
            Err(f) => Err(f),
        },
    }
}

/// What a stored user row stands for. A row whose creation or modification
/// time cannot be read stands for nothing.
pub open spec fn user_of(row: UserRowView, now: Timestamp) -> Result<UserView, FailureView> {
    match parsed_instant(row.created_at) {
        None => Err(unreadable_instant("created_at"@, row.created_at)),
        Some(created_at) => match parsed_instant(row.updated_at) {
            None => Err(unreadable_instant("updated_at"@, row.updated_at)),
            Some(updated_at) => Ok(
                assembled_user(row, created_at, updated_at, last_sync_of(row.last_sync, now)),
            ),
        },
    }
}

/// Reads a user from its stored row. `now` stands in for a time of last
/// synchronisation that cannot be read.
pub fn decode_user(row: &UserRow, now: Timestamp) -> (r: Result<User, Failure>)
    ensures
        result_view(r) == user_of(row@, now),
{
    let created_at = match read_instant("created_at", row.created_at.as_str()) {
        Ok(t) => t,
        Err(f) => {
            return Err(f);
        },
    };
    let updated_at = match read_instant("updated_at", row.updated_at.as_str()) {
        Ok(t) => t,
        Err(f) => {
            return Err(f);
        },
    };
    Ok(assemble_user(row, created_at, updated_at, read_last_sync(&row.last_sync, now)))
}

/// The user that a stored row stands for once its instants are read.
pub open spec fn assembled_user(
    row: UserRowView,
    created_at: Timestamp,
    updated_at: Timestamp,
    last_sync: Option<Timestamp>,
) -> UserView {
    UserView {
        id: row.id,
        username: row.username,
        email: row.email,
        image: row.image,
        password_hash: row.password_hash,
        created_at,
        updated_at,
        sync_status: status_of(row.sync_status),
        last_sync,
        deleted: row.deleted != 0,
    }
}

/// Puts a user together from its stored row and the instants that were
/// read from it. Any number but zero in the tombstone column is a tombstone.
pub fn assemble_user(
    row: &UserRow,
    created_at: Timestamp,
    updated_at: Timestamp,
    last_sync: Option<Timestamp>,
) -> (r: User)
    ensures
        r@ == assembled_user(row@, created_at, updated_at, last_sync),
{
    User {
        id: row.id,
        username: row.username.clone(),
        email: clone_text(&row.email),
        image: clone_bytes(&row.image),
        password_hash: row.password_hash.clone(),
        created_at,
        updated_at,
        sync_status: read_status(row.sync_status.as_str()),
        last_sync,
        deleted: row.deleted != 0,
    }
}

/// The users that a list of stored rows stands for: the rows that can be
/// read, in their order.
pub open spec fn users_of(rows: Seq<UserRow>, now: Timestamp) -> Seq<UserView>
    decreases rows.len(),
{
    if rows.len() == 0 {
        Seq::empty()
    } else {
        let rest = users_of(rows.drop_last(), now);
        match user_of(rows.last()@, now) {
            Ok(user) => rest.push(user),
            Err(_) => rest,
        }
    }
}

/// Reads the users from their stored rows. A row that cannot be read is
/// left out; the others keep their order.
pub fn decode_users(rows: &Vec<UserRow>, now: Timestamp) -> (out: Vec<User>)
    ensures
        views(out@) == users_of(rows@, now),
{
    let mut out: Vec<User> = Vec::new();
    let mut i: usize = 0;
    assert(rows@.take(0) =~= Seq::<UserRow>::empty());
    assert(views(out@) =~= Seq::<UserView>::empty());
    while i < rows.len()
        invariant
            i <= rows.len(),
            views(out@) == users_of(rows@.take(i as int), now),
        decreases rows.len() - i,
    {
        let ghost before = views(out@);
        assert(rows@.take(i + 1).drop_last() =~= rows@.take(i as int));
        assert(rows@.take(i + 1).last() == rows@[i as int]);
        match decode_user(&rows[i], now) {
            Ok(user) => {
                out.push(user);
                assert(views(out@) =~= before.push(user@));
            },
            Err(_) => {},
        }
        i += 1;
    }
    assert(rows@.take(i as int) =~= rows@);
    out
}

/// What is stored for a user, or the failure where one of its instants
/// cannot be written.
pub open spec fn user_row_of(user: UserView) -> Result<UserRowView, FailureView> {
    match instant_text(user.created_at) {
        None => Err(unwritable_instant("created_at"@)),
        Some(created_at) => match instant_text(user.updated_at) {
            None => Err(unwritable_instant("updated_at"@)),
            Some(updated_at) => match user.last_sync {
                None => Ok(stored_user(user, created_at, updated_at, None)),
                Some(t) => match instant_text(t) {
                    None => Err(unwritable_instant("last_sync"@)),
                    Some(last_sync) => Ok(
                        stored_user(user, created_at, updated_at, Some(last_sync)),
                    ),
                },
            },
        },
    }
}

/// A stored user row as a plain value.
pub ghost struct UserRowView {
    pub id: i32,
    pub username: Seq<char>,
    pub email: Option<Seq<char>>,
    pub image: Option<Seq<u8>>,
    pub password_hash: Seq<char>,
    pub created_at: Seq<char>,
    pub updated_at: Seq<char>,
    pub sync_status: Seq<char>,
    pub last_sync: Option<Seq<char>>,
    pub deleted: i32,
}

impl View for UserRow {
    type V = UserRowView;

    open spec fn view(&self) -> UserRowView {
        UserRowView {
            id: self.id,
            username: self.username@,
            email: self.email.deep_view(),
            image: self.image.deep_view(),
            password_hash: self.password_hash@,
            created_at: self.created_at@,
            updated_at: self.updated_at@,
            sync_status: self.sync_status@,
            last_sync: self.last_sync.deep_view(),
            deleted: self.deleted,
        }
    }
}

/// The stored row of a user whose instants are written as given.
pub open spec fn stored_user(
    user: UserView,
    created_at: Seq<char>,
    updated_at: Seq<char>,
    last_sync: Option<Seq<char>>,
) -> UserRowView {
    UserRowView {
        id: user.id,
        username: user.username,
        email: user.email,
        image: user.image,
        password_hash: user.password_hash,
        created_at,
        updated_at,
        sync_status: status_word(user.sync_status),
        last_sync,
        deleted: if user.deleted {
            1
        } else {
            0
        },
    }
}

/// Writes a user as its stored row.
pub fn encode_user(user: &User) -> (r: Result<UserRow, Failure>)
    ensures
        result_view(r) == user_row_of(user@),
{
    let created_at = match write_instant("created_at", user.created_at) {
        Ok(text) => text,
        Err(f) => {
            return Err(f);
        },
    };
    let updated_at = match write_instant("updated_at", user.updated_at) {
        Ok(text) => text,
        Err(f) => {
            return Err(f);
        },
    };
    let last_sync = match write_last_sync(user.last_sync) {
        Ok(text) => text,
        Err(f) => {
            return Err(f);
        },
    };
    Ok(assemble_user_row(user, created_at, updated_at, last_sync))
}

/// Puts the stored row of a user together from the user and the texts
/// that were written for its instants.
pub fn assemble_user_row(
    user: &User,
    created_at: String,
    updated_at: String,
    last_sync: Option<String>,
) -> (r: UserRow)
    ensures
        r@ == stored_user(user@, created_at@, updated_at@, last_sync.deep_view()),
{
    UserRow {
        id: user.id,
        username: user.username.clone(),
        email: clone_text(&user.email),
        image: clone_bytes(&user.image),
        password_hash: user.password_hash.clone(),
        created_at,
        updated_at,
        sync_status: write_status(user.sync_status),
        last_sync,
        deleted: if user.deleted {
            1
        } else {
            0
        },
    }
}

/// A stored machine row as a plain value.
pub ghost struct MachineRowView {
    pub id: i32,
    pub name: Seq<char>,
    pub image: Option<Seq<u8>>,
    pub user_name: Option<Seq<char>>,
    pub assistant_name: Option<Seq<char>>,
    pub ip_address: Option<Seq<char>>,
    pub description: Option<Seq<char>>,
    pub database_name: Option<Seq<char>>,
    pub works_types: Seq<char>,
    pub sync_status: Seq<char>,
    pub last_sync: Option<Seq<char>>,
    pub deleted: i32,
}

impl View for MachineRow {
    type V = MachineRowView;

    open spec fn view(&self) -> MachineRowView {
        MachineRowView {
            id: self.id,
            name: self.name@,
            image: self.image.deep_view(),
            user_name: self.user_name.deep_view(),
            assistant_name: self.assistant_name.deep_view(),
            ip_address: self.ip_address.deep_view(),
            description: self.description.deep_view(),
            database_name: self.database_name.deep_view(),
            works_types: self.works_types@,
            sync_status: self.sync_status@,
            last_sync: self.last_sync.deep_view(),
            deleted: self.deleted,
        }
    }
}

/// What a stored machine row stands for.
pub open spec fn machine_of(row: MachineRowView, now: Timestamp) -> MachineView {
    assembled_machine(row, works_types_of(row.works_types), last_sync_of(row.last_sync, now))
}

/// The machine that a stored row stands for once its work types and the
/// time of its last synchronisation are read.
pub open spec fn assembled_machine(
    row: MachineRowView,
    works_types: Seq<i32>,
    last_sync: Option<Timestamp>,
) -> MachineView {
    MachineView {
        id: row.id,
        name: row.name,
        image: row.image,
        user_name: row.user_name,
        assistant_name: row.assistant_name,
        ip_address: row.ip_address,
        description: row.description,
        database_name: row.database_name,
        works_types,
        sync_status: status_of(row.sync_status),
        last_sync,
        deleted: row.deleted != 0,
    }
}

/// Puts a machine together from its stored row and what was read from its
/// texts. Any number but zero in the tombstone column is a tombstone.
pub fn assemble_machine(row: &MachineRow, works_types: Vec<i32>, last_sync: Option<Timestamp>) -> (r:
    Machine)
    ensures
        r@ == assembled_machine(row@, works_types@, last_sync),
{
    Machine {
        id: row.id,
        name: row.name.clone(),
        image: clone_bytes(&row.image),
        user_name: clone_text(&row.user_name),
        assistant_name: clone_text(&row.assistant_name),
        ip_address: clone_text(&row.ip_address),
        description: clone_text(&row.description),
        database_name: clone_text(&row.database_name),
        works_types,
        sync_status: read_status(row.sync_status.as_str()),
        last_sync,
        deleted: row.deleted != 0,
    }
}

/// Reads a machine from its stored row. `now` stands in for a time of last
/// synchronisation that cannot be read, and a list of work types that
/// cannot be read counts as empty.
pub fn decode_machine(row: &MachineRow, now: Timestamp) -> (r: Machine)
    ensures
        r@ == machine_of(row@, now),
{
    assemble_machine(
        row,
        read_works_types(row.works_types.as_str()),
        read_last_sync(&row.last_sync, now),
    )
}

/// Reads the machines from their stored rows, in their order.
pub fn decode_machines(rows: &Vec<MachineRow>, now: Timestamp) -> (out: Vec<Machine>)
    ensures
        out@.len() == rows@.len(),
        forall|i: int| 0 <= i < rows@.len() ==> (#[trigger] out@[i])@ == machine_of(rows@[i]@, now),
{
    let mut out: Vec<Machine> = Vec::new();
    let mut i: usize = 0;
    while i < rows.len()
        invariant
            i <= rows.len(),
            out@.len() == i,
            forall|k: int| 0 <= k < i ==> (#[trigger] out@[k])@ == machine_of(rows@[k]@, now),
        decreases rows.len() - i,
    {
        out.push(decode_machine(&rows[i], now));
        i += 1;
    }
    out
}

/// What is stored for a machine, or the failure where the time of its last
/// synchronisation cannot be written.
pub open spec fn machine_row_of(machine: MachineView) -> Result<MachineRowView, FailureView> {
    match machine.last_sync {
        None => Ok(stored_machine(machine, None)),
        Some(t) => match instant_text(t) {
            None => Err(unwritable_instant("last_sync"@)),
            Some(last_sync) => Ok(stored_machine(machine, Some(last_sync))),
        },
    }
}

/// The stored row of a machine whose time of last synchronisation is
/// written as given.
pub open spec fn stored_machine(machine: MachineView, last_sync: Option<Seq<char>>) -> MachineRowView {
    MachineRowView {
        id: machine.id,
        name: machine.name,
        image: machine.image,
        user_name: machine.user_name,
        assistant_name: machine.assistant_name,
        ip_address: machine.ip_address,
        description: machine.description,
        database_name: machine.database_name,
        works_types: works_types_text(machine.works_types),
        sync_status: status_word(machine.sync_status),
        last_sync,
        deleted: if machine.deleted {
            1
        } else {
            0
        },
    }
}

/// Writes a machine as its stored row.
pub fn encode_machine(machine: &Machine) -> (r: Result<MachineRow, Failure>)
    ensures
        result_view(r) == machine_row_of(machine@),
{
    let last_sync = match write_last_sync(machine.last_sync) {
        Ok(text) => text,
        Err(f) => {
            return Err(f);
        },
    };
    Ok(assemble_machine_row(machine, write_works_types(&machine.works_types), last_sync))
}

/// Puts the stored row of a machine together from the machine and the
/// texts that were written for its work types and its time of last
/// synchronisation.
pub fn assemble_machine_row(machine: &Machine, works_types: String, last_sync: Option<String>) -> (r:
    MachineRow)
    ensures
        r@ == (MachineRowView {
            works_types: works_types@,
            ..stored_machine(machine@, last_sync.deep_view())
        }),
{
    MachineRow {
        id: machine.id,
        name: machine.name.clone(),
        image: clone_bytes(&machine.image),
        user_name: clone_text(&machine.user_name),
        assistant_name: clone_text(&machine.assistant_name),
        ip_address: clone_text(&machine.ip_address),
        description: clone_text(&machine.description),
        database_name: clone_text(&machine.database_name),
        works_types,
        sync_status: write_status(machine.sync_status),
        last_sync,
        deleted: if machine.deleted {
            1
        } else {
            0
        },
    }
}

/// A stored work type row as a plain value.
pub ghost struct WorkTypeRowView {
    pub id: i32,
    pub name: Seq<char>,
    pub image: Option<Seq<u8>>,
    pub created_at: Seq<char>,
    pub updated_at: Seq<char>,
    pub sync_status: Seq<char>,
    pub last_sync: Option<Seq<char>>,
    pub deleted: i32,
}

impl View for WorkTypeRow {
    type V = WorkTypeRowView;

    open spec fn view(&self) -> WorkTypeRowView {
        WorkTypeRowView {
            id: self.id,
            name: self.name@,
            image: self.image.deep_view(),
            created_at: self.created_at@,
            updated_at: self.updated_at@,
            sync_status: self.sync_status@,
            last_sync: self.last_sync.deep_view(),
            deleted: self.deleted,
        }
    }
}

/// What a stored work type row stands for. A row whose creation or
/// modification time cannot be read stands for nothing.
pub open spec fn work_type_of(row: WorkTypeRowView, now: Timestamp) -> Result<
    WorkTypeView,
    FailureView,
> {
    match parsed_instant(row.created_at) {
        None => Err(unreadable_instant("created_at"@, row.created_at)),
        Some(created_at) => match parsed_instant(row.updated_at) {
            None => Err(unreadable_instant("updated_at"@, row.updated_at)),
            Some(updated_at) => Ok(
                assembled_work_type(
                    row,
                    created_at,
                    updated_at,
                    last_sync_of(row.last_sync, now),
                ),
            ),
        },
    }
}

/// Reads a work type from its stored row. `now` stands in for a time of
/// last synchronisation that cannot be read.
pub fn decode_work_type(row: &WorkTypeRow, now: Timestamp) -> (r: Result<WorkType, Failure>)
    ensures
        result_view(r) == work_type_of(row@, now),
{
    let created_at = match read_instant("created_at", row.created_at.as_str()) {
        Ok(t) => t,
        Err(f) => {
            return Err(f);
        },
    };
    let updated_at = match read_instant("updated_at", row.updated_at.as_str()) {
        Ok(t) => t,
        Err(f) => {
            return Err(f);
        },
    };
    Ok(assemble_work_type(row, created_at, updated_at, read_last_sync(&row.last_sync, now)))
}

/// The work type that a stored row stands for once its instants are read.
pub open spec fn assembled_work_type(
    row: WorkTypeRowView,
    created_at: Timestamp,
    updated_at: Timestamp,
    last_sync: Option<Timestamp>,
) -> WorkTypeView {
    WorkTypeView {
        id: row.id,
        name: row.name,
        image: row.image,
        created_at,
        updated_at,
        sync_status: status_of(row.sync_status),
        last_sync,
        deleted: row.deleted != 0,
    }
}

/// Puts a work type together from its stored row and the instants that
/// were read from it. Any number but zero in the tombstone column is a
/// tombstone.
pub fn assemble_work_type(
    row: &WorkTypeRow,
    created_at: Timestamp,
    updated_at: Timestamp,
    last_sync: Option<Timestamp>,
) -> (r: WorkType)
    ensures
        r@ == assembled_work_type(row@, created_at, updated_at, last_sync),
{
    WorkType {
        id: row.id,
        name: row.name.clone(),
        image: clone_bytes(&row.image),
        created_at,
        updated_at,
        sync_status: read_status(row.sync_status.as_str()),
        last_sync,
        deleted: row.deleted != 0,
    }
}

/// The work types that a list of stored rows stands for: the rows that can
/// be read, in their order.
pub open spec fn work_types_of(rows: Seq<WorkTypeRow>, now: Timestamp) -> Seq<WorkTypeView>
    decreases rows.len(),
{
    if rows.len() == 0 {
        Seq::empty()
    } else {
        let rest = work_types_of(rows.drop_last(), now);
        match work_type_of(rows.last()@, now) {
            Ok(work_type) => rest.push(work_type),
            Err(_) => rest,
        }
    }
}

/// Reads the work types from their stored rows. A row that cannot be read
/// is left out; the others keep their order.
pub fn decode_work_types(rows: &Vec<WorkTypeRow>, now: Timestamp) -> (out: Vec<WorkType>)
    ensures
        views(out@) == work_types_of(rows@, now),
{
    let mut out: Vec<WorkType> = Vec::new();
    let mut i: usize = 0;
    assert(rows@.take(0) =~= Seq::<WorkTypeRow>::empty());
    assert(views(out@) =~= Seq::<WorkTypeView>::empty());
    while i < rows.len()
        invariant
            i <= rows.len(),
            views(out@) == work_types_of(rows@.take(i as int), now),
        decreases rows.len() - i,
    {
        let ghost before = views(out@);
        assert(rows@.take(i + 1).drop_last() =~= rows@.take(i as int));
        assert(rows@.take(i + 1).last() == rows@[i as int]);
        match decode_work_type(&rows[i], now) {
            Ok(work_type) => {
                out.push(work_type);
                assert(views(out@) =~= before.push(work_type@));
            },
            Err(_) => {},
        }
        i += 1;
    }
    assert(rows@.take(i as int) =~= rows@);
    out
}

/// What is stored for a work type, or the failure where one of its
/// instants cannot be written.
pub open spec fn work_type_row_of(work_type: WorkTypeView) -> Result<WorkTypeRowView, FailureView> {
    match instant_text(work_type.created_at) {
        None => Err(unwritable_instant("created_at"@)),
        Some(created_at) => match instant_text(work_type.updated_at) {
            None => Err(unwritable_instant("updated_at"@)),
            Some(updated_at) => match work_type.last_sync {
                None => Ok(stored_work_type(work_type, created_at, updated_at, None)),
                Some(t) => match instant_text(t) {
                    None => Err(unwritable_instant("last_sync"@)),
                    Some(last_sync) => Ok(
                        stored_work_type(work_type, created_at, updated_at, Some(last_sync)),
                    ),
                },
            },
        },
    }
}

/// The stored row of a work type whose instants are written as given.
pub open spec fn stored_work_type(
    work_type: WorkTypeView,
    created_at: Seq<char>,
    updated_at: Seq<char>,
    last_sync: Option<Seq<char>>,
) -> WorkTypeRowView {
    WorkTypeRowView {
        id: work_type.id,
        name: work_type.name,
        image: work_type.image,
        created_at,
        updated_at,
        sync_status: status_word(work_type.sync_status),
        last_sync,
        deleted: if work_type.deleted {
            1
        } else {
            0
        },
    }
}

/// Writes a work type as its stored row.
pub fn encode_work_type(work_type: &WorkType) -> (r: Result<WorkTypeRow, Failure>)
    ensures
        result_view(r) == work_type_row_of(work_type@),
{
    let created_at = match write_instant("created_at", work_type.created_at) {
        Ok(text) => text,
        Err(f) => {
            return Err(f);
        },
    };
    let updated_at = match write_instant("updated_at", work_type.updated_at) {
        Ok(text) => text,
        Err(f) => {
            return Err(f);
        },
    };
    let last_sync = match write_last_sync(work_type.last_sync) {
        Ok(text) => text,
        Err(f) => {
            return Err(f);
        },
    };
    Ok(assemble_work_type_row(work_type, created_at, updated_at, last_sync))
}

/// Puts the stored row of a work type together from the work type and the
/// texts that were written for its instants.
pub fn assemble_work_type_row(
    work_type: &WorkType,
    created_at: String,
    updated_at: String,
    last_sync: Option<String>,
) -> (r: WorkTypeRow)
    ensures
        r@ == stored_work_type(work_type@, created_at@, updated_at@, last_sync.deep_view()),
{
    WorkTypeRow {
        id: work_type.id,
        name: work_type.name.clone(),
        image: clone_bytes(&work_type.image),
        created_at,
        updated_at,
        sync_status: write_status(work_type.sync_status),
        last_sync,
        deleted: if work_type.deleted {
            1
        } else {
            0
        },
    }
}

} // verus!
