//! User accounts: registration, login and the changes a user can make to
//! an account.

use vstd::prelude::*;
use vstd::string::*;
use crate::error::{
    detailed_failure,
    failure,
    result_view,
    store_failure,
    store_failure_view,
    ErrorKind,
    Failure,
    FailureView,
};
use crate::lookup::{find, find_agrees_with_holds, find_gives_the_row, holds, views};
use crate::password::{bcrypt_verdict, hash_password, is_long_enough, long_enough, verify_password};
use crate::records::{Row, SyncStatus, User, UserView};
use crate::resync::{resync, resynced_contents};
use crate::store::{label_taken, least_labelled, lists_raw, Store, StoreError};
use crate::text::{blank, decimal, integer_text, is_blank, text_eq};
use crate::time::Timestamp;
use crate::cache::{list_store, listed};
use crate::write_through::{
    commit_or_fail,
    delete_outcome,
    delete_report,
    delete_through,
    insert_into,
    insertion_failure,
    mirror,
    next_identity,
    read_or_fail,
    read_report,
    report_delete,
    stores_after_write,
    stores_untouched,
    write_report,
    Written,
};

verus! {

/// What a user sends to log in.
#[derive(Debug)]
pub struct LoginRequest {
    pub username: String,
    pub password: String,
}

/// What a user sends to register.
#[derive(Debug)]
pub struct RegisterRequest {
    pub username: String,
    pub email: Option<String>,
    pub image: Option<Vec<u8>>,
    pub password: String,
}

/// A logged-in user and the token of the session.
#[derive(Debug)]
pub struct AuthResponse {
    pub user: User,
    pub token: String,
}

/// A session as a plain value.
pub ghost struct AuthView {
    pub user: UserView,
    pub token: Seq<char>,
}

impl View for AuthResponse {
    type V = AuthView;

    open spec fn view(&self) -> AuthView {
        AuthView { user: self.user@, token: self.token@ }
    }
}

/// The token of a session that starts at `now`.
pub open spec fn session_token(id: i32, now: Timestamp) -> Seq<char> {
    "user_"@ + decimal(id as int) + "_"@ + decimal(now.secs as int)
}

/// Makes the token of a session that starts at `now`.
pub fn make_token(id: i32, now: Timestamp) -> (token: String)
    ensures
        token@ == session_token(id, now),
{
    let mut token = "user_".to_owned();
    token.append(integer_text(id as i64).as_str());
    token.append("_");
    token.append(integer_text(now.secs).as_str());
    token
}

/// How a login ends once the account is found and the password checked.
pub open spec fn login_conclusion(
    user: UserView,
    verdict: Result<bool, Seq<char>>,
    now: Timestamp,
) -> Result<AuthView, FailureView> {
    match verdict {
        Err(text) => Err(
            FailureView { kind: ErrorKind::Internal, message: "Errore verifica password: "@ + text },
        ),
        Ok(false) => Err(
            FailureView { kind: ErrorKind::Denied, message: "Password non corretta"@ },
        ),
        Ok(true) => Ok(AuthView { user, token: session_token(user.id, now) }),
    }
}

/// Ends a login, given the account and what checking the password gave:
/// a session for a matching password, a denial for one that does not match,
/// and the failure of the check where the check itself failed.
pub fn conclude_login(user: User, verdict: Result<bool, String>, now: Timestamp) -> (r: Result<
    AuthResponse,
    Failure,
>)
    ensures
        result_view(r) == login_conclusion(user@, result_view(verdict), now),
{
    match verdict {
        Err(text) => Err(
            detailed_failure(ErrorKind::Internal, "Errore verifica password: ", text.as_str()),
        ),
        Ok(false) => Err(Failure::new(ErrorKind::Denied, "Password non corretta")),
        Ok(true) => {
            let token = make_token(user.id, now);
            Ok(AuthResponse { user, token })
        },
    }
}

/// The account that a login under `username` is checked against: the
/// stored account of that name with the least identity.
pub open spec fn account_named(contents: Map<i32, UserView>, username: Seq<char>) -> UserView {
    choose|u: UserView| least_labelled::<User>(contents, username, u)
}

/// At most one account is the one of least identity under a name.
pub proof fn account_named_is_unique(contents: Map<i32, UserView>, username: Seq<char>, u: UserView)
    requires
        least_labelled::<User>(contents, username, u),
    ensures
        account_named(contents, username) == u,
{
    let v = account_named(contents, username);
    assert(least_labelled::<User>(contents, username, v));
    assert(contents.dom().contains(u.id));
    assert(contents.dom().contains(v.id));
}

/// How a login ends.
pub open spec fn login_outcome(
    reachable: bool,
    contents: Map<i32, UserView>,
    username: Seq<char>,
    password: Seq<char>,
    now: Timestamp,
) -> Result<AuthView, FailureView> {
    if !reachable {
        Err(store_failure_view("Errore apertura database SQLite: "@, StoreError::Unreachable))
    } else if blank(username) || blank(password) {
        Err(
            FailureView {
                kind: ErrorKind::InvalidInput,
                message: "Username e password obbligatori"@,
            },
        )
    } else if !label_taken::<User>(contents, username, None) {
        Err(FailureView { kind: ErrorKind::NotFound, message: "Utente non trovato"@ })
    } else {
        let user = account_named(contents, username);
        login_conclusion(user, bcrypt_verdict(password, user.password_hash), now)
    }
}

/// Logs a user in against the cache.
///
/// Fails where the cache cannot be reached, where the name or the password
/// is blank, where no account carries the name, and where the password
/// does not match the stored hash. A soft-deleted account can still log in.
pub fn login_user(cache: &Store<User>, request: LoginRequest, now: Timestamp) -> (r: Result<
    AuthResponse,
    Failure,
>)
    requires
        cache.wf(),
    ensures
        result_view(r) == login_outcome(
                cache.reachable(),
                cache.contents(),
                request.username@,
                request.password@,
                now,
            ),
{
    if !cache.is_reachable() {
        return Err(store_failure("Errore apertura database SQLite: ", StoreError::Unreachable));
    }
    if is_blank(request.username.as_str()) || is_blank(request.password.as_str()) {
        return Err(Failure::new(ErrorKind::InvalidInput, "Username e password obbligatori"));
    }
    let found = match cache.fetch_by_label(request.username.as_str()) {
        Ok(found) => found,
        Err(e) => {
            return Err(store_failure("Errore apertura database SQLite: ", e));
        },
    };
    match found {
        None => Err(Failure::new(ErrorKind::NotFound, "Utente non trovato")),
        Some(user) => {
            proof {
                account_named_is_unique(cache.contents(), request.username@, user@);
                assert(label_taken::<User>(cache.contents(), request.username@, None)) by {
                    assert(cache.contents().dom().contains(user@.id));
                }
            }
            let verdict = verify_password(request.password.as_str(), user.password_hash.as_str());
            conclude_login(user, verdict, now)
        },
    }
}

/// Some account other than `except` carries the address.
pub open spec fn email_taken(contents: Map<i32, UserView>, email: Seq<char>, except: i32) -> bool {
    exists|id: i32|
        #[trigger] contents.dom().contains(id) && id != except && contents[id].email == Some(email)
}

/// Whether an account other than `except` carries the address. Tombstones
/// count.
pub fn email_in_use(store: &Store<User>, email: &str, except: i32) -> (r: Result<bool, StoreError>)
    requires
        store.wf(),
    ensures
        match r {
            Ok(taken) => store.reachable() && taken == email_taken(store.contents(), email@, except),
            Err(e) => !store.reachable() && e == StoreError::Unreachable,
        },
{
    let rows = match store.fetch_raw_all() {
        Ok(rows) => rows,
        Err(e) => {
            return Err(e);
        },
    };
    let ghost all = views(rows@);
    let ghost contents = store.contents();
    let mut i: usize = 0;
    while i < rows.len()
        invariant
            i <= rows.len(),
            all == views(rows@),
            contents == store.contents(),
            store.reachable(),
            lists_raw::<User>(all, contents),
            forall|k: int|
                0 <= k < i ==> !((#[trigger] all[k]).id != except && all[k].email == Some(email@)),
        decreases rows.len() - i,
    {
        let row = &rows[i];
        let same = match &row.email {
            Some(e) => text_eq(e.as_str(), email),
            None => false,
        };
        if row.id != except && same {
            proof {
                find_gives_the_row::<User>(all, i as int);
                assert(find::<User>(all, all[i as int].id) == Some(all[i as int]));
                assert(contents.dom().contains(all[i as int].id));
            }
            return Ok(true);
        }
        i += 1;
    }
    proof {
        if email_taken(contents, email@, except) {
            let id = choose|id: i32|
                #[trigger] contents.dom().contains(id) && id != except && contents[id].email == Some(
                    email@,
                );
            assert(find::<User>(all, id) == Some(contents[id]));
            find_agrees_with_holds::<User>(all, id);
            let k = choose|k: int| 0 <= k < all.len() && all[k] == contents[id];
            assert(all[k].id == id);
        }
    }
    Ok(false)
}

/// Why a change of name, address and picture is refused, if it is.
pub open spec fn user_update_refusal(
    primary: &Store<User>,
    user_id: i32,
    username: Seq<char>,
    email: Option<Seq<char>>,
) -> Option<FailureView> {
    if !primary.reachable() {
        Some(store_failure_view("Errore recupero utente: "@, StoreError::Unreachable))
    } else if blank(username) {
        Some(failure(ErrorKind::InvalidInput, "Username obbligatorio"@))
    } else if !primary.contents().dom().contains(user_id) {
        Some(failure(ErrorKind::NotFound, "Utente non trovato"@))
    } else if label_taken::<User>(primary.contents(), username, Some(user_id)) {
        Some(failure(ErrorKind::Conflict, "Username gi\u{e0} in uso"@))
    } else if email is Some && !blank(email->0) && email_taken(
        primary.contents(),
        email->0,
        user_id,
    ) {
        Some(failure(ErrorKind::Conflict, "Email gi\u{e0} in uso"@))
    } else {
        None
    }
}

/// The account after a change of name, address and picture at `now`.
pub open spec fn updated_user(
    current: UserView,
    username: Seq<char>,
    email: Option<Seq<char>>,
    image: Option<Seq<u8>>,
    now: Timestamp,
) -> UserView {
    UserView {
        username,
        email,
        image,
        updated_at: now,
        sync_status: SyncStatus::Synced,
        last_sync: Some(now),
        ..current
    }
}

/// Changes the name, address and picture of an account: in the primary
/// first, then in the cache.
///
/// Refused, with nothing changed, where the primary cannot be reached, the
/// name is blank, the account does not exist, or another account carries
/// the name or the address. A blank address is not compared.
pub fn update_user(
    primary: &mut Store<User>,
    cache: &mut Store<User>,
    user_id: i32,
    username: String,
    email: Option<String>,
    image: Option<Vec<u8>>,
    now: Timestamp,
) -> (r: Result<Written<User>, Failure>)
    requires
        old(primary).wf(),
        old(cache).wf(),
    ensures
        final(primary).wf(),
        final(cache).wf(),
        final(primary).same_setup(old(primary)),
        final(cache).same_setup(old(cache)),
        match user_update_refusal(old(primary), user_id, username@, email.deep_view()) {
            Some(refusal) => {
                &&& r is Err
                &&& r->Err_0@ == refusal
                &&& stores_untouched::<User>(old(primary), old(cache), final(primary), final(cache))
            },
            None => {
                let updated = updated_user(
                    old(primary).contents()[user_id],
                    username@,
                    email.deep_view(),
                    image.deep_view(),
                    now,
                );
                &&& stores_after_write::<User>(
                    old(primary),
                    old(cache),
                    updated,
                    now,
                    final(primary),
                    final(cache),
                )
                &&& result_view(r) == write_report::<User>(
                    old(primary),
                    old(cache),
                    updated,
                    "Errore aggiornamento utente: "@,
                )
            },
        },
{
    let current = match primary.fetch_raw(user_id) {
        Err(e) => {
            return Err(store_failure("Errore recupero utente: ", e));
        },
        Ok(found) => found,
    };
    if is_blank(username.as_str()) {
        return Err(Failure::new(ErrorKind::InvalidInput, "Username obbligatorio"));
    }
    let current = match current {
        None => {
            return Err(Failure::new(ErrorKind::NotFound, "Utente non trovato"));
        },
        Some(user) => user,
    };
    match primary.label_in_use(username.as_str(), Some(user_id)) {
        Err(e) => {
            return Err(store_failure("Errore recupero utente: ", e));
        },
        Ok(true) => {
            return Err(Failure::new(ErrorKind::Conflict, "Username gi\u{e0} in uso"));
        },
        Ok(false) => {},
    }
    match &email {
        Some(address) => {
            if !is_blank(address.as_str()) {
                match email_in_use(primary, address.as_str(), user_id) {
                    Err(e) => {
                        return Err(store_failure("Errore recupero utente: ", e));
                    },
                    Ok(true) => {
                        return Err(Failure::new(ErrorKind::Conflict, "Email gi\u{e0} in uso"));
                    },
                    Ok(false) => {},
                }
            }
        },
        None => {},
    }
    proof {
        primary.contents_are_keyed();
    }
    let updated = User {
        id: current.id,
        username,
        email,
        image,
        password_hash: current.password_hash,
        created_at: current.created_at,
        updated_at: now,
        sync_status: SyncStatus::Synced,
        last_sync: Some(now),
        deleted: current.deleted,
    };
    commit_or_fail(primary, cache, updated, now, "Errore aggiornamento utente: ")
}

/// Why a registration is refused, if it is.
pub open spec fn registration_refusal(
    primary: &Store<User>,
    username: Seq<char>,
    password: Seq<char>,
) -> Option<FailureView> {
    if blank(username) {
        Some(failure(ErrorKind::InvalidInput, "Username obbligatorio"@))
    } else if !long_enough(password) {
        Some(failure(ErrorKind::InvalidInput, "Password deve essere di almeno 6 caratteri"@))
    } else if !primary.reachable() {
        Some(
            store_failure_view(
                "Errore verifica esistenza utente in PostgreSQL: "@,
                StoreError::Unreachable,
            ),
        )
    } else if label_taken::<User>(primary.contents(), username, None) {
        Some(failure(ErrorKind::Conflict, "Username gi\u{e0} in uso"@))
    } else {
        None
    }
}

/// Checks a registration against the rules and the accounts that exist.
pub fn check_registration(primary: &Store<User>, request: &RegisterRequest) -> (r: Result<
    (),
    Failure,
>)
    requires
        primary.wf(),
    ensures
        match registration_refusal(primary, request.username@, request.password@) {
            Some(refusal) => r is Err && r->Err_0@ == refusal,
            None => r is Ok,
        },
{
    if is_blank(request.username.as_str()) {
        return Err(Failure::new(ErrorKind::InvalidInput, "Username obbligatorio"));
    }
    if !is_long_enough(request.password.as_str()) {
        return Err(
            Failure::new(ErrorKind::InvalidInput, "Password deve essere di almeno 6 caratteri"),
        );
    }
    match primary.label_in_use(request.username.as_str(), None) {
        Err(e) => Err(store_failure("Errore verifica esistenza utente in PostgreSQL: ", e)),
        Ok(true) => Err(Failure::new(ErrorKind::Conflict, "Username gi\u{e0} in uso")),
        Ok(false) => Ok(()),
    }
}

/// Whether the primary holds an account of this name, tombstones included.
pub fn check_user_exists_in_postgres(primary: &Store<User>, username: &str) -> (r: Result<
    bool,
    Failure,
>)
    requires
        primary.wf(),
    ensures
        match r {
            Ok(exists) => primary.reachable() && exists == label_taken::<User>(
                primary.contents(),
                username@,
                None,
            ),
            Err(f) => !primary.reachable() && f@ == store_failure_view(
                "Errore verifica esistenza utente in PostgreSQL: "@,
                StoreError::Unreachable,
            ),
        },
{
    match primary.label_in_use(username, None) {
        Ok(exists) => Ok(exists),
        Err(e) => Err(store_failure("Errore verifica esistenza utente in PostgreSQL: ", e)),
    }
}

/// The account that a registration creates, before the primary gives it an
/// identity.
pub open spec fn new_account(
    username: Seq<char>,
    email: Option<Seq<char>>,
    image: Option<Seq<u8>>,
    password_hash: Seq<char>,
    now: Timestamp,
) -> UserView {
    UserView {
        id: 0,
        username,
        email,
        image,
        password_hash,
        created_at: now,
        updated_at: now,
        sync_status: SyncStatus::Synced,
        last_sync: Some(now),
        deleted: false,
    }
}

/// A registration went through: the primary holds the new account under
/// the next identity, the cache holds its copy unless it failed, and the
/// session carries the account and its token.
pub open spec fn registered(
    old_primary: &Store<User>,
    old_cache: &Store<User>,
    account: UserView,
    now: Timestamp,
    written: Written<AuthResponse>,
    new_primary: &Store<User>,
    new_cache: &Store<User>,
) -> bool {
    let id = next_identity::<User>(old_primary.contents()) as i32;
    &&& insertion_failure::<User>(old_primary) is None
    &&& written.record@.user == User::keyed_as(account, id)
    &&& written.record@.token == session_token(id, now)
    &&& written.cache_failure == old_cache.write_failure(id)
    &&& stores_after_write::<User>(
        old_primary,
        old_cache,
        written.record@.user,
        now,
        new_primary,
        new_cache,
    )
}

/// The primary did not take the new account.
pub open spec fn not_inserted(old_primary: &Store<User>, f: FailureView) -> bool {
    insertion_failure::<User>(old_primary) is Some && f == store_failure_view(
        "Errore inserimento utente in PostgreSQL: "@,
        insertion_failure::<User>(old_primary)->0,
    )
}

/// Creates the account of a checked registration in the primary, given the
/// hash of its password. The primary assigns the identity.
pub fn save_user_to_postgres(
    primary: &mut Store<User>,
    request: RegisterRequest,
    password_hash: String,
    now: Timestamp,
) -> (r: Result<User, Failure>)
    requires
        old(primary).wf(),
    ensures
        final(primary).wf(),
        final(primary).same_setup(old(primary)),
        match r {
            Ok(user) => {
                let id = next_identity::<User>(old(primary).contents()) as i32;
                &&& insertion_failure::<User>(old(primary)) is None
                &&& user@ == User::keyed_as(
                    new_account(
                        request.username@,
                        request.email.deep_view(),
                        request.image.deep_view(),
                        password_hash@,
                        now,
                    ),
                    id,
                )
                &&& final(primary).contents() == old(primary).contents().insert(id, user@)
            },
            Err(f) => not_inserted(old(primary), f@) && final(primary).contents() == old(
                primary,
            ).contents(),
        },
{
    let draft = User {
        id: 0,
        username: request.username,
        email: request.email,
        image: request.image,
        password_hash,
        created_at: now,
        updated_at: now,
        sync_status: SyncStatus::Synced,
        last_sync: Some(now),
        deleted: false,
    };
    match insert_into(primary, draft) {
        Ok(user) => Ok(user),
        Err(e) => Err(store_failure("Errore inserimento utente in PostgreSQL: ", e)),
    }
}

/// Creates the account of a checked registration, given the hash of its
/// password, mirrors it into the cache and opens a session for it. A cache
/// that does not take the copy does not undo the registration.
pub fn complete_registration(
    primary: &mut Store<User>,
    cache: &mut Store<User>,
    request: RegisterRequest,
    password_hash: String,
    now: Timestamp,
) -> (r: Result<Written<AuthResponse>, Failure>)
    requires
        old(primary).wf(),
        old(cache).wf(),
    ensures
        final(primary).wf(),
        final(cache).wf(),
        final(primary).same_setup(old(primary)),
        final(cache).same_setup(old(cache)),
        match r {
            Ok(written) => registered(
                old(primary),
                old(cache),
                new_account(
                    request.username@,
                    request.email.deep_view(),
                    request.image.deep_view(),
                    password_hash@,
                    now,
                ),
                now,
                written,
                final(primary),
                final(cache),
            ),
            Err(f) => not_inserted(old(primary), f@) && stores_untouched::<User>(
                old(primary),
                old(cache),
                final(primary),
                final(cache),
            ),
        },
{
    let user = match save_user_to_postgres(primary, request, password_hash, now) {
        Ok(user) => user,
        Err(f) => {
            return Err(f);
        },
    };
    proof {
        User::tombstones_keep_identity(
            new_account(
                request.username@,
                request.email.deep_view(),
                request.image.deep_view(),
                password_hash@,
                now,
            ),
        );
    }
    let cache_failure = match mirror(cache, &user, now) {
        Ok(_) => None,
        Err(e) => Some(e),
    };
    let token = make_token(user.id, now);
    Ok(Written { record: AuthResponse { user, token }, cache_failure })
}

/// The failure that reports that hashing a password failed with this text.
pub open spec fn hashing_failure(text: Seq<char>) -> FailureView {
    FailureView { kind: ErrorKind::Internal, message: "Errore hashing password: "@ + text }
}

/// Registers a user: checks the request, hashes the password, creates the
/// account in the primary and mirrors it into the cache.
///
/// A request that is refused changes nothing, with one exception: where
/// the name is taken, the user cache is brought up to the primary first, as
/// far as that goes through. The password hash is salted at random, so the
/// account is stated up to its hash; of the hash it is stated that the
/// password of the request checks against it.
pub fn register_user(
    primary: &mut Store<User>,
    cache: &mut Store<User>,
    request: RegisterRequest,
    now: Timestamp,
) -> (r: Result<Written<AuthResponse>, Failure>)
    requires
        old(primary).wf(),
        old(cache).wf(),
    ensures
        final(primary).wf(),
        final(cache).wf(),
        final(primary).same_setup(old(primary)),
        final(cache).same_setup(old(cache)),
        match registration_refusal(old(primary), request.username@, request.password@) {
            Some(refusal) => {
                &&& r is Err
                &&& r->Err_0@ == refusal
                &&& final(primary).contents() == old(primary).contents()
                &&& final(cache).contents() == if refusal.kind == ErrorKind::Conflict && old(
                    cache,
                ).reachable() {
                    resynced_contents::<User>(
                        old(cache).contents(),
                        old(primary).contents(),
                        old(cache).refused(),
                        now,
                    )
                } else {
                    old(cache).contents()
                }
            },
            None => match r {
                Ok(written) => registered(
                    old(primary),
                    old(cache),
                    new_account(
                        request.username@,
                        request.email.deep_view(),
                        request.image.deep_view(),
                        written.record@.user.password_hash,
                        now,
                    ),
                    now,
                    written,
                    final(primary),
                    final(cache),
                ),
                Err(f) => {
                    &&& stores_untouched::<User>(
                        old(primary),
                        old(cache),
                        final(primary),
                        final(cache),
                    )
                    &&& not_inserted(old(primary), f@) || exists|text: Seq<char>|
                        f@ == #[trigger] hashing_failure(text)
                },
            },
        },
        r is Ok ==> bcrypt_verdict(request.password@, r->Ok_0.record@.user.password_hash) == Ok::<
            bool,
            Seq<char>,
        >(true),
{
    match check_registration(primary, &request) {
        Err(refusal) => {
            match refusal.kind {
                ErrorKind::Conflict => {
                    let _ = resync(primary, cache, now);
                },
                _ => {},
            }
            return Err(refusal);
        },
        Ok(_) => {},
    }
    let password_hash = match hash_password(request.password.as_str()) {
        Ok(hash) => hash,
        Err(text) => {
            let f = detailed_failure(ErrorKind::Internal, "Errore hashing password: ", text.as_str());
            assert(f@ == hashing_failure(text@));
            return Err(f);
        },
    };
    complete_registration(primary, cache, request, password_hash, now)
}

/// A registered user can log in. Where a registration went through, the
/// cache took its copy and no cached account carried the name before, a
/// raw read of the cache under the new identity gives the account as the
/// primary holds it, apart from the cache's own bookkeeping, and a login
/// with the name and the password of the registration opens a session for
/// that account.
pub proof fn registered_user_can_log_in(
    old_primary: &Store<User>,
    old_cache: &Store<User>,
    new_primary: &Store<User>,
    new_cache: &Store<User>,
    username: Seq<char>,
    email: Option<Seq<char>>,
    image: Option<Seq<u8>>,
    password: Seq<char>,
    now: Timestamp,
    later: Timestamp,
    written: Written<AuthResponse>,
)
    requires
        registered(
            old_primary,
            old_cache,
            new_account(username, email, image, written.record@.user.password_hash, now),
            now,
            written,
            new_primary,
            new_cache,
        ),
        bcrypt_verdict(password, written.record@.user.password_hash) == Ok::<bool, Seq<char>>(
            true,
        ),
        written.cache_failure is None,
        new_cache.reachable(),
        !blank(username),
        !blank(password),
        !label_taken::<User>(old_cache.contents(), username, None),
    ensures
        new_primary.contents()[written.record@.user.id] == written.record@.user,
        new_cache.contents().dom().contains(written.record@.user.id),
        User::payload(new_cache.contents()[written.record@.user.id]) == User::payload(
            written.record@.user,
        ),
        written.record@.user.username == username,
        written.record@.user.email == email,
        written.record@.user.image == image,
        login_outcome(true, new_cache.contents(), username, password, later) == Ok::<
            AuthView,
            FailureView,
        >(
            AuthView {
                user: User::mirrored(written.record@.user, now),
                token: session_token(written.record@.user.id, later),
            },
        ),
{
    let user = written.record@.user;
    let copy = User::mirrored(user, now);
    let after = new_cache.contents();
    User::marks_keep_identity(user, now);
    User::marks_keep_payload(user, now);
    assert(after == old_cache.contents().insert(user.id, copy));
    assert(after.dom().contains(user.id));
    assert forall|id: i32|
        #[trigger] after.dom().contains(id) && User::label(after[id]) == username implies user.id
        <= id by {
        if id != user.id {
            assert(old_cache.contents().dom().contains(id));
        }
    }
    assert(least_labelled::<User>(after, username, copy));
    account_named_is_unique(after, username, copy);
    assert(label_taken::<User>(after, username, None));
}

/// Soft-deletes an account: in the primary first, then in the cache.
pub fn delete_user(primary: &mut Store<User>, cache: &mut Store<User>, user_id: i32) -> (r: Result<
    Written<i32>,
    Failure,
>)
    requires
        old(primary).wf(),
        old(cache).wf(),
    ensures
        final(primary).wf(),
        final(cache).wf(),
        final(primary).same_setup(old(primary)),
        final(cache).same_setup(old(cache)),
        result_view(r) == delete_report(
            delete_outcome::<User>(old(primary), old(cache), user_id),
            user_id,
            "Utente non trovato"@,
            "Errore soft delete utente: "@,
        ),
        final(primary).contents() == if r is Ok {
            crate::store::entombed_at::<User>(old(primary).contents(), user_id)
        } else {
            old(primary).contents()
        },
        final(cache).contents() == if r is Ok && r->Ok_0.cache_failure is None {
            crate::store::entombed_at::<User>(old(cache).contents(), user_id)
        } else {
            old(cache).contents()
        },
{
    let outcome = delete_through(primary, cache, user_id);
    report_delete(outcome, user_id, "Utente non trovato", "Errore soft delete utente: ")
}

/// Reads an account by identity: from the cache where it holds a live
/// row, otherwise from the primary.
pub fn get_user_profile(cache: &Store<User>, primary: &Store<User>, user_id: i32) -> (r: Result<
    User,
    Failure,
>)
    requires
        cache.wf(),
        primary.wf(),
    ensures
        result_view(r) == read_report::<User>(
                cache,
                primary,
                user_id,
                "Utente non trovato"@,
                "Errore recupero profilo utente: "@,
            ),
{
    read_or_fail(cache, primary, user_id, "Utente non trovato", "Errore recupero profilo utente: ")
}

/// Reads the account of the current session, as `get_user_profile` does.
pub fn get_current_user(cache: &Store<User>, primary: &Store<User>, user_id: i32) -> (r: Result<
    User,
    Failure,
>)
    requires
        cache.wf(),
        primary.wf(),
    ensures
        result_view(r) == read_report::<User>(
                cache,
                primary,
                user_id,
                "Utente non trovato"@,
                "Errore recupero utente: "@,
            ),
{
    read_or_fail(cache, primary, user_id, "Utente non trovato", "Errore recupero utente: ")
}

/// The text of an optional address, empty where there is none.
pub open spec fn address_text(email: Option<Seq<char>>) -> Seq<char> {
    match email {
        Some(text) => text,
        None => Seq::empty(),
    }
}

/// The address of an account after a profile change that asks for `asked`:
/// the asked one where its text differs from the current text, the current
/// one otherwise.
pub open spec fn profile_email(current: Option<Seq<char>>, asked: Option<Seq<char>>) -> Option<
    Seq<char>,
> {
    if address_text(asked) != address_text(current) {
        asked
    } else {
        current
    }
}

/// Why a profile change is refused once the account is found and its
/// current password checked, if it is.
pub open spec fn profile_judgement(
    reachable: bool,
    contents: Map<i32, UserView>,
    user: UserView,
    verdict: Result<bool, Seq<char>>,
    asked_email: Option<Seq<char>>,
    new_password: Option<Seq<char>>,
) -> Option<FailureView> {
    match verdict {
        Err(text) => Some(
            FailureView { kind: ErrorKind::Internal, message: "Errore verifica password: "@ + text },
        ),
        Ok(false) => Some(failure(ErrorKind::Denied, "Password corrente non corretta"@)),
        Ok(true) => if address_text(asked_email) != address_text(user.email) && address_text(
            asked_email,
        ).len() > 0 && reachable && email_taken(contents, address_text(asked_email), user.id) {
            Some(failure(ErrorKind::Conflict, "Email gi\u{e0} in uso"@))
        } else if new_password is Some && !long_enough(new_password->0) {
            Some(
                failure(
                    ErrorKind::InvalidInput,
                    "Nuova password deve essere di almeno 6 caratteri"@,
                ),
            )
        } else {
            None
        },
    }
}

/// Judges a profile change, given the account and what checking the
/// current password gave: the password must match, a new address must not
/// belong to another account, and a new password must be long enough.
/// Where the store cannot be asked, the address counts as free.
pub fn judge_profile_update(
    primary: &Store<User>,
    user: &User,
    verdict: Result<bool, String>,
    asked_email: &Option<String>,
    new_password: &Option<String>,
) -> (r: Result<(), Failure>)
    requires
        primary.wf(),
    ensures
        match profile_judgement(
            primary.reachable(),
            primary.contents(),
            user@,
            result_view(verdict),
            asked_email.deep_view(),
            new_password.deep_view(),
        ) {
            Some(refusal) => r is Err && r->Err_0@ == refusal,
            None => r is Ok,
        },
{
    match verdict {
        Err(text) => {
            return Err(
                detailed_failure(ErrorKind::Internal, "Errore verifica password: ", text.as_str()),
            );
        },
        Ok(false) => {
            return Err(Failure::new(ErrorKind::Denied, "Password corrente non corretta"));
        },
        Ok(true) => {},
    }
    let empty = String::new();
    let asked: &str = match asked_email {
        Some(text) => text.as_str(),
        None => empty.as_str(),
    };
    let current: &str = match &user.email {
        Some(text) => text.as_str(),
        None => empty.as_str(),
    };
    if !text_eq(asked, current) && !asked.is_empty() {
        match email_in_use(primary, asked, user.id) {
            Ok(true) => {
                return Err(Failure::new(ErrorKind::Conflict, "Email gi\u{e0} in uso"));
            },
            _ => {},
        }
    }
    match new_password {
        Some(password) => {
            if !is_long_enough(password.as_str()) {
                return Err(
                    Failure::new(
                        ErrorKind::InvalidInput,
                        "Nuova password deve essere di almeno 6 caratteri",
                    ),
                );
            }
        },
        None => {},
    }
    Ok(())
}

/// Why a profile change is refused, if it is.
pub open spec fn profile_refusal(
    primary: &Store<User>,
    user_id: i32,
    asked_email: Option<Seq<char>>,
    current_password: Seq<char>,
    new_password: Option<Seq<char>>,
) -> Option<FailureView> {
    if !primary.reachable() {
        Some(store_failure_view("Errore recupero utente: "@, StoreError::Unreachable))
    } else if !primary.contents().dom().contains(user_id) {
        Some(failure(ErrorKind::NotFound, "Utente non trovato"@))
    } else {
        let user = primary.contents()[user_id];
        profile_judgement(
            true,
            primary.contents(),
            user,
            bcrypt_verdict(current_password, user.password_hash),
            asked_email,
            new_password,
        )
    }
}

/// Finds the account of a profile change and checks the change: the
/// account must exist and the current password must match its hash, and
/// then as `judge_profile_update` says. Gives the account as it stands.
pub fn check_profile_update(
    primary: &Store<User>,
    user_id: i32,
    asked_email: &Option<String>,
    current_password: &str,
    new_password: &Option<String>,
) -> (r: Result<User, Failure>)
    requires
        primary.wf(),
    ensures
        match profile_refusal(
            primary,
            user_id,
            asked_email.deep_view(),
            current_password@,
            new_password.deep_view(),
        ) {
            Some(refusal) => r is Err && r->Err_0@ == refusal,
            None => r is Ok && r->Ok_0@ == primary.contents()[user_id],
        },
{
    let user = match primary.fetch_raw(user_id) {
        Err(e) => {
            return Err(store_failure("Errore recupero utente: ", e));
        },
        Ok(None) => {
            return Err(Failure::new(ErrorKind::NotFound, "Utente non trovato"));
        },
        Ok(Some(user)) => user,
    };
    let verdict = verify_password(current_password, user.password_hash.as_str());
    match judge_profile_update(primary, &user, verdict, asked_email, new_password) {
        Err(refusal) => Err(refusal),
        Ok(_) => Ok(user),
    }
}

/// The account after a profile change at `now`.
pub open spec fn updated_profile(
    current: UserView,
    asked_email: Option<Seq<char>>,
    new_hash: Option<Seq<char>>,
    now: Timestamp,
) -> UserView {
    UserView {
        email: profile_email(current.email, asked_email),
        password_hash: match new_hash {
            Some(hash) => hash,
            None => current.password_hash,
        },
        updated_at: now,
        sync_status: SyncStatus::Synced,
        last_sync: Some(now),
        ..current
    }
}

/// Writes a checked profile change: the address as asked, the new hash
/// where there is one, in the primary first and then in the cache.
pub fn apply_profile_update(
    primary: &mut Store<User>,
    cache: &mut Store<User>,
    current: User,
    asked_email: Option<String>,
    new_hash: Option<String>,
    now: Timestamp,
) -> (r: Result<Written<User>, Failure>)
    requires
        old(primary).wf(),
        old(cache).wf(),
    ensures
        final(primary).wf(),
        final(cache).wf(),
        final(primary).same_setup(old(primary)),
        final(cache).same_setup(old(cache)),
        stores_after_write::<User>(
            old(primary),
            old(cache),
            updated_profile(current@, asked_email.deep_view(), new_hash.deep_view(), now),
            now,
            final(primary),
            final(cache),
        ),
        result_view(r) == write_report::<User>(
            old(primary),
            old(cache),
            updated_profile(current@, asked_email.deep_view(), new_hash.deep_view(), now),
            "Errore aggiornamento utente: "@,
        ),
{
    let empty = String::new();
    let differs = {
        let asked: &str = match &asked_email {
            Some(text) => text.as_str(),
            None => empty.as_str(),
        };
        let held: &str = match &current.email {
            Some(text) => text.as_str(),
            None => empty.as_str(),
        };
        !text_eq(asked, held)
    };
    let email = if differs {
        asked_email
    } else {
        current.email
    };
    let password_hash = match new_hash {
        Some(hash) => hash,
        None => current.password_hash,
    };
    let updated = User {
        id: current.id,
        username: current.username,
        email,
        image: current.image,
        password_hash,
        created_at: current.created_at,
        updated_at: now,
        sync_status: SyncStatus::Synced,
        last_sync: Some(now),
        deleted: current.deleted,
    };
    commit_or_fail(primary, cache, updated, now, "Errore aggiornamento utente: ")
}

/// Changes the address and, where one is given, the password of an
/// account, after checking the current password.
///
/// A change that is refused changes nothing. The new password hash is
/// salted at random, so the account is stated up to that hash; of the hash
/// it is stated that the new password checks against it.
pub fn update_user_profile(
    primary: &mut Store<User>,
    cache: &mut Store<User>,
    user_id: i32,
    email: Option<String>,
    current_password: String,
    new_password: Option<String>,
    now: Timestamp,
) -> (r: Result<Written<User>, Failure>)
    requires
        old(primary).wf(),
        old(cache).wf(),
    ensures
        final(primary).wf(),
        final(cache).wf(),
        final(primary).same_setup(old(primary)),
        final(cache).same_setup(old(cache)),
        match profile_refusal(
            old(primary),
            user_id,
            email.deep_view(),
            current_password@,
            new_password.deep_view(),
        ) {
            Some(refusal) => {
                &&& r is Err
                &&& r->Err_0@ == refusal
                &&& stores_untouched::<User>(old(primary), old(cache), final(primary), final(cache))
            },
            None => match r {
                Ok(written) => {
                    let current = old(primary).contents()[user_id];
                    &&& old(primary).write_failure(user_id) is None
                    &&& written.cache_failure == old(cache).write_failure(user_id)
                    &&& written.record@ == updated_profile(
                        current,
                        email.deep_view(),
                        if new_password is Some {
                            Some(written.record@.password_hash)
                        } else {
                            None
                        },
                        now,
                    )
                    &&& stores_after_write::<User>(
                        old(primary),
                        old(cache),
                        written.record@,
                        now,
                        final(primary),
                        final(cache),
                    )
                },
                Err(f) => {
                    &&& stores_untouched::<User>(
                        old(primary),
                        old(cache),
                        final(primary),
                        final(cache),
                    )
                    &&& (old(primary).write_failure(user_id) is Some && f@ == store_failure_view(
                        "Errore aggiornamento utente: "@,
                        old(primary).write_failure(user_id)->0,
                    )) || (new_password is Some && exists|text: Seq<char>|
                        f@ == #[trigger] hashing_failure(text))
                },
            },
        },
        r is Ok && new_password is Some ==> bcrypt_verdict(
            new_password->0@,
            r->Ok_0.record@.password_hash,
        ) == Ok::<bool, Seq<char>>(true),
{
    let current = match check_profile_update(
        primary,
        user_id,
        &email,
        current_password.as_str(),
        &new_password,
    ) {
        Err(refusal) => {
            return Err(refusal);
        },
        Ok(user) => user,
    };
    proof {
        primary.contents_are_keyed();
    }
    let new_hash = match &new_password {
        None => None,
        Some(password) => match hash_password(password.as_str()) {
            Ok(hash) => Some(hash),
            Err(text) => {
                let f = detailed_failure(
                    ErrorKind::Internal,
                    "Errore hashing password: ",
                    text.as_str(),
                );
                assert(f@ == hashing_failure(text@));
                return Err(f);
            },
        },
    };
    apply_profile_update(primary, cache, current, email, new_hash, now)
}

/// Lists the users of the primary, newest first.
pub fn get_users_from_postgres(primary: &Store<User>) -> (r: Result<Vec<User>, Failure>)
    requires
        primary.wf(),
    ensures
        listed::<User>(primary, "Errore recupero utenti da PostgreSQL: "@, r),
{
    list_store(primary, "Errore recupero utenti da PostgreSQL: ")
}

/// Lists the users: always from the cache.
pub fn get_all_users(cache: &Store<User>) -> (r: Result<Vec<User>, Failure>)
    requires
        cache.wf(),
    ensures
        listed::<User>(cache, "Errore apertura connessione SQLite: "@, r),
{
    list_store(cache, "Errore apertura connessione SQLite: ")
}

} // verus!
