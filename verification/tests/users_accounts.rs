use mes_sync::error::ErrorKind;
use mes_sync::records::{SyncStatus, User};
use mes_sync::store::{Store, StoreError};
use mes_sync::time::Timestamp;
use mes_sync::users::{
    apply_profile_update, check_profile_update, check_registration, check_user_exists_in_postgres,
    complete_registration, conclude_login, delete_user, email_in_use, get_all_users,
    get_current_user, get_user_profile, get_users_from_postgres, judge_profile_update, login_user,
    make_token, register_user, save_user_to_postgres, update_user, update_user_profile,
    LoginRequest, RegisterRequest,
};

fn at(secs: i64) -> Timestamp {
    Timestamp::new(secs, 0)
}

fn request(name: &str, password: &str) -> RegisterRequest {
    RegisterRequest {
        username: name.to_string(),
        email: Some(format!("{}@example.org", name)),
        image: Some(vec![7]),
        password: password.to_string(),
    }
}

fn user(id: i32, name: &str, email: Option<&str>, created: i64) -> User {
    User {
        id,
        username: name.to_string(),
        email: email.map(|e| e.to_string()),
        image: None,
        password_hash: "not a hash".to_string(),
        created_at: at(created),
        updated_at: at(created),
        sync_status: SyncStatus::Synced,
        last_sync: Some(at(created)),
        deleted: false,
    }
}

fn login(name: &str, password: &str) -> LoginRequest {
    LoginRequest {
        username: name.to_string(),
        password: password.to_string(),
    }
}

#[test]
fn registration_creates_the_account_in_both_stores() {
    let mut primary: Store<User> = Store::new();
    let mut cache: Store<User> = Store::new();
    let written = register_user(
        &mut primary,
        &mut cache,
        request("ada", "s3cret!"),
        at(1000),
    )
    .unwrap();
    assert_eq!(written.cache_failure, None);
    let auth = written.record;
    assert_eq!(auth.user.id, 1);
    assert_eq!(auth.user.username, "ada");
    assert_eq!(auth.user.email.as_deref(), Some("ada@example.org"));
    assert_eq!(auth.user.image, Some(vec![7]));
    assert_eq!(auth.user.created_at, at(1000));
    assert_eq!(auth.user.updated_at, at(1000));
    assert_eq!(auth.user.sync_status, SyncStatus::Synced);
    assert_eq!(auth.user.last_sync, Some(at(1000)));
    assert!(!auth.user.deleted);
    assert_ne!(auth.user.password_hash, "s3cret!");
    assert_eq!(auth.token, "user_1_1000");

    let stored = primary.fetch_raw(1).unwrap().unwrap();
    assert_eq!(stored.password_hash, auth.user.password_hash);
    let cached = cache.fetch_raw(1).unwrap().unwrap();
    assert_eq!(cached.username, "ada");
    assert_eq!(cached.password_hash, auth.user.password_hash);

    // the stored hash is one that the password checks against
    let session = login_user(&cache, login("ada", "s3cret!"), at(2000)).unwrap();
    assert_eq!(session.user.id, 1);
    assert_eq!(session.token, "user_1_2000");
    let denied = login_user(&cache, login("ada", "wrong one"), at(2000)).unwrap_err();
    assert_eq!(denied.kind, ErrorKind::Denied);
    assert_eq!(denied.message, "Password non corretta");
}

#[test]
fn registration_is_checked_in_order() {
    let mut primary: Store<User> = Store::new();
    primary.upsert(user(1, "ada", None, 5)).unwrap();

    let f = check_registration(&primary, &request("  \t", "s3cret!")).unwrap_err();
    assert_eq!(
        (f.kind, f.message.as_str()),
        (ErrorKind::InvalidInput, "Username obbligatorio")
    );
    let f = check_registration(&primary, &request("", "x")).unwrap_err();
    assert_eq!(f.message, "Username obbligatorio");
    let f = check_registration(&primary, &request("bob", "12345")).unwrap_err();
    assert_eq!(
        (f.kind, f.message.as_str()),
        (
            ErrorKind::InvalidInput,
            "Password deve essere di almeno 6 caratteri"
        )
    );
    // length counts bytes: three two-byte letters are long enough
    assert!(check_registration(&primary, &request("bob", "\u{e9}\u{e9}\u{e9}")).is_ok());
    assert!(check_registration(&primary, &request("bob", "123456")).is_ok());
    let f = check_registration(&primary, &request("ada", "123456")).unwrap_err();
    assert_eq!(
        (f.kind, f.message.as_str()),
        (ErrorKind::Conflict, "Username gi\u{e0} in uso")
    );
    primary.set_reachable(false);
    let f = check_registration(&primary, &request("bob", "123456")).unwrap_err();
    assert_eq!(f.kind, ErrorKind::Connection);
    assert_eq!(
        f.message,
        "Errore verifica esistenza utente in PostgreSQL: archivio non raggiungibile"
    );
    let f = check_registration(&primary, &request("bob", "1")).unwrap_err();
    assert_eq!(f.kind, ErrorKind::InvalidInput);
}

#[test]
fn taken_name_refuses_registration_and_brings_the_cache_up() {
    let mut primary: Store<User> = Store::new();
    let mut cache: Store<User> = Store::new();
    primary.upsert(user(1, "ada", None, 5)).unwrap();
    primary.upsert(user(2, "bob", None, 6)).unwrap();
    let f = register_user(&mut primary, &mut cache, request("ada", "s3cret!"), at(50)).unwrap_err();
    assert_eq!(f.kind, ErrorKind::Conflict);
    assert_eq!(primary.fetch_raw_all().unwrap().len(), 2);
    let cached = cache.fetch_all().unwrap();
    assert_eq!(cached.len(), 2);
    assert_eq!(cached[0].last_sync, Some(at(50)));

    // any other refusal leaves the cache alone
    let mut cache: Store<User> = Store::new();
    let f = register_user(&mut primary, &mut cache, request("cy", "short"), at(50)).unwrap_err();
    assert_eq!(f.kind, ErrorKind::InvalidInput);
    assert!(cache.fetch_raw_all().unwrap().is_empty());
}

#[test]
fn registration_survives_a_failed_mirror() {
    let mut primary: Store<User> = Store::new();
    let mut cache: Store<User> = Store::new();
    cache.set_reachable(false);
    let written = complete_registration(
        &mut primary,
        &mut cache,
        request("ada", "s3cret!"),
        "given-hash".to_string(),
        at(10),
    )
    .unwrap();
    assert_eq!(written.cache_failure, Some(StoreError::Unreachable));
    assert_eq!(written.record.user.password_hash, "given-hash");
    assert_eq!(written.record.token, "user_1_10");
    assert_eq!(primary.fetch_raw(1).unwrap().unwrap().username, "ada");
}

#[test]
fn primary_insert_assigns_identities_and_words_its_failure() {
    let mut primary: Store<User> = Store::new();
    primary.upsert(user(9, "old", None, 1)).unwrap();
    let made = save_user_to_postgres(
        &mut primary,
        request("ada", "s3cret!"),
        "h".to_string(),
        at(3),
    )
    .unwrap();
    assert_eq!(made.id, 10);
    assert_eq!(made.password_hash, "h");
    primary.refuse_writes_to(11);
    let f = save_user_to_postgres(
        &mut primary,
        request("bob", "s3cret!"),
        "h".to_string(),
        at(3),
    )
    .unwrap_err();
    assert_eq!(f.kind, ErrorKind::Conflict);
    assert_eq!(
        f.message,
        "Errore inserimento utente in PostgreSQL: scrittura rifiutata"
    );
    assert!(primary.fetch_raw(11).unwrap().is_none());
    assert_eq!(
        check_user_exists_in_postgres(&primary, "ada").unwrap(),
        true
    );
    assert_eq!(
        check_user_exists_in_postgres(&primary, "bob").unwrap(),
        false
    );
}

#[test]
fn login_is_refused_in_order() {
    let mut cache: Store<User> = Store::new();
    cache.upsert(user(1, "ada", None, 5)).unwrap();
    let f = login_user(&cache, login("  ", "pw"), at(1)).unwrap_err();
    assert_eq!(
        (f.kind, f.message.as_str()),
        (ErrorKind::InvalidInput, "Username e password obbligatori")
    );
    let f = login_user(&cache, login("ada", " \n"), at(1)).unwrap_err();
    assert_eq!(f.message, "Username e password obbligatori");
    let f = login_user(&cache, login("nobody", "pw"), at(1)).unwrap_err();
    assert_eq!(
        (f.kind, f.message.as_str()),
        (ErrorKind::NotFound, "Utente non trovato")
    );
    // the stored text is not a bcrypt hash: the check itself fails
    let f = login_user(&cache, login("ada", "pw"), at(1)).unwrap_err();
    assert_eq!(f.kind, ErrorKind::Internal);
    assert!(f.message.starts_with("Errore verifica password: "));
    assert!(f.message.len() > "Errore verifica password: ".len());
    cache.set_reachable(false);
    let f = login_user(&cache, login("", ""), at(1)).unwrap_err();
    assert_eq!(f.kind, ErrorKind::Connection);
    assert_eq!(
        f.message,
        "Errore apertura database SQLite: archivio non raggiungibile"
    );
}

#[test]
fn login_is_concluded_from_the_verdict() {
    let session =
        conclude_login(user(12, "ada", None, 5), Ok(true), Timestamp::new(-3, 9)).unwrap();
    assert_eq!(session.token, "user_12_-3");
    assert_eq!(session.user.username, "ada");
    let f = conclude_login(user(12, "ada", None, 5), Ok(false), at(1)).unwrap_err();
    assert_eq!(
        (f.kind, f.message.as_str()),
        (ErrorKind::Denied, "Password non corretta")
    );
    let f =
        conclude_login(user(12, "ada", None, 5), Err("bad salt".to_string()), at(1)).unwrap_err();
    assert_eq!(
        (f.kind, f.message.as_str()),
        (ErrorKind::Internal, "Errore verifica password: bad salt")
    );
}

#[test]
fn tokens_carry_identity_and_second() {
    assert_eq!(make_token(0, at(0)), "user_0_0");
    assert_eq!(make_token(-5, at(1700000000)), "user_-5_1700000000");
    assert_eq!(
        make_token(i32::MAX, at(i64::MAX)),
        "user_2147483647_9223372036854775807"
    );
    assert_eq!(
        make_token(i32::MIN, at(i64::MIN)),
        "user_-2147483648_-9223372036854775808"
    );
}

#[test]
fn login_takes_the_account_of_least_identity_under_a_name() {
    let mut cache: Store<User> = Store::new();
    let mut primary: Store<User> = Store::new();
    let made = register_user(&mut primary, &mut cache, request("ada", "s3cret!"), at(1)).unwrap();
    let mut twin = user(40, "ada", None, 5);
    twin.password_hash = "garbage".to_string();
    cache.upsert(twin).unwrap();
    let session = login_user(&cache, login("ada", "s3cret!"), at(2)).unwrap();
    assert_eq!(session.user.id, made.record.user.id);
}

#[test]
fn update_user_changes_name_address_and_picture() {
    let mut primary: Store<User> = Store::new();
    let mut cache: Store<User> = Store::new();
    primary.upsert(user(1, "ada", Some("a@x.org"), 5)).unwrap();
    primary.upsert(user(2, "bob", Some("b@x.org"), 6)).unwrap();
    let written = update_user(
        &mut primary,
        &mut cache,
        1,
        "ada l".to_string(),
        Some("ada@x.org".to_string()),
        Some(vec![1, 2]),
        at(80),
    )
    .unwrap();
    assert_eq!(written.cache_failure, None);
    let u = written.record;
    assert_eq!(u.id, 1);
    assert_eq!(u.username, "ada l");
    assert_eq!(u.email.as_deref(), Some("ada@x.org"));
    assert_eq!(u.image, Some(vec![1, 2]));
    assert_eq!(u.password_hash, "not a hash");
    assert_eq!(u.created_at, at(5));
    assert_eq!(u.updated_at, at(80));
    assert_eq!(u.sync_status, SyncStatus::Synced);
    assert_eq!(u.last_sync, Some(at(80)));
    assert_eq!(primary.fetch_raw(1).unwrap().unwrap().username, "ada l");
    assert_eq!(
        cache.fetch_raw(1).unwrap().unwrap().email.as_deref(),
        Some("ada@x.org")
    );
    // keeping one's own name and address is no conflict
    assert!(update_user(
        &mut primary,
        &mut cache,
        1,
        "ada l".to_string(),
        Some("ada@x.org".to_string()),
        None,
        at(81)
    )
    .is_ok());
}

#[test]
fn update_user_is_refused_in_order() {
    let mut primary: Store<User> = Store::new();
    let mut cache: Store<User> = Store::new();
    primary.upsert(user(1, "ada", Some("a@x.org"), 5)).unwrap();
    primary.upsert(user(2, "bob", Some("b@x.org"), 6)).unwrap();

    let f = update_user(
        &mut primary,
        &mut cache,
        7,
        " ".to_string(),
        None,
        None,
        at(1),
    )
    .unwrap_err();
    assert_eq!(
        (f.kind, f.message.as_str()),
        (ErrorKind::InvalidInput, "Username obbligatorio")
    );
    let f = update_user(
        &mut primary,
        &mut cache,
        7,
        "bob".to_string(),
        None,
        None,
        at(1),
    )
    .unwrap_err();
    assert_eq!(
        (f.kind, f.message.as_str()),
        (ErrorKind::NotFound, "Utente non trovato")
    );
    let f = update_user(
        &mut primary,
        &mut cache,
        1,
        "bob".to_string(),
        Some("b@x.org".to_string()),
        None,
        at(1),
    )
    .unwrap_err();
    assert_eq!(
        (f.kind, f.message.as_str()),
        (ErrorKind::Conflict, "Username gi\u{e0} in uso")
    );
    let f = update_user(
        &mut primary,
        &mut cache,
        1,
        "ada".to_string(),
        Some("b@x.org".to_string()),
        None,
        at(1),
    )
    .unwrap_err();
    assert_eq!(
        (f.kind, f.message.as_str()),
        (ErrorKind::Conflict, "Email gi\u{e0} in uso")
    );
    // a blank address is not compared
    primary.upsert(user(3, "cy", Some("  "), 7)).unwrap();
    assert!(update_user(
        &mut primary,
        &mut cache,
        1,
        "ada".to_string(),
        Some("  ".to_string()),
        None,
        at(1)
    )
    .is_ok());
    primary.set_reachable(false);
    let f = update_user(
        &mut primary,
        &mut cache,
        1,
        "".to_string(),
        None,
        None,
        at(1),
    )
    .unwrap_err();
    assert_eq!(f.kind, ErrorKind::Connection);
    assert_eq!(
        f.message,
        "Errore recupero utente: archivio non raggiungibile"
    );
    primary.set_reachable(true);
    assert_eq!(primary.fetch_raw(2).unwrap().unwrap().username, "bob");
    primary.refuse_writes_to(2);
    let f = update_user(
        &mut primary,
        &mut cache,
        2,
        "rob".to_string(),
        None,
        None,
        at(1),
    )
    .unwrap_err();
    assert_eq!(
        f.message,
        "Errore aggiornamento utente: scrittura rifiutata"
    );
    assert_eq!(primary.fetch_raw(2).unwrap().unwrap().username, "bob");
    assert!(cache.fetch_raw(2).unwrap().is_none());
}

#[test]
fn address_lookup_counts_other_accounts_only() {
    let mut store: Store<User> = Store::new();
    store.upsert(user(1, "ada", Some("a@x.org"), 5)).unwrap();
    store.upsert(user(2, "bob", None, 6)).unwrap();
    assert_eq!(email_in_use(&store, "a@x.org", 2), Ok(true));
    assert_eq!(email_in_use(&store, "a@x.org", 1), Ok(false));
    assert_eq!(email_in_use(&store, "z@x.org", 2), Ok(false));
    store.soft_delete(1).unwrap();
    assert_eq!(email_in_use(&store, "a@x.org", 2), Ok(true));
    store.set_reachable(false);
    assert_eq!(
        email_in_use(&store, "a@x.org", 2),
        Err(StoreError::Unreachable)
    );
}

#[test]
fn profile_update_changes_address_and_password() {
    let mut primary: Store<User> = Store::new();
    let mut cache: Store<User> = Store::new();
    let made = register_user(&mut primary, &mut cache, request("ada", "s3cret!"), at(1)).unwrap();
    let old_hash = made.record.user.password_hash.clone();

    let written = update_user_profile(
        &mut primary,
        &mut cache,
        1,
        Some("new@x.org".to_string()),
        "s3cret!".to_string(),
        Some("n3w-pass".to_string()),
        at(70),
    )
    .unwrap();
    assert_eq!(written.record.email.as_deref(), Some("new@x.org"));
    assert_ne!(written.record.password_hash, old_hash);
    assert_eq!(written.record.updated_at, at(70));
    assert_eq!(written.record.last_sync, Some(at(70)));
    assert_eq!(written.record.username, "ada");
    assert!(login_user(&cache, login("ada", "n3w-pass"), at(71)).is_ok());
    assert_eq!(
        login_user(&cache, login("ada", "s3cret!"), at(71))
            .unwrap_err()
            .kind,
        ErrorKind::Denied
    );

    let f = update_user_profile(
        &mut primary,
        &mut cache,
        1,
        None,
        "s3cret!".to_string(),
        None,
        at(72),
    )
    .unwrap_err();
    assert_eq!(
        (f.kind, f.message.as_str()),
        (ErrorKind::Denied, "Password corrente non corretta")
    );
}

#[test]
fn profile_update_is_judged_from_the_verdict() {
    let mut primary: Store<User> = Store::new();
    primary.upsert(user(1, "ada", Some("a@x.org"), 5)).unwrap();
    primary.upsert(user(2, "bob", Some("b@x.org"), 6)).unwrap();
    let ada = primary.fetch_raw(1).unwrap().unwrap();

    let f =
        judge_profile_update(&primary, &ada, Err("boom".to_string()), &None, &None).unwrap_err();
    assert_eq!(
        (f.kind, f.message.as_str()),
        (ErrorKind::Internal, "Errore verifica password: boom")
    );
    let f = judge_profile_update(&primary, &ada, Ok(false), &None, &None).unwrap_err();
    assert_eq!(f.message, "Password corrente non corretta");
    let f = judge_profile_update(
        &primary,
        &ada,
        Ok(true),
        &Some("b@x.org".to_string()),
        &None,
    )
    .unwrap_err();
    assert_eq!(
        (f.kind, f.message.as_str()),
        (ErrorKind::Conflict, "Email gi\u{e0} in uso")
    );
    let f = judge_profile_update(&primary, &ada, Ok(true), &None, &Some("12345".to_string()))
        .unwrap_err();
    assert_eq!(
        (f.kind, f.message.as_str()),
        (
            ErrorKind::InvalidInput,
            "Nuova password deve essere di almeno 6 caratteri"
        )
    );
    assert!(judge_profile_update(
        &primary,
        &ada,
        Ok(true),
        &Some("a@x.org".to_string()),
        &Some("123456".to_string())
    )
    .is_ok());
    assert!(judge_profile_update(&primary, &ada, Ok(true), &None, &None).is_ok());
    assert!(judge_profile_update(&primary, &ada, Ok(true), &Some("".to_string()), &None).is_ok());
    // where the store cannot be asked the address counts as free
    primary.set_reachable(false);
    assert!(judge_profile_update(
        &primary,
        &ada,
        Ok(true),
        &Some("b@x.org".to_string()),
        &None
    )
    .is_ok());
}

#[test]
fn profile_update_needs_the_account() {
    let mut primary: Store<User> = Store::new();
    let f = check_profile_update(&primary, 3, &None, "pw", &None).unwrap_err();
    assert_eq!(
        (f.kind, f.message.as_str()),
        (ErrorKind::NotFound, "Utente non trovato")
    );
    primary.set_reachable(false);
    let f = check_profile_update(&primary, 3, &None, "pw", &None).unwrap_err();
    assert_eq!(
        f.message,
        "Errore recupero utente: archivio non raggiungibile"
    );
}

#[test]
fn profile_address_changes_only_where_its_text_differs() {
    let mut primary: Store<User> = Store::new();
    let mut cache: Store<User> = Store::new();
    let keep = |email: Option<&str>,
                asked: Option<&str>,
                primary: &mut Store<User>,
                cache: &mut Store<User>| {
        apply_profile_update(
            primary,
            cache,
            user(1, "ada", email, 5),
            asked.map(|s| s.to_string()),
            None,
            at(9),
        )
        .unwrap()
        .record
        .email
    };
    assert_eq!(
        keep(Some("a@x.org"), Some("b@x.org"), &mut primary, &mut cache).as_deref(),
        Some("b@x.org")
    );
    assert_eq!(keep(Some("a@x.org"), None, &mut primary, &mut cache), None);
    assert_eq!(
        keep(Some(""), None, &mut primary, &mut cache).as_deref(),
        Some("")
    );
    assert_eq!(keep(None, Some(""), &mut primary, &mut cache), None);
    assert_eq!(
        keep(None, Some("n@x.org"), &mut primary, &mut cache).as_deref(),
        Some("n@x.org")
    );
    let with_hash = apply_profile_update(
        &mut primary,
        &mut cache,
        user(1, "ada", None, 5),
        None,
        Some("fresh".to_string()),
        at(9),
    )
    .unwrap();
    assert_eq!(with_hash.record.password_hash, "fresh");
    assert_eq!(cache.fetch_raw(1).unwrap().unwrap().password_hash, "fresh");
}

#[test]
fn deleting_a_user_leaves_tombstones() {
    let mut primary: Store<User> = Store::new();
    let mut cache: Store<User> = Store::new();
    primary.upsert(user(1, "ada", None, 5)).unwrap();
    cache.upsert(user(1, "ada", None, 5)).unwrap();
    let written = delete_user(&mut primary, &mut cache, 1).unwrap();
    assert_eq!((written.record, written.cache_failure), (1, None));
    assert!(primary.fetch_raw(1).unwrap().unwrap().deleted);
    assert!(cache.fetch_raw(1).unwrap().unwrap().deleted);
    assert!(get_all_users(&cache).unwrap().is_empty());
    assert!(get_users_from_postgres(&primary).unwrap().is_empty());
    let f = delete_user(&mut primary, &mut cache, 1).unwrap_err();
    assert_eq!(
        (f.kind, f.message.as_str()),
        (ErrorKind::NotFound, "Utente non trovato")
    );
    primary.set_reachable(false);
    let f = delete_user(&mut primary, &mut cache, 1).unwrap_err();
    assert_eq!(
        f.message,
        "Errore soft delete utente: archivio non raggiungibile"
    );
}

#[test]
fn users_are_listed_newest_first() {
    let mut cache: Store<User> = Store::new();
    cache.upsert(user(1, "old", None, 10)).unwrap();
    cache.upsert(user(2, "new", None, 30)).unwrap();
    cache.upsert(user(3, "mid", None, 20)).unwrap();
    let names: Vec<String> = get_all_users(&cache)
        .unwrap()
        .into_iter()
        .map(|u| u.username)
        .collect();
    assert_eq!(
        names,
        vec!["new".to_string(), "mid".to_string(), "old".to_string()]
    );
}

#[test]
fn profile_reads_go_through_the_cache() {
    let mut primary: Store<User> = Store::new();
    let mut cache: Store<User> = Store::new();
    primary.upsert(user(1, "primary ada", None, 5)).unwrap();
    assert_eq!(
        get_user_profile(&cache, &primary, 1).unwrap().username,
        "primary ada"
    );
    cache.upsert(user(1, "cached ada", None, 5)).unwrap();
    assert_eq!(
        get_user_profile(&cache, &primary, 1).unwrap().username,
        "cached ada"
    );
    assert_eq!(
        get_current_user(&cache, &primary, 1).unwrap().username,
        "cached ada"
    );
    let f = get_current_user(&cache, &primary, 2).unwrap_err();
    assert_eq!(
        (f.kind, f.message.as_str()),
        (ErrorKind::NotFound, "Utente non trovato")
    );
    primary.set_reachable(false);
    let f = get_user_profile(&cache, &primary, 2).unwrap_err();
    assert_eq!(
        f.message,
        "Errore recupero profilo utente: archivio non raggiungibile"
    );
    let f = get_current_user(&cache, &primary, 2).unwrap_err();
    assert_eq!(
        f.message,
        "Errore recupero utente: archivio non raggiungibile"
    );
}

#[test]
fn new_password_is_the_one_that_was_hashed() {
    let mut primary: Store<User> = Store::new();
    let mut cache: Store<User> = Store::new();
    // the name is long enough to pass for a password, and must not be taken for one
    register_user(
        &mut primary,
        &mut cache,
        request("ada-lovelace", "s3cret!"),
        at(1),
    )
    .unwrap();
    assert_eq!(
        login_user(&cache, login("ada-lovelace", "ada-lovelace"), at(2))
            .unwrap_err()
            .kind,
        ErrorKind::Denied
    );
    assert!(login_user(&cache, login("ada-lovelace", "s3cret!"), at(2)).is_ok());
    let written = update_user_profile(
        &mut primary,
        &mut cache,
        1,
        None,
        "s3cret!".to_string(),
        Some("an0ther".to_string()),
        at(3),
    )
    .unwrap();
    assert_ne!(written.record.password_hash, "x");
    assert!(login_user(&cache, login("ada-lovelace", "an0ther"), at(4)).is_ok());
}

#[test]
fn replica_outage_keeps_the_refusals() {
    let mut side = mes_sync::replica::Replica::new();
    side.users.refuse_writes_to(3);
    side.set_reachable(false);
    side.set_reachable(true);
    assert_eq!(
        side.users.upsert(user(3, "ada", None, 1)),
        Err(StoreError::Rejected)
    );
    assert_eq!(side.users.upsert(user(4, "bob", None, 1)), Ok(()));
}
