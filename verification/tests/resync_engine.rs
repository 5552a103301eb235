use mes_sync::error::ErrorKind;
use mes_sync::records::{Collection, Machine, SyncStatus, User};
use mes_sync::replica::Replica;
use mes_sync::resync::{
    resync, sync_machines, sync_replica, sync_users, sync_users_from_postgres, sync_work_types,
};
use mes_sync::store::{Store, StoreError};
use mes_sync::time::Timestamp;

fn at(secs: i64) -> Timestamp {
    Timestamp::new(secs, 0)
}

fn user(id: i32, name: &str, updated: i64) -> User {
    User {
        id,
        username: name.to_string(),
        email: Some(format!("{}@example.org", name)),
        image: Some(vec![1, 2, 3]),
        password_hash: "hash".to_string(),
        created_at: at(10),
        updated_at: at(updated),
        sync_status: SyncStatus::Pending,
        last_sync: None,
        deleted: false,
    }
}

fn machine(id: i32, name: &str) -> Machine {
    Machine {
        id,
        name: name.to_string(),
        image: None,
        user_name: Some("op".to_string()),
        assistant_name: None,
        ip_address: Some("10.0.0.1".to_string()),
        description: None,
        database_name: None,
        works_types: vec![4, 5],
        sync_status: SyncStatus::Pending,
        last_sync: Some(at(1)),
        deleted: false,
    }
}

fn describe(store: &Store<User>) -> Vec<(i32, String, SyncStatus, Option<Timestamp>, bool)> {
    let mut rows: Vec<_> = store
        .fetch_raw_all()
        .unwrap()
        .into_iter()
        .map(|u| (u.id, u.username, u.sync_status, u.last_sync, u.deleted))
        .collect();
    rows.sort_by_key(|r| r.0);
    rows
}

#[test]
fn resync_twice_gives_the_same_cache_and_count() {
    let mut primary: Store<User> = Store::new();
    let mut cache: Store<User> = Store::new();
    primary.upsert(user(1, "ada", 100)).unwrap();
    primary.upsert(user(2, "bob", 100)).unwrap();
    primary.upsert(user(3, "cy", 100)).unwrap();
    cache.upsert(user(2, "old bob", 50)).unwrap();
    cache.upsert(user(9, "stray", 50)).unwrap();

    assert_eq!(resync(&primary, &mut cache, at(500)), Ok(3));
    let first = describe(&cache);
    assert_eq!(resync(&primary, &mut cache, at(500)), Ok(3));
    assert_eq!(describe(&cache), first);
    assert_eq!(
        first,
        vec![
            (
                1,
                "ada".to_string(),
                SyncStatus::Synced,
                Some(at(500)),
                false
            ),
            (
                2,
                "bob".to_string(),
                SyncStatus::Synced,
                Some(at(500)),
                false
            ),
            (
                3,
                "cy".to_string(),
                SyncStatus::Synced,
                Some(at(500)),
                false
            ),
            (9, "stray".to_string(), SyncStatus::Pending, None, false),
        ]
    );
}

#[test]
fn second_resync_leaves_what_it_alone_would_have_left() {
    let mut primary: Store<User> = Store::new();
    primary.upsert(user(1, "ada", 100)).unwrap();
    let mut twice: Store<User> = Store::new();
    let mut once: Store<User> = Store::new();
    resync(&primary, &mut twice, at(500)).unwrap();
    resync(&primary, &mut twice, at(600)).unwrap();
    resync(&primary, &mut once, at(600)).unwrap();
    assert_eq!(describe(&twice), describe(&once));
}

#[test]
fn resync_copies_the_payload_and_marks_the_copy_synced() {
    let mut primary: Store<Machine> = Store::new();
    let mut cache: Store<Machine> = Store::new();
    primary.upsert(machine(4, "press")).unwrap();
    assert_eq!(resync(&primary, &mut cache, at(700)), Ok(1));
    let copy = cache.fetch_raw(4).unwrap().unwrap();
    assert_eq!(copy.name, "press");
    assert_eq!(copy.user_name.as_deref(), Some("op"));
    assert_eq!(copy.ip_address.as_deref(), Some("10.0.0.1"));
    assert_eq!(copy.works_types, vec![4, 5]);
    assert_eq!(copy.sync_status, SyncStatus::Synced);
    assert_eq!(copy.last_sync, Some(at(700)));
}

#[test]
fn resync_skips_tombstones_of_the_primary() {
    let mut primary: Store<User> = Store::new();
    let mut cache: Store<User> = Store::new();
    primary.upsert(user(1, "ada", 100)).unwrap();
    primary.upsert(user(2, "bob", 100)).unwrap();
    primary.soft_delete(2).unwrap();
    assert_eq!(resync(&primary, &mut cache, at(500)), Ok(1));
    assert!(cache.fetch_raw(2).unwrap().is_none());
}

#[test]
fn resync_skips_a_refused_row_and_goes_on() {
    let mut primary: Store<User> = Store::new();
    let mut cache: Store<User> = Store::new();
    primary.upsert(user(1, "ada", 100)).unwrap();
    primary.upsert(user(2, "bob", 100)).unwrap();
    primary.upsert(user(3, "cy", 100)).unwrap();
    cache.refuse_writes_to(2);
    assert_eq!(resync(&primary, &mut cache, at(500)), Ok(2));
    assert!(cache.fetch_raw(1).unwrap().is_some());
    assert!(cache.fetch_raw(2).unwrap().is_none());
    assert!(cache.fetch_raw(3).unwrap().is_some());
    // the refusal stands, so a second run reports the same
    assert_eq!(resync(&primary, &mut cache, at(500)), Ok(2));
}

#[test]
fn resync_fails_without_either_store() {
    let mut primary: Store<User> = Store::new();
    let mut cache: Store<User> = Store::new();
    primary.upsert(user(1, "ada", 100)).unwrap();
    primary.set_reachable(false);
    assert_eq!(
        resync(&primary, &mut cache, at(500)),
        Err(StoreError::Unreachable)
    );
    primary.set_reachable(true);
    cache.set_reachable(false);
    assert_eq!(
        resync(&primary, &mut cache, at(500)),
        Err(StoreError::Unreachable)
    );
    cache.set_reachable(true);
    assert!(cache.fetch_raw_all().unwrap().is_empty());
}

#[test]
fn resync_of_an_empty_primary_writes_nothing() {
    let primary: Store<User> = Store::new();
    let mut cache: Store<User> = Store::new();
    cache.upsert(user(9, "stray", 50)).unwrap();
    assert_eq!(resync(&primary, &mut cache, at(500)), Ok(0));
    assert_eq!(describe(&cache).len(), 1);
}

#[test]
fn sync_commands_word_their_outcome() {
    let mut primary: Store<User> = Store::new();
    let mut cache: Store<User> = Store::new();
    for id in 1..=12 {
        primary.upsert(user(id, &format!("u{}", id), 100)).unwrap();
    }
    assert_eq!(
        sync_users(&primary, &mut cache, at(5)),
        Ok("Sincronizzati 12 utenti".to_string())
    );

    let machines: Store<Machine> = Store::new();
    let mut machine_cache: Store<Machine> = Store::new();
    assert_eq!(
        sync_machines(&machines, &mut machine_cache, at(5)),
        Ok("Sincronizzate 0 macchine".to_string())
    );

    let work_types = Store::new();
    let mut work_type_cache = Store::new();
    work_type_cache.set_reachable(false);
    assert_eq!(
        sync_work_types(&work_types, &mut work_type_cache, at(5)),
        Err("Errore sincronizzazione tipi di lavorazione: Errore apertura database SQLite: archivio non raggiungibile".to_string())
    );
}

#[test]
fn sync_failure_names_the_side_that_failed() {
    let mut primary: Store<User> = Store::new();
    let mut cache: Store<User> = Store::new();
    primary.set_reachable(false);
    let failure = sync_users_from_postgres(&primary, &mut cache, at(5)).unwrap_err();
    assert_eq!(failure.kind, ErrorKind::Connection);
    assert_eq!(
        failure.message,
        "Errore recupero utenti da PostgreSQL: archivio non raggiungibile"
    );
    cache.set_reachable(false);
    let failure = sync_users_from_postgres(&primary, &mut cache, at(5)).unwrap_err();
    assert_eq!(
        failure.message,
        "Errore apertura database SQLite: archivio non raggiungibile"
    );
}

#[test]
fn one_collection_is_synced_by_name() {
    let mut primary = Replica::new();
    let mut cache = Replica::new();
    primary.users.upsert(user(1, "ada", 100)).unwrap();
    primary.machines.upsert(machine(1, "saw")).unwrap();
    primary.machines.upsert(machine(2, "drill")).unwrap();

    assert_eq!(
        sync_replica(&primary, &mut cache, Collection::Machines, at(5)),
        Ok("Sincronizzate 2 macchine".to_string())
    );
    assert_eq!(cache.machines.fetch_all().unwrap().len(), 2);
    assert!(cache.users.fetch_all().unwrap().is_empty());
    assert_eq!(
        sync_replica(&primary, &mut cache, Collection::Users, at(5)),
        Ok("Sincronizzati 1 utenti".to_string())
    );
    assert_eq!(
        sync_replica(&primary, &mut cache, Collection::WorkTypes, at(5)),
        Ok("Sincronizzati 0 tipi di lavorazione".to_string())
    );
    primary.set_reachable(false);
    assert_eq!(
        sync_replica(&primary, &mut cache, Collection::Machines, at(6)),
        Err("Errore sincronizzazione macchine: Errore recupero macchine: archivio non raggiungibile".to_string())
    );
}

#[test]
fn stores_agree_on_live_identities_after_resync() {
    let mut primary: Store<User> = Store::new();
    let mut cache: Store<User> = Store::new();
    for id in [4, 2, 9] {
        primary.upsert(user(id, &format!("u{}", id), 100)).unwrap();
    }
    primary.soft_delete(9).unwrap();
    cache.upsert(user(2, "stale", 1)).unwrap();
    resync(&primary, &mut cache, at(7)).unwrap();
    let mut live_primary: Vec<i32> = primary.fetch_all().unwrap().iter().map(|u| u.id).collect();
    let mut live_cache: Vec<i32> = cache.fetch_all().unwrap().iter().map(|u| u.id).collect();
    live_primary.sort();
    live_cache.sort();
    assert_eq!(live_primary, vec![2, 4]);
    assert_eq!(live_cache, live_primary);
    assert!(cache
        .fetch_all()
        .unwrap()
        .iter()
        .all(|u| u.sync_status == SyncStatus::Synced));
}
