use mes_sync::error::ErrorKind;
use mes_sync::machines::{
    add_new_machine, delete_machine, get_machine, get_machines, get_machines_from_postgres,
    normalize, save_machine_to_postgres, update_machine,
};
use mes_sync::records::{Machine, SyncStatus};
use mes_sync::store::{Store, StoreError};
use mes_sync::time::Timestamp;

fn at(secs: i64) -> Timestamp {
    Timestamp::new(secs, 0)
}

fn text(s: &str) -> Option<String> {
    Some(s.to_string())
}

fn add(primary: &mut Store<Machine>, cache: &mut Store<Machine>, name: &str) -> Machine {
    add_new_machine(
        primary,
        cache,
        name.to_string(),
        None,
        text("10.0.0.1"),
        text("db"),
        text("d"),
        vec![1, 2],
        at(10),
    )
    .unwrap()
    .record
}

#[test]
fn added_machine_stands_in_both_stores() {
    let mut primary: Store<Machine> = Store::new();
    let mut cache: Store<Machine> = Store::new();
    let written = add_new_machine(
        &mut primary,
        &mut cache,
        "saw".to_string(),
        Some(vec![1]),
        text(" 10.0.0.1 "),
        None,
        text("cuts"),
        vec![3, 4],
        at(10),
    )
    .unwrap();
    assert_eq!(written.cache_failure, None);
    let m = written.record;
    assert_eq!(m.id, 1);
    assert_eq!(m.name, "saw");
    assert_eq!(m.image, Some(vec![1]));
    // adding keeps the texts as they were sent
    assert_eq!(m.ip_address.as_deref(), Some(" 10.0.0.1 "));
    assert_eq!(m.database_name, None);
    assert_eq!(m.description.as_deref(), Some("cuts"));
    assert_eq!(m.user_name, None);
    assert_eq!(m.assistant_name, None);
    assert_eq!(m.works_types, vec![3, 4]);
    assert_eq!(m.sync_status, SyncStatus::Synced);
    assert_eq!(m.last_sync, Some(at(10)));
    assert!(!m.deleted);
    assert_eq!(cache.fetch_raw(1).unwrap().unwrap().name, "saw");
    assert_eq!(add(&mut primary, &mut cache, "drill").id, 2);
}

#[test]
fn adding_a_machine_reports_the_side_that_failed() {
    let mut primary: Store<Machine> = Store::new();
    let mut cache: Store<Machine> = Store::new();
    cache.set_reachable(false);
    let written = add_new_machine(
        &mut primary,
        &mut cache,
        "saw".to_string(),
        None,
        None,
        None,
        None,
        vec![],
        at(1),
    )
    .unwrap();
    assert_eq!(written.cache_failure, Some(StoreError::Unreachable));
    assert!(primary.fetch_raw(1).unwrap().is_some());
    primary.set_reachable(false);
    let f = add_new_machine(
        &mut primary,
        &mut cache,
        "saw".to_string(),
        None,
        None,
        None,
        None,
        vec![],
        at(1),
    )
    .unwrap_err();
    assert_eq!(f.kind, ErrorKind::Connection);
    assert_eq!(
        f.message,
        "Errore inserimento macchina in PostgreSQL: archivio non raggiungibile"
    );
    let f = save_machine_to_postgres(
        &mut primary,
        "x".to_string(),
        None,
        None,
        None,
        None,
        vec![],
        at(1),
    )
    .unwrap_err();
    assert_eq!(
        f.message,
        "Errore inserimento macchina in PostgreSQL: archivio non raggiungibile"
    );
}

#[test]
fn update_normalises_the_optional_texts() {
    let mut primary: Store<Machine> = Store::new();
    let mut cache: Store<Machine> = Store::new();
    let mut seeded = add(&mut primary, &mut cache, "saw");
    seeded.user_name = text("op");
    seeded.assistant_name = text("aid");
    primary.upsert(seeded).unwrap();

    let written = update_machine(
        &mut primary,
        &mut cache,
        1,
        "big saw".to_string(),
        Some(vec![5]),
        text("  10.0.0.9\t"),
        text("   "),
        text(""),
        vec![7],
        at(90),
    )
    .unwrap();
    let m = written.record;
    assert_eq!(m.name, "big saw");
    assert_eq!(m.image, Some(vec![5]));
    assert_eq!(m.ip_address.as_deref(), Some("10.0.0.9"));
    assert_eq!(m.database_name, None);
    assert_eq!(m.description, None);
    assert_eq!(m.works_types, vec![7]);
    assert_eq!(m.user_name.as_deref(), Some("op"));
    assert_eq!(m.assistant_name.as_deref(), Some("aid"));
    assert_eq!(m.last_sync, Some(at(90)));
    assert_eq!(m.sync_status, SyncStatus::Synced);
    let cached = cache.fetch_raw(1).unwrap().unwrap();
    assert_eq!(cached.name, "big saw");
    assert_eq!(cached.ip_address.as_deref(), Some("10.0.0.9"));
    assert_eq!(cached.last_sync, Some(at(90)));
}

#[test]
fn normalize_trims_and_drops_blank_texts() {
    assert_eq!(normalize(&None), None);
    assert_eq!(normalize(&text("")), None);
    assert_eq!(normalize(&text(" \t\n")), None);
    assert_eq!(normalize(&text("\u{a0}\u{3000}")), None);
    assert_eq!(normalize(&text("  a b  ")), text("a b"));
    assert_eq!(normalize(&text("x")), text("x"));
    assert_eq!(normalize(&text("\u{2003}x\u{85}")), text("x"));
    // a zero-width space is no white space
    assert_eq!(normalize(&text("\u{200b}")), text("\u{200b}"));
}

#[test]
fn update_is_refused_for_a_machine_that_is_not_live() {
    let mut primary: Store<Machine> = Store::new();
    let mut cache: Store<Machine> = Store::new();
    let f = update_machine(
        &mut primary,
        &mut cache,
        12,
        "x".to_string(),
        None,
        None,
        None,
        None,
        vec![],
        at(1),
    )
    .unwrap_err();
    assert_eq!(f.kind, ErrorKind::NotFound);
    assert_eq!(
        f.message,
        "Macchina con id 12 non trovata o \u{e8} stata eliminata"
    );
    add(&mut primary, &mut cache, "saw");
    delete_machine(&mut primary, &mut cache, 1).unwrap();
    let f = update_machine(
        &mut primary,
        &mut cache,
        1,
        "x".to_string(),
        None,
        None,
        None,
        None,
        vec![],
        at(1),
    )
    .unwrap_err();
    assert_eq!(
        f.message,
        "Macchina con id 1 non trovata o \u{e8} stata eliminata"
    );
    assert_eq!(primary.fetch_raw(1).unwrap().unwrap().name, "saw");
    primary.set_reachable(false);
    let f = update_machine(
        &mut primary,
        &mut cache,
        1,
        "x".to_string(),
        None,
        None,
        None,
        None,
        vec![],
        at(1),
    )
    .unwrap_err();
    assert_eq!(
        f.message,
        "Errore verifica esistenza macchina: archivio non raggiungibile"
    );
}

#[test]
fn update_reports_a_refused_write() {
    let mut primary: Store<Machine> = Store::new();
    let mut cache: Store<Machine> = Store::new();
    add(&mut primary, &mut cache, "saw");
    primary.refuse_writes_to(1);
    let f = update_machine(
        &mut primary,
        &mut cache,
        1,
        "x".to_string(),
        None,
        None,
        None,
        None,
        vec![],
        at(1),
    )
    .unwrap_err();
    assert_eq!(
        (f.kind, f.message.as_str()),
        (
            ErrorKind::Conflict,
            "Errore aggiornamento macchina: scrittura rifiutata"
        )
    );
    assert_eq!(cache.fetch_raw(1).unwrap().unwrap().name, "saw");
}

#[test]
fn deleted_machine_is_flagged_in_both_stores() {
    let mut primary: Store<Machine> = Store::new();
    let mut cache: Store<Machine> = Store::new();
    add(&mut primary, &mut cache, "saw");
    add(&mut primary, &mut cache, "drill");
    let written = delete_machine(&mut primary, &mut cache, 1).unwrap();
    assert_eq!((written.record, written.cache_failure), (1, None));
    assert!(primary.fetch_raw(1).unwrap().unwrap().deleted);
    assert!(cache.fetch_raw(1).unwrap().unwrap().deleted);
    let names: Vec<String> = get_machines(&cache)
        .unwrap()
        .into_iter()
        .map(|m| m.name)
        .collect();
    assert_eq!(names, vec!["drill".to_string()]);
    assert_eq!(get_machines_from_postgres(&primary).unwrap().len(), 1);

    let f = delete_machine(&mut primary, &mut cache, 1).unwrap_err();
    assert_eq!(f.kind, ErrorKind::NotFound);
    assert_eq!(
        f.message,
        "Macchina con id 1 non trovata o gi\u{e0} eliminata"
    );
    let f = delete_machine(&mut primary, &mut cache, -4).unwrap_err();
    assert_eq!(
        f.message,
        "Macchina con id -4 non trovata o gi\u{e0} eliminata"
    );
    cache.set_reachable(false);
    let written = delete_machine(&mut primary, &mut cache, 2).unwrap();
    assert_eq!(written.cache_failure, Some(StoreError::Unreachable));
    primary.set_reachable(false);
    let f = delete_machine(&mut primary, &mut cache, 2).unwrap_err();
    assert_eq!(
        f.message,
        "Errore soft delete macchina da PostgreSQL: archivio non raggiungibile"
    );
}

#[test]
fn machine_reads_prefer_the_cache() {
    let mut primary: Store<Machine> = Store::new();
    let mut cache: Store<Machine> = Store::new();
    add(&mut primary, &mut cache, "saw");
    let mut changed = primary.fetch_raw(1).unwrap().unwrap();
    changed.name = "primary saw".to_string();
    primary.upsert(changed).unwrap();
    assert_eq!(get_machine(&cache, &primary, 1).unwrap().name, "saw");
    cache.soft_delete(1).unwrap();
    assert_eq!(
        get_machine(&cache, &primary, 1).unwrap().name,
        "primary saw"
    );
    let f = get_machine(&cache, &primary, 8).unwrap_err();
    assert_eq!(
        (f.kind, f.message.as_str()),
        (ErrorKind::NotFound, "Macchina non trovata")
    );
    primary.set_reachable(false);
    let f = get_machine(&cache, &primary, 8).unwrap_err();
    assert_eq!(
        f.message,
        "Errore recupero macchina: archivio non raggiungibile"
    );
}

#[test]
fn machines_are_listed_by_name() {
    let mut primary: Store<Machine> = Store::new();
    let mut cache: Store<Machine> = Store::new();
    for name in ["press", "Drill", "saw", "drill", "", "pres"] {
        add(&mut primary, &mut cache, name);
    }
    let names: Vec<String> = get_machines(&cache)
        .unwrap()
        .into_iter()
        .map(|m| m.name)
        .collect();
    assert_eq!(names, vec!["", "Drill", "drill", "pres", "press", "saw"]);
    cache.set_reachable(false);
    assert_eq!(
        get_machines(&cache).unwrap_err().message,
        "Errore apertura connessione SQLite: archivio non raggiungibile"
    );
}
