use mes_sync::error::ErrorKind;
use mes_sync::records::{SyncStatus, WorkType};
use mes_sync::store::{Store, StoreError};
use mes_sync::time::Timestamp;
use mes_sync::work_types::{
    add_work_type, delete_work_type, get_work_type, get_work_types, update_work_type, NewWorkType,
    UpdateWorkType,
};

fn at(secs: i64) -> Timestamp {
    Timestamp::new(secs, 0)
}

fn new(name: &str) -> NewWorkType {
    NewWorkType {
        name: name.to_string(),
        image: Some(vec![1]),
    }
}

fn change(name: &str) -> UpdateWorkType {
    UpdateWorkType {
        name: name.to_string(),
        image: None,
    }
}

#[test]
fn added_work_type_stands_in_both_stores() {
    let mut primary: Store<WorkType> = Store::new();
    let mut cache: Store<WorkType> = Store::new();
    let written = add_work_type(&mut primary, &mut cache, new("milling"), at(20)).unwrap();
    assert_eq!(written.cache_failure, None);
    let w = written.record;
    assert_eq!((w.id, w.name.as_str()), (1, "milling"));
    assert_eq!(w.image, Some(vec![1]));
    assert_eq!(w.created_at, at(20));
    assert_eq!(w.updated_at, at(20));
    assert!(!w.deleted);
    let cached = cache.fetch_raw(1).unwrap().unwrap();
    assert_eq!(cached.name, "milling");
    assert_eq!(cached.sync_status, SyncStatus::Synced);
    assert_eq!(cached.last_sync, Some(at(20)));
}

#[test]
fn work_type_names_are_unique() {
    let mut primary: Store<WorkType> = Store::new();
    let mut cache: Store<WorkType> = Store::new();
    add_work_type(&mut primary, &mut cache, new("milling"), at(20)).unwrap();
    add_work_type(&mut primary, &mut cache, new("welding"), at(20)).unwrap();
    let f = add_work_type(&mut primary, &mut cache, new("milling"), at(21)).unwrap_err();
    assert_eq!(f.kind, ErrorKind::Conflict);
    assert_eq!(
        f.message,
        "Un tipo di lavorazione con questo nome esiste gi\u{e0}"
    );
    assert_eq!(primary.fetch_raw_all().unwrap().len(), 2);
    // names differ by case
    assert!(add_work_type(&mut primary, &mut cache, new("Milling"), at(21)).is_ok());

    let f = update_work_type(&mut primary, &mut cache, 2, change("milling"), at(22)).unwrap_err();
    assert_eq!(f.kind, ErrorKind::Conflict);
    assert!(update_work_type(&mut primary, &mut cache, 2, change("welding"), at(22)).is_ok());
    // the name is checked before the identity
    let f = update_work_type(&mut primary, &mut cache, 99, change("milling"), at(22)).unwrap_err();
    assert_eq!(f.kind, ErrorKind::Conflict);
    let f = update_work_type(&mut primary, &mut cache, 99, change("bending"), at(22)).unwrap_err();
    assert_eq!(
        (f.kind, f.message.as_str()),
        (ErrorKind::NotFound, "Tipo di lavorazione non trovato")
    );
}

#[test]
fn updated_work_type_keeps_its_creation_time() {
    let mut primary: Store<WorkType> = Store::new();
    let mut cache: Store<WorkType> = Store::new();
    add_work_type(&mut primary, &mut cache, new("milling"), at(20)).unwrap();
    let w = update_work_type(&mut primary, &mut cache, 1, change("fine milling"), at(30))
        .unwrap()
        .record;
    assert_eq!(w.name, "fine milling");
    assert_eq!(w.image, None);
    assert_eq!(w.created_at, at(20));
    assert_eq!(w.updated_at, at(30));
    assert_eq!(cache.fetch_raw(1).unwrap().unwrap().name, "fine milling");
    assert_eq!(cache.fetch_raw(1).unwrap().unwrap().updated_at, at(30));
}

#[test]
fn work_type_commands_report_an_unreachable_primary() {
    let mut primary: Store<WorkType> = Store::new();
    let mut cache: Store<WorkType> = Store::new();
    primary.set_reachable(false);
    let f = add_work_type(&mut primary, &mut cache, new("milling"), at(20)).unwrap_err();
    assert_eq!(
        (f.kind, f.message.as_str()),
        (
            ErrorKind::Connection,
            "Errore nella verifica del nome: archivio non raggiungibile"
        )
    );
    let f = update_work_type(&mut primary, &mut cache, 1, change("x"), at(20)).unwrap_err();
    assert_eq!(
        f.message,
        "Errore nella verifica del nome: archivio non raggiungibile"
    );
    let f = delete_work_type(&mut primary, &mut cache, 1).unwrap_err();
    assert_eq!(
        f.message,
        "Errore nell'eliminazione del tipo di lavorazione: archivio non raggiungibile"
    );
    let f = get_work_types(&cache, &primary).unwrap_err();
    assert_eq!(
        f.message,
        "Errore nel recupero dei tipi di lavorazione: archivio non raggiungibile"
    );
    let f = get_work_type(&cache, &primary, 1).unwrap_err();
    assert_eq!(
        f.message,
        "Errore nel recupero del tipo di lavorazione: archivio non raggiungibile"
    );
}

#[test]
fn work_type_writes_can_be_refused() {
    let mut primary: Store<WorkType> = Store::new();
    let mut cache: Store<WorkType> = Store::new();
    primary.refuse_writes_to(1);
    let f = add_work_type(&mut primary, &mut cache, new("milling"), at(20)).unwrap_err();
    assert_eq!(
        f.message,
        "Errore nell'aggiunta del tipo di lavorazione: scrittura rifiutata"
    );
    let mut primary: Store<WorkType> = Store::new();
    add_work_type(&mut primary, &mut cache, new("milling"), at(20)).unwrap();
    primary.refuse_writes_to(1);
    let f = update_work_type(&mut primary, &mut cache, 1, change("x"), at(20)).unwrap_err();
    assert_eq!(
        f.message,
        "Errore nell'aggiornamento del tipo di lavorazione: scrittura rifiutata"
    );
    let f = delete_work_type(&mut primary, &mut cache, 1).unwrap_err();
    assert_eq!(
        f.message,
        "Errore nell'eliminazione del tipo di lavorazione: scrittura rifiutata"
    );
    assert!(primary.fetch_raw(1).unwrap().is_some());
}

#[test]
fn deleted_work_type_is_erased_from_the_primary_and_flagged_in_the_cache() {
    let mut primary: Store<WorkType> = Store::new();
    let mut cache: Store<WorkType> = Store::new();
    add_work_type(&mut primary, &mut cache, new("milling"), at(20)).unwrap();
    add_work_type(&mut primary, &mut cache, new("welding"), at(20)).unwrap();
    let written = delete_work_type(&mut primary, &mut cache, 1).unwrap();
    assert_eq!((written.record, written.cache_failure), (1, None));
    assert!(primary.fetch_raw(1).unwrap().is_none());
    let tomb = cache.fetch_raw(1).unwrap().unwrap();
    assert!(tomb.deleted);
    assert_eq!(tomb.name, "milling");
    let f = delete_work_type(&mut primary, &mut cache, 1).unwrap_err();
    assert_eq!(
        (f.kind, f.message.as_str()),
        (ErrorKind::NotFound, "Tipo di lavorazione non trovato")
    );
    cache.set_reachable(false);
    let written = delete_work_type(&mut primary, &mut cache, 2).unwrap();
    assert_eq!(written.cache_failure, Some(StoreError::Unreachable));
    assert!(primary.fetch_raw(2).unwrap().is_none());
}

#[test]
fn work_types_are_listed_from_the_cache_while_it_holds_any() {
    let mut primary: Store<WorkType> = Store::new();
    let mut cache: Store<WorkType> = Store::new();
    add_work_type(&mut primary, &mut cache, new("welding"), at(20)).unwrap();
    add_work_type(&mut primary, &mut cache, new("milling"), at(20)).unwrap();
    let mut only_primary: Store<WorkType> = Store::new();
    only_primary
        .upsert(primary.fetch_raw(1).unwrap().unwrap())
        .unwrap();

    let names = |rows: Vec<WorkType>| rows.into_iter().map(|w| w.name).collect::<Vec<_>>();
    assert_eq!(
        names(get_work_types(&cache, &only_primary).unwrap()),
        vec!["milling", "welding"]
    );
    let empty: Store<WorkType> = Store::new();
    assert_eq!(
        names(get_work_types(&empty, &only_primary).unwrap()),
        vec!["welding"]
    );
    cache.soft_delete(1).unwrap();
    cache.soft_delete(2).unwrap();
    assert_eq!(
        names(get_work_types(&cache, &only_primary).unwrap()),
        vec!["welding"]
    );
    let mut down: Store<WorkType> = Store::new();
    down.set_reachable(false);
    assert_eq!(
        names(get_work_types(&down, &only_primary).unwrap()),
        vec!["welding"]
    );
}

#[test]
fn work_type_reads_go_through_the_cache() {
    let mut primary: Store<WorkType> = Store::new();
    let mut cache: Store<WorkType> = Store::new();
    add_work_type(&mut primary, &mut cache, new("welding"), at(20)).unwrap();
    assert_eq!(get_work_type(&cache, &primary, 1).unwrap().name, "welding");
    let empty: Store<WorkType> = Store::new();
    assert_eq!(get_work_type(&empty, &primary, 1).unwrap().name, "welding");
    let f = get_work_type(&cache, &primary, 5).unwrap_err();
    assert_eq!(
        (f.kind, f.message.as_str()),
        (ErrorKind::NotFound, "Tipo di lavorazione non trovato")
    );
}
