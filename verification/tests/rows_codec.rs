use mes_sync::error::ErrorKind;
use mes_sync::records::{Machine, SyncStatus, User, WorkType};
use mes_sync::rows::{
    assemble_machine, assemble_machine_row, assemble_user, assemble_user_row, assemble_work_type,
    assemble_work_type_row, decode_machine, decode_machines, decode_user, decode_users,
    decode_work_type, decode_work_types, encode_machine, encode_user, encode_work_type,
    read_last_sync, read_status, read_works_types, require_instant, require_instant_text,
    settle_last_sync, settle_works_types, write_status, write_works_types, MachineRow, UserRow,
    WorkTypeRow,
};
use mes_sync::time::Timestamp;

fn at(secs: i64) -> Timestamp {
    Timestamp::new(secs, 0)
}

fn user_row(id: i32, created: &str, updated: &str) -> UserRow {
    UserRow {
        id,
        username: format!("u{}", id),
        email: Some("u@x.org".to_string()),
        image: Some(vec![1, 2]),
        password_hash: "h".to_string(),
        created_at: created.to_string(),
        updated_at: updated.to_string(),
        sync_status: "synced".to_string(),
        last_sync: Some("2024-03-01T12:00:00+00:00".to_string()),
        deleted: 0,
    }
}

#[test]
fn instants_are_read_from_rfc_3339_text() {
    assert_eq!(
        Timestamp::parse("1970-01-01T00:00:00Z"),
        Some(Timestamp::new(0, 0))
    );
    assert_eq!(
        Timestamp::parse("1970-01-01T00:00:01.5+00:00"),
        Some(Timestamp::new(1, 500_000_000))
    );
    // an offset is taken to UTC
    assert_eq!(
        Timestamp::parse("1970-01-01T01:00:00+01:00"),
        Some(Timestamp::new(0, 0))
    );
    assert_eq!(
        Timestamp::parse("2024-03-01T12:00:00-08:00"),
        Some(Timestamp::new(1709323200, 0))
    );
    assert_eq!(
        Timestamp::parse("1969-12-31T23:59:59Z"),
        Some(Timestamp::new(-1, 0))
    );
    assert_eq!(Timestamp::parse("2024-03-01 12:00:00"), None);
    assert_eq!(Timestamp::parse("yesterday"), None);
    assert_eq!(Timestamp::parse(""), None);
}

#[test]
fn instants_are_written_as_rfc_3339_text() {
    assert_eq!(
        Timestamp::new(0, 0).to_text(),
        Some("1970-01-01T00:00:00+00:00".to_string())
    );
    assert_eq!(
        Timestamp::new(1709323200, 250_000_000).to_text(),
        Some("2024-03-01T20:00:00.250+00:00".to_string())
    );
    assert_eq!(
        Timestamp::new(-1, 0).to_text(),
        Some("1969-12-31T23:59:59+00:00".to_string())
    );
    assert_eq!(Timestamp::new(i64::MAX, 0).to_text(), None);
    assert_eq!(Timestamp::new(0, 2_000_000_000).to_text(), None);
    let t = Timestamp::new(1700000000, 123_456_789);
    assert_eq!(Timestamp::parse(&t.to_text().unwrap()), Some(t));
}

#[test]
fn instants_are_ordered_by_seconds_then_nanoseconds() {
    assert!(Timestamp::new(1, 0).is_before(&Timestamp::new(2, 0)));
    assert!(Timestamp::new(1, 999).is_before(&Timestamp::new(2, 0)));
    assert!(Timestamp::new(1, 5).is_before(&Timestamp::new(1, 6)));
    assert!(!Timestamp::new(1, 5).is_before(&Timestamp::new(1, 5)));
    assert!(!Timestamp::new(2, 0).is_before(&Timestamp::new(1, 999)));
    assert!(Timestamp::new(-5, 0).is_before(&Timestamp::new(-4, 0)));
}

#[test]
fn user_row_is_read_field_by_field() {
    let mut row = user_row(7, "2024-03-01T12:00:00+00:00", "2024-03-02T12:00:00+01:00");
    row.deleted = 2;
    row.sync_status = "pending".to_string();
    let user = decode_user(&row, at(99)).unwrap();
    assert_eq!(user.id, 7);
    assert_eq!(user.username, "u7");
    assert_eq!(user.email.as_deref(), Some("u@x.org"));
    assert_eq!(user.image, Some(vec![1, 2]));
    assert_eq!(user.password_hash, "h");
    assert_eq!(user.created_at, at(1709294400));
    assert_eq!(user.updated_at, at(1709377200));
    assert_eq!(user.sync_status, SyncStatus::Pending);
    assert_eq!(user.last_sync, Some(at(1709294400)));
    assert!(user.deleted);
}

#[test]
fn unreadable_times_fail_the_row_or_fall_back_to_now() {
    let f = decode_user(&user_row(1, "nonsense", "2024-03-02T12:00:00Z"), at(99)).unwrap_err();
    assert_eq!(f.kind, ErrorKind::Serialization);
    assert_eq!(f.message, "Errore lettura created_at: nonsense");
    let f = decode_user(&user_row(1, "2024-03-02T12:00:00Z", ""), at(99)).unwrap_err();
    assert_eq!(f.message, "Errore lettura updated_at: ");
    let mut row = user_row(1, "2024-03-02T12:00:00Z", "2024-03-02T12:00:00Z");
    row.last_sync = Some("garbled".to_string());
    assert_eq!(decode_user(&row, at(99)).unwrap().last_sync, Some(at(99)));
    row.last_sync = None;
    assert_eq!(decode_user(&row, at(99)).unwrap().last_sync, None);
    assert_eq!(
        read_last_sync(&Some("1970-01-01T00:00:05Z".to_string()), at(99)),
        Some(at(5))
    );
}

#[test]
fn unreadable_rows_are_left_out_of_a_listing() {
    let good = "2024-03-02T12:00:00Z";
    let rows = vec![
        user_row(1, good, good),
        user_row(2, "bad", good),
        user_row(3, good, good),
        user_row(4, good, "bad"),
        user_row(5, good, good),
    ];
    let ids: Vec<i32> = decode_users(&rows, at(1)).iter().map(|u| u.id).collect();
    assert_eq!(ids, vec![1, 3, 5]);
    assert!(decode_users(&vec![], at(1)).is_empty());
}

#[test]
fn status_is_stored_as_a_word() {
    assert_eq!(read_status("synced"), SyncStatus::Synced);
    assert_eq!(read_status("pending"), SyncStatus::Pending);
    assert_eq!(read_status("Synced"), SyncStatus::Pending);
    assert_eq!(read_status(""), SyncStatus::Pending);
    assert_eq!(write_status(SyncStatus::Synced), "synced");
    assert_eq!(write_status(SyncStatus::Pending), "pending");
}

#[test]
fn works_types_are_stored_as_a_json_list() {
    assert_eq!(read_works_types("[1, 2,3]"), vec![1, 2, 3]);
    assert_eq!(read_works_types("[]"), Vec::<i32>::new());
    assert_eq!(read_works_types("[-4]"), vec![-4]);
    assert_eq!(read_works_types("not json"), Vec::<i32>::new());
    assert_eq!(read_works_types("[1.5]"), Vec::<i32>::new());
    assert_eq!(read_works_types("[4000000000]"), Vec::<i32>::new());
    assert_eq!(read_works_types("{\"a\":1}"), Vec::<i32>::new());
    assert_eq!(write_works_types(&vec![1, 2, 3]), "[1,2,3]");
    assert_eq!(write_works_types(&vec![]), "[]");
    assert_eq!(write_works_types(&vec![-7]), "[-7]");
    assert_eq!(write_works_types(&vec![0]), "[0]");
    assert_eq!(
        write_works_types(&vec![i32::MIN, 0, i32::MAX, 10, -100]),
        "[-2147483648,0,2147483647,10,-100]"
    );
}

#[test]
fn user_survives_being_stored() {
    let user = User {
        id: 3,
        username: "ada".to_string(),
        email: None,
        image: Some(vec![0, 255]),
        password_hash: "$2b$12$abc".to_string(),
        created_at: Timestamp::new(1700000000, 1000),
        updated_at: Timestamp::new(1700000500, 0),
        sync_status: SyncStatus::Synced,
        last_sync: Some(Timestamp::new(1700000600, 5)),
        deleted: true,
    };
    let row = encode_user(&user).unwrap();
    assert_eq!(row.created_at, "2023-11-14T22:13:20.000001+00:00");
    assert_eq!(row.updated_at, "2023-11-14T22:21:40+00:00");
    assert_eq!(row.sync_status, "synced");
    assert_eq!(row.deleted, 1);
    let back = decode_user(&row, at(0)).unwrap();
    assert_eq!(back.username, user.username);
    assert_eq!(back.image, user.image);
    assert_eq!(back.created_at, user.created_at);
    assert_eq!(back.updated_at, user.updated_at);
    assert_eq!(back.last_sync, user.last_sync);
    assert_eq!(back.deleted, user.deleted);
}

#[test]
fn unwritable_instant_fails_the_encoding() {
    let mut user = User {
        id: 3,
        username: "ada".to_string(),
        email: None,
        image: None,
        password_hash: "h".to_string(),
        created_at: Timestamp::new(i64::MAX, 0),
        updated_at: at(1),
        sync_status: SyncStatus::Synced,
        last_sync: None,
        deleted: false,
    };
    let f = encode_user(&user).unwrap_err();
    assert_eq!(
        (f.kind, f.message.as_str()),
        (ErrorKind::Serialization, "Errore scrittura created_at")
    );
    user.created_at = at(1);
    user.updated_at = Timestamp::new(i64::MIN, 0);
    assert_eq!(
        encode_user(&user).unwrap_err().message,
        "Errore scrittura updated_at"
    );
    user.updated_at = at(1);
    user.last_sync = Some(Timestamp::new(i64::MAX, 0));
    assert_eq!(
        encode_user(&user).unwrap_err().message,
        "Errore scrittura last_sync"
    );
    user.last_sync = None;
    assert_eq!(encode_user(&user).unwrap().last_sync, None);
}

#[test]
fn machine_survives_being_stored() {
    let machine = Machine {
        id: 9,
        name: "press".to_string(),
        image: None,
        user_name: Some("op".to_string()),
        assistant_name: None,
        ip_address: Some("10.1.1.1".to_string()),
        description: Some("big".to_string()),
        database_name: Some("plant".to_string()),
        works_types: vec![3, 1, 2],
        sync_status: SyncStatus::Pending,
        last_sync: Some(at(86400)),
        deleted: false,
    };
    let row = encode_machine(&machine).unwrap();
    assert_eq!(row.works_types, "[3,1,2]");
    assert_eq!(row.sync_status, "pending");
    assert_eq!(row.last_sync.as_deref(), Some("1970-01-02T00:00:00+00:00"));
    assert_eq!(row.deleted, 0);
    let back = decode_machine(&row, at(0));
    assert_eq!(back.name, "press");
    assert_eq!(back.user_name.as_deref(), Some("op"));
    assert_eq!(back.ip_address.as_deref(), Some("10.1.1.1"));
    assert_eq!(back.database_name.as_deref(), Some("plant"));
    assert_eq!(back.works_types, vec![3, 1, 2]);
    assert_eq!(back.sync_status, SyncStatus::Pending);
    assert_eq!(back.last_sync, Some(at(86400)));

    let mut odd = MachineRow {
        works_types: "oops".to_string(),
        ..row
    };
    odd.last_sync = Some("oops".to_string());
    odd.deleted = -1;
    let read = decode_machines(&vec![odd], at(77));
    assert_eq!(read.len(), 1);
    assert_eq!(read[0].works_types, Vec::<i32>::new());
    assert_eq!(read[0].last_sync, Some(at(77)));
    assert!(read[0].deleted);
}

#[test]
fn work_type_survives_being_stored() {
    let work_type = WorkType {
        id: 2,
        name: "milling".to_string(),
        image: Some(vec![4]),
        created_at: at(1000),
        updated_at: at(2000),
        sync_status: SyncStatus::Synced,
        last_sync: None,
        deleted: false,
    };
    let row = encode_work_type(&work_type).unwrap();
    assert_eq!(row.created_at, "1970-01-01T00:16:40+00:00");
    assert_eq!(row.last_sync, None);
    let back = decode_work_type(&row, at(0)).unwrap();
    assert_eq!((back.id, back.name.as_str()), (2, "milling"));
    assert_eq!(back.created_at, at(1000));
    assert_eq!(back.updated_at, at(2000));
    let bad = WorkTypeRow {
        updated_at: "x".to_string(),
        ..encode_work_type(&work_type).unwrap()
    };
    assert_eq!(
        decode_work_type(&bad, at(0)).unwrap_err().message,
        "Errore lettura updated_at: x"
    );
    let listed = decode_work_types(&vec![bad, row], at(0));
    assert_eq!(listed.len(), 1);
    assert_eq!(listed[0].id, 2);
}

#[test]
fn readings_are_settled_by_rule() {
    assert_eq!(settle_last_sync(None, at(9)), None);
    assert_eq!(settle_last_sync(Some(Some(at(4))), at(9)), Some(at(4)));
    assert_eq!(settle_last_sync(Some(None), at(9)), Some(at(9)));
    assert_eq!(settle_works_types(Some(vec![3, 1])), vec![3, 1]);
    assert_eq!(settle_works_types(None), Vec::<i32>::new());
    assert_eq!(
        require_instant("created_at", "x", Some(at(1))).unwrap(),
        at(1)
    );
    let f = require_instant("created_at", "x", None).unwrap_err();
    assert_eq!(
        (f.kind, f.message.as_str()),
        (ErrorKind::Serialization, "Errore lettura created_at: x")
    );
    assert_eq!(
        require_instant_text("last_sync", Some("t".to_string())).unwrap(),
        "t"
    );
    let f = require_instant_text("last_sync", None).unwrap_err();
    assert_eq!(
        (f.kind, f.message.as_str()),
        (ErrorKind::Serialization, "Errore scrittura last_sync")
    );
}

#[test]
fn records_are_assembled_from_rows_and_readings() {
    let row = user_row(5, "ignored", "ignored");
    let user = assemble_user(&row, at(1), at(2), Some(at(3)));
    assert_eq!((user.id, user.username.as_str()), (5, "u5"));
    assert_eq!(
        (user.created_at, user.updated_at, user.last_sync),
        (at(1), at(2), Some(at(3)))
    );
    assert_eq!(user.sync_status, SyncStatus::Synced);
    assert!(!user.deleted);
    let back = assemble_user_row(&user, "c".to_string(), "u".to_string(), None);
    assert_eq!(
        (back.created_at.as_str(), back.updated_at.as_str()),
        ("c", "u")
    );
    assert_eq!(
        (back.last_sync, back.deleted, back.sync_status.as_str()),
        (None, 0, "synced")
    );

    let machine_row = MachineRow {
        id: 2,
        name: "saw".to_string(),
        image: None,
        user_name: None,
        assistant_name: Some("aid".to_string()),
        ip_address: None,
        description: None,
        database_name: None,
        works_types: "ignored".to_string(),
        sync_status: "whatever".to_string(),
        last_sync: None,
        deleted: 1,
    };
    let machine = assemble_machine(&machine_row, vec![8], None);
    assert_eq!(machine.works_types, vec![8]);
    assert_eq!(machine.assistant_name.as_deref(), Some("aid"));
    assert_eq!(machine.sync_status, SyncStatus::Pending);
    assert!(machine.deleted);
    let stored = assemble_machine_row(&machine, "[8]".to_string(), Some("t".to_string()));
    assert_eq!((stored.works_types.as_str(), stored.deleted), ("[8]", 1));
    assert_eq!(stored.sync_status, "pending");
    assert_eq!(stored.last_sync.as_deref(), Some("t"));

    let work_type_row = WorkTypeRow {
        id: 3,
        name: "cut".to_string(),
        image: None,
        created_at: "ignored".to_string(),
        updated_at: "ignored".to_string(),
        sync_status: "synced".to_string(),
        last_sync: None,
        deleted: 0,
    };
    let work_type = assemble_work_type(&work_type_row, at(1), at(2), None);
    assert_eq!((work_type.id, work_type.name.as_str()), (3, "cut"));
    assert_eq!((work_type.created_at, work_type.updated_at), (at(1), at(2)));
    let stored = assemble_work_type_row(&work_type, "c".to_string(), "u".to_string(), None);
    assert_eq!(
        (stored.created_at.as_str(), stored.updated_at.as_str()),
        ("c", "u")
    );
}
