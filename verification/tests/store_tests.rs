use rusqlite::Connection;
use watchlog::normalize::{normalize, RawKind};
use watchlog::record::{ChangeType, EventRecord};
use watchlog::store::{flush_batch, init_store, StoreError};

fn temp_db_path() -> String {
    format!("/tmp/watchlog_test_{}.db", uuid::Uuid::new_v4())
}

fn record_with_id(id: &str, file: &str) -> EventRecord {
    EventRecord {
        id: id.to_string(),
        timestamp: 1_700_000_000,
        change_type: ChangeType::Create,
        path: format!("/watch/{file}"),
        file_name: file.to_string(),
    }
}

fn count_rows(path: &str) -> i64 {
    let conn = Connection::open(path).unwrap();
    conn.query_row("SELECT COUNT(*) FROM file_events", [], |row| row.get(0))
        .unwrap()
}

#[test]
fn schema_init_is_idempotent() {
    let path = temp_db_path();
    assert!(init_store(&path).is_ok());

    let batch = vec![record_with_id("one", "a.txt")];
    assert_eq!(flush_batch(&path, &batch).unwrap().count(), 1);

    // A second initialization must leave the table and its rows intact.
    assert!(init_store(&path).is_ok());
    assert_eq!(count_rows(&path), 1);

    let conn = Connection::open(&path).unwrap();
    let mut stmt = conn.prepare("PRAGMA table_info(file_events)").unwrap();
    let columns: Vec<String> = stmt
        .query_map([], |row| row.get::<_, String>(1))
        .unwrap()
        .map(|c| c.unwrap())
        .collect();
    assert_eq!(
        columns,
        vec!["id", "timestamp", "change_type", "path", "file_name"]
    );
}

#[test]
fn create_then_remove_persists_two_rows() {
    let path = temp_db_path();
    init_store(&path).unwrap();

    let watched = vec!["/watch/a.txt".to_string()];
    let created = normalize(RawKind::Create, &watched);
    assert_eq!(created.len(), 1);
    assert_eq!(flush_batch(&path, &created).unwrap().count(), 1);

    let removed = normalize(RawKind::Remove, &watched);
    assert_eq!(removed.len(), 1);
    assert_eq!(flush_batch(&path, &removed).unwrap().count(), 1);

    let conn = Connection::open(&path).unwrap();
    let mut stmt = conn
        .prepare("SELECT change_type, file_name FROM file_events ORDER BY rowid")
        .unwrap();
    let rows: Vec<(String, String)> = stmt
        .query_map([], |row| Ok((row.get(0)?, row.get(1)?)))
        .unwrap()
        .map(|r| r.unwrap())
        .collect();
    assert_eq!(
        rows,
        vec![
            ("create".to_string(), "a.txt".to_string()),
            ("remove".to_string(), "a.txt".to_string()),
        ]
    );
}

#[test]
fn rename_persists_both_granularities() {
    let path = temp_db_path();
    init_store(&path).unwrap();

    // A rename reported as two halves.
    let from = normalize(RawKind::RenameFrom, &vec!["/watch/b.txt".to_string()]);
    let to = normalize(RawKind::RenameTo, &vec!["/watch/c.txt".to_string()]);
    assert_eq!(flush_batch(&path, &from).unwrap().count(), 1);
    assert_eq!(flush_batch(&path, &to).unwrap().count(), 1);

    // A rename reported atomically, both paths in one notification.
    let atomic = normalize(
        RawKind::RenameAny,
        &vec!["/watch/b.txt".to_string(), "/watch/c.txt".to_string()],
    );
    assert_eq!(flush_batch(&path, &atomic).unwrap().count(), 2);

    let conn = Connection::open(&path).unwrap();
    let mut stmt = conn
        .prepare("SELECT change_type, file_name FROM file_events ORDER BY rowid")
        .unwrap();
    let rows: Vec<(String, String)> = stmt
        .query_map([], |row| Ok((row.get(0)?, row.get(1)?)))
        .unwrap()
        .map(|r| r.unwrap())
        .collect();
    assert_eq!(
        rows,
        vec![
            ("rename_from".to_string(), "b.txt".to_string()),
            ("rename_to".to_string(), "c.txt".to_string()),
            ("renamed".to_string(), "b.txt".to_string()),
            ("renamed".to_string(), "c.txt".to_string()),
        ]
    );
}

#[test]
fn failed_batch_leaves_no_rows_behind() {
    let path = temp_db_path();
    init_store(&path).unwrap();

    // Seed one row whose id the faulty batch will collide with.
    let seeded = vec![record_with_id("duplicate", "seed.txt")];
    assert_eq!(flush_batch(&path, &seeded).unwrap().count(), 1);
    assert_eq!(count_rows(&path), 1);

    // The second insert violates the primary key; the whole batch must
    // roll back, including the first insert that had already succeeded.
    let faulty = vec![
        record_with_id("fresh-a", "a.txt"),
        record_with_id("duplicate", "dup.txt"),
        record_with_id("fresh-b", "b.txt"),
    ];
    assert_eq!(flush_batch(&path, &faulty).err(), Some(StoreError::Insert));
    assert_eq!(count_rows(&path), 1);

    let conn = Connection::open(&path).unwrap();
    let survivors: i64 = conn
        .query_row(
            "SELECT COUNT(*) FROM file_events WHERE id IN ('fresh-a', 'fresh-b')",
            [],
            |row| row.get(0),
        )
        .unwrap();
    assert_eq!(survivors, 0);
}

#[test]
fn open_failure_is_reported_as_open() {
    let path = "/watchlog_no_such_directory/store.db";
    assert_eq!(init_store(path).err(), Some(StoreError::Open));
    let batch = vec![record_with_id("x", "a.txt")];
    assert_eq!(flush_batch(path, &batch).err(), Some(StoreError::Open));
}

#[test]
fn insert_into_uninitialized_store_fails_as_insert() {
    let path = temp_db_path();
    // No schema: the insert statement must fail and the error say so.
    let batch = vec![record_with_id("x", "a.txt")];
    assert_eq!(flush_batch(&path, &batch).err(), Some(StoreError::Insert));
}

#[test]
fn store_errors_describe_themselves() {
    assert_eq!(StoreError::Open.describe(), "could not open the store");
    assert_eq!(
        StoreError::Schema.describe(),
        "could not initialize the schema"
    );
    assert_eq!(
        StoreError::Begin.describe(),
        "could not begin a transaction"
    );
    assert_eq!(
        StoreError::Insert.describe(),
        "an insert failed; the batch was rolled back"
    );
    assert_eq!(
        StoreError::Commit.describe(),
        "the commit failed; the batch was rolled back"
    );
}
