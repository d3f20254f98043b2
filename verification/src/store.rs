//! The persistence writer: schema bootstrap for the store and the
//! transactional, all-or-nothing commit of one batch of records. The store
//! itself is SQLite, reached through rusqlite behind trusted wrappers; the
//! statement texts, the batch walk, the rows handed to the store, the error
//! taxonomy and the row values are verified here.

use vstd::prelude::*;
use crate::record::{EventRecord, RecordModel, models_of};

verus! {

#[verifier::external_type_specification]
#[verifier::external_body]
pub struct ExConnection(rusqlite::Connection);

#[verifier::external_type_specification]
#[verifier::external_body]
pub struct ExTransaction<'a>(rusqlite::Transaction<'a>);

#[verifier::external_type_specification]
#[verifier::external_body]
pub struct ExRusqliteError(rusqlite::Error);

/// Which step of a store operation failed. Open and schema failures are
/// fatal at startup; the others are fatal at runtime.
#[derive(Clone, Copy, PartialEq, Eq, Structural, Debug)]
pub enum StoreError {
    /// The store file could not be opened.
    Open,
    /// The schema bootstrap statements failed.
    Schema,
    /// A transaction could not be started.
    Begin,
    /// An insert failed; the transaction was abandoned and rolls back.
    Insert,
    /// The final commit failed; the transaction rolls back.
    Commit,
}

impl StoreError {
    /// A short text for reporting the failure.
    pub fn describe(self) -> (r: String)
        ensures
            r@ == self.describe_spec(),
    {
        match self {
            StoreError::Open => "could not open the store".to_owned(),
            StoreError::Schema => "could not initialize the schema".to_owned(),
            StoreError::Begin => "could not begin a transaction".to_owned(),
            StoreError::Insert => "an insert failed; the batch was rolled back".to_owned(),
            StoreError::Commit => "the commit failed; the batch was rolled back".to_owned(),
        }
    }

    /// The text `describe` returns for each failure.
    pub open spec fn describe_spec(self) -> Seq<char> {
        match self {
            StoreError::Open => "could not open the store"@,
            StoreError::Schema => "could not initialize the schema"@,
            StoreError::Begin => "could not begin a transaction"@,
            StoreError::Insert => "an insert failed; the batch was rolled back"@,
            StoreError::Commit => "the commit failed; the batch was rolled back"@,
        }
    }
}

/// One row as handed to the store: the five column values of the
/// `file_events` table, in schema order.
pub struct RowModel {
    pub id: Seq<char>,
    pub timestamp: int,
    pub change_type: Seq<char>,
    pub path: Seq<char>,
    pub file_name: Seq<char>,
}

/// The row a record is persisted as: every column copied verbatim from the
/// record, the change tag as its persisted label.
pub open spec fn row_of(r: RecordModel) -> RowModel {
    RowModel {
        id: r.id,
        timestamp: r.timestamp,
        change_type: r.change_type.label_spec(),
        path: r.path,
        file_name: r.file_name,
    }
}

/// The rows a batch is persisted as, in batch order.
pub open spec fn rows_of(records: Seq<RecordModel>) -> Seq<RowModel> {
    records.map_values(|r: RecordModel| row_of(r))
}

/// The schema bootstrap statements: write-ahead logging, and the single
/// table, created only when absent.
pub open spec fn schema_sql_spec() -> Seq<char> {
    "PRAGMA journal_mode = WAL;\n        CREATE TABLE IF NOT EXISTS file_events (\n            id TEXT PRIMARY KEY,\n            timestamp INTEGER NOT NULL,\n            change_type TEXT NOT NULL,\n            path TEXT NOT NULL,\n            file_name TEXT NOT NULL\n        );"@
}

/// The schema bootstrap statements, for handing to the store.
fn schema_sql() -> (r: &'static str)
    ensures
        r@ == schema_sql_spec(),
{
    "PRAGMA journal_mode = WAL;\n        CREATE TABLE IF NOT EXISTS file_events (\n            id TEXT PRIMARY KEY,\n            timestamp INTEGER NOT NULL,\n            change_type TEXT NOT NULL,\n            path TEXT NOT NULL,\n            file_name TEXT NOT NULL\n        );"
}

/// The insert statement: one row of `file_events`, the five columns bound
/// positionally.
pub open spec fn insert_sql_spec() -> Seq<char> {
    "INSERT INTO file_events (id, timestamp, change_type, path, file_name) VALUES (?1, ?2, ?3, ?4, ?5)"@
}

/// The insert statement, for handing to the store.
fn insert_sql() -> (r: &'static str)
    ensures
        r@ == insert_sql_spec(),
{
    "INSERT INTO file_events (id, timestamp, change_type, path, file_name) VALUES (?1, ?2, ?3, ?4, ?5)"
}

/// Relies on `rusqlite::Connection::open`: opens the database file at
/// `path`, creating it when absent; `Err` when the file cannot be opened.
#[verifier::external_body]
fn open_connection(path: &str) -> Result<rusqlite::Connection, rusqlite::Error> {
    rusqlite::Connection::open(path)
}

/// Relies on `rusqlite::Connection::execute_batch`: runs the semicolon-
/// separated statements in `sql` one after another; `Err` as soon as one
/// fails. Verified callers can hand it only the schema bootstrap text.
#[verifier::external_body]
fn run_statements(conn: &rusqlite::Connection, sql: &str) -> Result<(), rusqlite::Error>
    requires
        sql@ == schema_sql_spec(),
{
    conn.execute_batch(sql)
}

/// Relies on `rusqlite::Connection::unchecked_transaction`: begins a
/// transaction that rolls back when dropped without a commit.
#[verifier::external_body]
fn begin_transaction<'a>(conn: &'a rusqlite::Connection) -> Result<
    rusqlite::Transaction<'a>,
    rusqlite::Error,
> {
    conn.unchecked_transaction()
}

/// Relies on `rusqlite::Connection::execute` (through the transaction):
/// runs the insert statement with the five values bound to its placeholders
/// in order, inside the transaction; `Err` when the statement fails.
/// Verified callers can hand it only the insert statement text.
#[verifier::external_body]
fn execute_insert(
    tx: &rusqlite::Transaction<'_>,
    sql: &str,
    id: &str,
    timestamp: i64,
    change_type: &str,
    path: &str,
    file_name: &str,
) -> Result<usize, rusqlite::Error>
    requires
        sql@ == insert_sql_spec(),
{
    tx.execute(sql, (id, timestamp, change_type, path, file_name))
}

/// Relies on `rusqlite::Transaction::commit`: makes the transaction's
/// writes durable; on `Err` the transaction's writes are rolled back.
#[verifier::external_body]
fn commit_transaction(tx: rusqlite::Transaction<'_>) -> Result<(), rusqlite::Error> {
    tx.commit()
}

/// A live store transaction together with the rows handed to it so far: a
/// verified log of the insert calls made through it, each recorded beside
/// the call with exactly the values bound to the statement.
pub struct StoreTx<'a> {
    tx: rusqlite::Transaction<'a>,
    handed: Ghost<Seq<RowModel>>,
}

/// Evidence of a committed batch: the rows handed to the store and
/// committed, in the order they were handed.
pub struct CommittedBatch {
    count: usize,
    rows: Ghost<Seq<RowModel>>,
}

impl CommittedBatch {
    #[verifier::type_invariant]
    spec fn wf(&self) -> bool {
        self.count as int == self.rows@.len()
    }

    /// The committed rows, in the order they were handed to the store.
    pub closed spec fn rows(&self) -> Seq<RowModel> {
        self.rows@
    }

    /// How many rows were committed.
    pub fn count(&self) -> (n: usize)
        ensures
            n as int == self.rows().len(),
    {
        proof {
            use_type_invariant(self);
        }
        self.count
    }
}

impl<'a> StoreTx<'a> {
    /// The rows handed to the store through this transaction, in order.
    pub closed spec fn handed(&self) -> Seq<RowModel> {
        self.handed@
    }

    /// Begins a transaction on the connection; nothing has been handed to a
    /// fresh one. Dropping the transaction without a commit rolls it back.
    pub fn begin(conn: &'a rusqlite::Connection) -> (r: Result<StoreTx<'a>, StoreError>)
        ensures
            (match r {
                Ok(t) => t.handed() == Seq::<RowModel>::empty(),
                Err(e) => e == StoreError::Begin,
            }),
    {
        match begin_transaction(conn) {
            Ok(tx) => Ok(StoreTx { tx, handed: Ghost(Seq::empty()) }),
            Err(_) => Err(StoreError::Begin),
        }
    }

    /// Hands one record to the store as a row of the insert statement: on
    /// `Ok` exactly that row, every column copied verbatim, was appended to
    /// what this transaction has been handed; on `Err` nothing was appended.
    pub fn insert(&mut self, rec: &EventRecord) -> (r: Result<(), StoreError>)
        ensures
            (match r {
                Ok(u) => u == () && final(self).handed() == old(self).handed().push(row_of(rec@)),
                Err(e) => e == StoreError::Insert && final(self).handed() == old(self).handed(),
            }),
    {
        let label = rec.change_type.label();
        match execute_insert(
            &self.tx,
            insert_sql(),
            rec.id.as_str(),
            rec.timestamp,
            label.as_str(),
            rec.path.as_str(),
            rec.file_name.as_str(),
        ) {
            Ok(_) => {
                self.handed = Ghost(self.handed@.push(row_of(rec@)));
                Ok(())
            },
            Err(_) => Err(StoreError::Insert),
        }
    }

    /// Commits the transaction: on `Ok` the rows handed to the store are
    /// durable, and the evidence carries exactly them; on `Err` the
    /// transaction's writes are rolled back.
    pub fn commit(self, count: usize) -> (r: Result<CommittedBatch, StoreError>)
        requires
            count as int == self.handed().len(),
        ensures
            (match r {
                Ok(c) => c.rows() == self.handed(),
                Err(e) => e == StoreError::Commit,
            }),
    {
        let StoreTx { tx, handed } = self;
        match commit_transaction(tx) {
            Ok(_) => Ok(CommittedBatch { count, rows: handed }),
            Err(_) => Err(StoreError::Commit),
        }
    }
}

/// Creates the store's single table when absent and enables write-ahead
/// logging: on `Ok` exactly the schema bootstrap statements were handed to
/// the store at `path`. Running it again against the same store is a no-op:
/// the statements only create what is missing. Fails only at opening the
/// store or at the schema statements, and says which.
pub fn init_store(path: &str) -> (r: Result<SchemaReady, StoreError>)
    ensures
        (match r {
            Ok(s) => s.statements() == schema_sql_spec(),
            Err(e) => e == StoreError::Open || e == StoreError::Schema,
        }),
{
    let conn = match open_connection(path) {
        Ok(c) => c,
        Err(_) => return Err(StoreError::Open),
    };
    match run_statements(&conn, schema_sql()) {
        Ok(_) => Ok(SchemaReady { statements: Ghost(schema_sql_spec()) }),
        Err(_) => Err(StoreError::Schema),
    }
}

/// Evidence of a bootstrapped store: the statement text that was handed to
/// it.
pub struct SchemaReady {
    statements: Ghost<Seq<char>>,
}

impl SchemaReady {
    /// The statements that were handed to the store.
    pub closed spec fn statements(&self) -> Seq<char> {
        self.statements@
    }
}

/// Commits one non-empty batch atomically: opens the store, begins a
/// transaction, hands every record to it in batch order, commits. On `Ok`
/// the rows handed to the store and committed are exactly, in batch order,
/// each record's id, timestamp, tag label, path and file name — the
/// evidence carries them, and the count says how many. On any failure the
/// transaction is never committed: it is dropped and rolls back, so none of
/// the batch's rows remain; the error says which step failed.
pub fn flush_batch(path: &str, records: &Vec<EventRecord>) -> (r: Result<
    CommittedBatch,
    StoreError,
>)
    requires
        records@.len() > 0,
    ensures
        (match r {
            Ok(c) => c.rows() == rows_of(models_of(records@)) && c.rows().len() == records@.len(),
            Err(e) => e == StoreError::Open || e == StoreError::Begin || e == StoreError::Insert
                || e == StoreError::Commit,
        }),
{
    let conn = match open_connection(path) {
        Ok(c) => c,
        Err(_) => return Err(StoreError::Open),
    };
    let mut tx = match StoreTx::begin(&conn) {
        Ok(t) => t,
        Err(e) => return Err(e),
    };
    let ghost all_rows = rows_of(models_of(records@));
    let mut k: usize = 0;
    proof {
        assert(tx.handed() =~= all_rows.take(0));
    }
    while k < records.len()
        invariant
            k <= records@.len(),
            all_rows == rows_of(models_of(records@)),
            tx.handed() == all_rows.take(k as int),
        decreases records@.len() - k,
    {
        match tx.insert(&records[k]) {
            Ok(_) => {
                proof {
                    assert(all_rows[k as int] == row_of(records@[k as int]@));
                    assert(all_rows.take(k as int).push(all_rows[k as int]) =~= all_rows.take(
                        k + 1,
                    ));
                }
            },
            Err(e) => {
                return Err(e);
            },
        }
        k = k + 1;
    }
    proof {
        assert(all_rows.take(records@.len() as int) =~= all_rows);
    }
    tx.commit(k)
}

} // verus!
