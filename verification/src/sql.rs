//! The trusted boundary to the storage engine.
//!
//! Each function here wraps exactly one SQL statement issued through
//! rusqlite.  The database's state is named by uninterpreted spec
//! functions — the rows of the files table, of the tags table and of the
//! association table, and whether the schema stands at the latest
//! version — and each wrapper's contract states, over those names, what
//! its statement does, as far as the engine's documentation shows it.
//! The names treat the database as owned by the connection value: one
//! connection, one logical thread of control, and keeping outside
//! writers away from the database file is the caller's responsibility.
//! A failed statement is backed out by the engine (its default conflict
//! handling) and a failed migration is rolled back with its transaction,
//! so the wrappers also state that an `Err` outcome leaves the state as
//! it was.  Nothing here promises that a statement succeeds: the engine
//! decides that, and every contract speaks only of what holds on each
//! outcome.

use vstd::prelude::*;
use vstd::multiset::Multiset;
use crate::File;
use crate::FileID;
use crate::FileRecord;
use crate::opt_seconds;

verus! {

#[verifier::external_type_specification]
#[verifier::external_body]
pub struct ExConnection(rusqlite::Connection);

#[verifier::external_type_specification]
#[verifier::external_body]
pub struct ExSqlError(rusqlite::Error);

#[verifier::external_type_specification]
#[verifier::external_body]
pub struct ExMigrationError(rusqlite_migration::Error);

#[verifier::external_type_specification]
#[verifier::external_body]
pub struct ExPathBuf(std::path::PathBuf);

/// The rows of the files table held by a connection's database: file
/// identifier to row record.  Empty when the table does not exist yet.
pub uninterp spec fn files_of(c: rusqlite::Connection) -> Map<int, FileRecord>;

/// The rows of the tags table held by a connection's database:
/// tag identifier to tag name.  Empty when the table does not exist yet.
pub uninterp spec fn tags_of(c: rusqlite::Connection) -> Map<int, Seq<char>>;

/// The rows of the association table held by a connection's database:
/// the multiset of (file identifier, tag identifier) pairs, one
/// occurrence per row.  Nothing stops the same pair from being recorded
/// twice, so a multiset it must be.  Empty when the table does not exist
/// yet.
pub uninterp spec fn links_of(c: rusqlite::Connection) -> Multiset<(int, int)>;

/// Whether the schema of a connection's database stands at the latest
/// version this crate knows, with every migration script applied.
pub uninterp spec fn schema_current_of(c: rusqlite::Connection) -> bool;

/// Whether a migration set made of the given script applies cleanly to a
/// fresh database: a function of the script alone.
pub uninterp spec fn valid_of(sql: Seq<char>) -> bool;

/// Relies on std's OsString::into_string, which succeeds exactly when the
/// path's platform encoding is valid Unicode.
#[verifier::external_body]
pub(crate) fn pathbuf_into_string(path: std::path::PathBuf) -> (r: Option<String>) {
    path.into_os_string().into_string().ok()
}

/// Relies on rusqlite's Connection::open: opens the database file at
/// `path`, creating it when absent.  What the opened database holds
/// depends on the disk, so nothing is stated of it.
#[verifier::external_body]
pub(crate) fn open_connection(path: &str) -> (r: Result<rusqlite::Connection, rusqlite::Error>) {
    rusqlite::Connection::open(path)
}

/// Relies on rusqlite's Connection::open_in_memory: a newly created
/// in-memory database, which holds no tables and so no rows.
#[verifier::external_body]
pub(crate) fn open_memory_connection() -> (r: Result<rusqlite::Connection, rusqlite::Error>)
    ensures
        r matches Ok(c) ==> {
            &&& files_of(c) == Map::<int, FileRecord>::empty()
            &&& tags_of(c) == Map::<int, Seq<char>>::empty()
            &&& links_of(c) == Multiset::<(int, int)>::empty()
        },
{
    rusqlite::Connection::open_in_memory()
}

/// Relies on rusqlite's Connection::pragma_update_and_check: sets the
/// journal mode, which governs how the engine logs writes and touches
/// neither a table row nor the schema version.
#[verifier::external_body]
pub(crate) fn set_wal_journal_mode(c: &mut rusqlite::Connection) -> (r: Result<(), rusqlite::Error>)
    ensures
        files_of(*final(c)) == files_of(*old(c)),
        tags_of(*final(c)) == tags_of(*old(c)),
        links_of(*final(c)) == links_of(*old(c)),
        schema_current_of(*final(c)) == schema_current_of(*old(c)),
{
    c.pragma_update_and_check(None, "journal_mode", &"WAL", |_| Ok(()))
}

/// Relies on rusqlite_migration's Migrations::to_latest: applies the
/// pending migration scripts in order inside a transaction, recording
/// progress in the database's schema version, so that on success the
/// schema stands at the latest version and on failure the transaction is
/// rolled back.  The row-preservation clauses hold for this crate's
/// schema script alone, which only creates tables and so adds, drops and
/// changes no row.
#[verifier::external_body]
pub(crate) fn apply_migration_script(c: &mut rusqlite::Connection, sql: &str) -> (r: Result<
    (),
    rusqlite_migration::Error,
>)
    requires
        sql@ == crate::spec_schema_sql(),
    ensures
        files_of(*final(c)) == files_of(*old(c)),
        tags_of(*final(c)) == tags_of(*old(c)),
        links_of(*final(c)) == links_of(*old(c)),
        r matches Ok(()) ==> schema_current_of(*final(c)),
        r is Err ==> schema_current_of(*final(c)) == schema_current_of(*old(c)),
{
    rusqlite_migration::Migrations::new(vec![rusqlite_migration::M::up(sql)]).to_latest(c)
}

/// Relies on rusqlite_migration's Migrations::validate: runs the given
/// migration script on a temporary in-memory database and reports whether
/// it applied cleanly — an outcome that depends on the script alone.
#[verifier::external_body]
pub(crate) fn validate_migration_script(sql: &str) -> (r: bool)
    ensures
        r == valid_of(sql@),
{
    rusqlite_migration::Migrations::new(vec![rusqlite_migration::M::up(sql)]).validate().is_ok()
}

/// Relies on rusqlite's Connection::execute, with an INSERT into the
/// files table, and last_insert_rowid, which reports the fresh rowid the
/// engine assigned to that row: a rowid distinct from every rowid in the
/// table before the insert.  Only the filename column is supplied: the
/// optional marks start NULL, and the required timestamps come from the
/// engine's clock, which the model leaves out.  A failed statement is
/// backed out.
#[verifier::external_body]
pub(crate) fn insert_file_row(c: &mut rusqlite::Connection, name: &str) -> (r: Result<
    i64,
    rusqlite::Error,
>)
    ensures
        tags_of(*final(c)) == tags_of(*old(c)),
        links_of(*final(c)) == links_of(*old(c)),
        schema_current_of(*final(c)) == schema_current_of(*old(c)),
        r matches Ok(id) ==> {
            &&& !files_of(*old(c)).dom().contains(id as int)
            &&& files_of(*final(c)) == files_of(*old(c)).insert(
                id as int,
                (FileRecord { name: name@, last_seen_at: None, orphaned_at: None }),
            )
        },
        r is Err ==> files_of(*final(c)) == files_of(*old(c)),
{
    c.execute("INSERT INTO files (filename) VALUES (?1)", [name])?;
    Ok(c.last_insert_rowid())
}

/// Relies on rusqlite's Connection::query_row, with an INSERT into the
/// tags table that returns the fresh rowid the engine assigned: a rowid
/// distinct from every rowid in the table before the insert.  A failed
/// statement is backed out.
#[verifier::external_body]
pub(crate) fn insert_tag_row(c: &mut rusqlite::Connection, name: &str) -> (r: Result<
    i64,
    rusqlite::Error,
>)
    ensures
        files_of(*final(c)) == files_of(*old(c)),
        links_of(*final(c)) == links_of(*old(c)),
        schema_current_of(*final(c)) == schema_current_of(*old(c)),
        r matches Ok(id) ==> {
            &&& !tags_of(*old(c)).dom().contains(id as int)
            &&& tags_of(*final(c)) == tags_of(*old(c)).insert(id as int, name@)
        },
        r is Err ==> tags_of(*final(c)) == tags_of(*old(c)),
{
    c.query_row("INSERT INTO tags (name) VALUES (?1) RETURNING id", [&name], |r| r.get(0))
}

/// Relies on rusqlite's Connection::execute, with an INSERT into the
/// association table: on success the table gains exactly one (file, tag)
/// row; a failed statement is backed out.
#[verifier::external_body]
pub(crate) fn insert_link_row(c: &mut rusqlite::Connection, file_id: i64, tag_id: i64) -> (r:
    Result<(), rusqlite::Error>)
    ensures
        files_of(*final(c)) == files_of(*old(c)),
        tags_of(*final(c)) == tags_of(*old(c)),
        schema_current_of(*final(c)) == schema_current_of(*old(c)),
        r matches Ok(()) ==> links_of(*final(c)) == links_of(*old(c)).insert(
            (file_id as int, tag_id as int),
        ),
        r is Err ==> links_of(*final(c)) == links_of(*old(c)),
{
    c.execute("INSERT INTO file_tags (file_id, tag_id) VALUES (?1, ?2)", [file_id, tag_id])?;
    Ok(())
}

/// Relies on rusqlite's Connection::query_row, with a SELECT of the
/// identifier of a row of the files table by filename: some matching
/// row's identifier when one exists, and the engine's QueryReturnedNoRows
/// error, mapped to None, when none does.
#[verifier::external_body]
pub(crate) fn query_file_id(c: &rusqlite::Connection, name: &str) -> (r: Result<
    Option<i64>,
    rusqlite::Error,
>)
    ensures
        r matches Ok(opt) ==> match opt {
            Some(id) => files_of(*c).dom().contains(id as int) && files_of(*c)[id as int].name
                == name@,
            None => forall|i: int|
                files_of(*c).dom().contains(i) ==> files_of(*c)[i].name != name@,
        },
{
    match c.query_row("SELECT id FROM files WHERE filename = ?1", [name], |r| r.get(0)) {
        Ok(id) => Ok(Some(id)),
        Err(rusqlite::Error::QueryReturnedNoRows) => Ok(None),
        Err(e) => Err(e),
    }
}

/// Relies on rusqlite's Connection::query_row, with a SELECT of the
/// identifier of a row of the tags table by name: some matching row's
/// identifier when one exists, and the engine's QueryReturnedNoRows
/// error, mapped to None, when none does.
#[verifier::external_body]
pub(crate) fn query_tag_id(c: &rusqlite::Connection, name: &str) -> (r: Result<
    Option<i64>,
    rusqlite::Error,
>)
    ensures
        r matches Ok(opt) ==> match opt {
            Some(id) => tags_of(*c).dom().contains(id as int) && tags_of(*c)[id as int] == name@,
            None => forall|i: int| tags_of(*c).dom().contains(i) ==> tags_of(*c)[i] != name@,
        },
{
    match c.query_row("SELECT id FROM tags WHERE name = ?1", [name], |r| r.get(0)) {
        Ok(id) => Ok(Some(id)),
        Err(rusqlite::Error::QueryReturnedNoRows) => Ok(None),
        Err(e) => Err(e),
    }
}

/// Relies on rusqlite's Statement::query_map, with a SELECT of the file
/// identifiers of the association rows carrying a given tag: one
/// identifier per matching row, so the result carries, as a multiset,
/// exactly the links of that tag.
#[verifier::external_body]
pub(crate) fn query_link_file_ids(c: &rusqlite::Connection, tag_id: i64) -> (r: Result<
    Vec<i64>,
    rusqlite::Error,
>)
    ensures
        r matches Ok(ids) ==> forall|f: int|
            #[trigger] crate::seq_int_view(ids@).to_multiset().count(f) == links_of(*c).count(
                (f, tag_id as int),
            ),
{
    let mut stmt = c.prepare("SELECT file_id FROM file_tags WHERE tag_id = ?1")?;
    let ids = stmt.query_map([tag_id], |r| r.get(0))?.collect::<Result<Vec<i64>, _>>()?;
    Ok(ids)
}

/// Relies on rusqlite's Connection::query_row, with a SELECT of a row of
/// the files table by identifier: the row when the identifier is present,
/// and the engine's QueryReturnedNoRows error, mapped to None, when it is
/// not.  The two required timestamp columns are read as they stand; the
/// model leaves them out, so nothing is stated of them.
#[verifier::external_body]
pub(crate) fn query_file_row(c: &rusqlite::Connection, id: i64) -> (r: Result<
    Option<File>,
    rusqlite::Error,
>)
    ensures
        r matches Ok(opt) ==> match opt {
            Some(f) => {
                &&& f.id@ == id as int
                &&& files_of(*c).dom().contains(id as int)
                &&& f.file_name@ == files_of(*c)[id as int].name
                &&& opt_seconds(f.last_seen_at) == files_of(*c)[id as int].last_seen_at
                &&& opt_seconds(f.orphaned_at) == files_of(*c)[id as int].orphaned_at
            },
            None => !files_of(*c).dom().contains(id as int),
        },
{
    let q =
        "SELECT id, filename, last_seen_at, orphaned_at, updated_at, created_at FROM files WHERE id = ?1";
    match c.query_row(q, [id], |r| Ok(File {
        id: FileID(r.get(0)?),
        file_name: r.get(1)?,
        last_seen_at: r.get(2)?,
        orphaned_at: r.get(3)?,
        updated_at: r.get(4)?,
        created_at: r.get(5)?,
    })) {
        Ok(f) => Ok(Some(f)),
        Err(rusqlite::Error::QueryReturnedNoRows) => Ok(None),
        Err(e) => Err(e),
    }
}

} // verus!
