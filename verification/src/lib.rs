//! A personal file-tagging index backed by an embedded SQLite database.
//!
//! The store keeps three tables: tracked files, user-defined tags, and the
//! many-to-many association between them.  Every operation is a single
//! parameterized SQL statement issued through one live connection.  The
//! contracts describe each operation's effect on a mathematical model of
//! the database: a map from file identifiers to row records, a map from
//! tag identifiers to tag names, a multiset of (file, tag) association
//! pairs — one occurrence per association row — and a flag saying whether
//! the schema stands at the latest version.

use vstd::prelude::*;
use vstd::multiset::Multiset;

mod sql;
mod laws;

pub use laws::file_map_has_name;
pub use laws::lemma_create_then_get_file;
pub use laws::lemma_create_then_get_tag;
pub use laws::lemma_files_for_tag_exact;
pub use laws::map_has_name;

verus! {

broadcast use vstd::seq_lib::group_to_multiset_ensures;

/// The single schema migration script, as the model of what `schema_sql`
/// returns.  It only creates tables: applying it never adds, drops or
/// changes a row.
pub open spec fn spec_schema_sql() -> Seq<char> {
    "CREATE TABLE files (id INTEGER PRIMARY KEY, filename TEXT NOT NULL, last_seen_at INTEGER, orphaned_at INTEGER, updated_at INTEGER NOT NULL DEFAULT (strftime('%s','now')), created_at INTEGER NOT NULL DEFAULT (strftime('%s','now'))); CREATE TABLE tags (id INTEGER PRIMARY KEY, name TEXT NOT NULL); CREATE TABLE file_tags (file_id INTEGER NOT NULL, tag_id INTEGER NOT NULL);"@
}

/// The single schema migration script: the ordered migration set of this
/// store has exactly one step, which creates the three tables.
pub fn schema_sql() -> (r: &'static str)
    ensures
        r@ == spec_schema_sql(),
{
    "CREATE TABLE files (id INTEGER PRIMARY KEY, filename TEXT NOT NULL, last_seen_at INTEGER, orphaned_at INTEGER, updated_at INTEGER NOT NULL DEFAULT (strftime('%s','now')), created_at INTEGER NOT NULL DEFAULT (strftime('%s','now'))); CREATE TABLE tags (id INTEGER PRIMARY KEY, name TEXT NOT NULL); CREATE TABLE file_tags (file_id INTEGER NOT NULL, tag_id INTEGER NOT NULL);"
}

/// Whether this crate's migration set applies cleanly to an empty
/// database.
pub closed spec fn spec_migrations_valid() -> bool {
    sql::valid_of(spec_schema_sql())
}

/// Whether this crate's migration set applies cleanly to an empty
/// database.
pub fn migrations_valid() -> (r: bool)
    ensures
        r == spec_migrations_valid(),
{
    sql::validate_migration_script(schema_sql())
}

/// Turns a filesystem path into the string form the store indexes files
/// by: the path's text when its platform encoding is valid Unicode, and
/// `None` when it is not.  Nothing further can be stated of the result,
/// which depends on the platform's path encoding.
pub fn path_to_string(path: std::path::PathBuf) -> (r: Option<String>) {
    sql::pathbuf_into_string(path)
}

/// Identifier of a tracked file: an opaque integer surrogate key.
#[derive(Clone, Copy, PartialEq, Eq, Structural, Debug)]
pub struct FileID(i64);

/// Identifier of a tag: an opaque integer surrogate key.
#[derive(Clone, Copy, PartialEq, Eq, Structural, Debug)]
pub struct TagID(i64);

impl View for FileID {
    type V = int;

    closed spec fn view(&self) -> int {
        self.0 as int
    }
}

impl View for TagID {
    type V = int;

    closed spec fn view(&self) -> int {
        self.0 as int
    }
}

/// The model of one files-table row: the filename and the two optional
/// bookkeeping marks.  The two required timestamps (created, updated) are
/// set from the engine's clock when the row is inserted, so the model
/// leaves them out.
pub struct FileRecord {
    pub name: Seq<char>,
    pub last_seen_at: Option<int>,
    pub orphaned_at: Option<int>,
}

/// The model of an optional timestamp column value.
pub open spec fn opt_seconds(o: Option<i64>) -> Option<int> {
    match o {
        Some(v) => Some(v as int),
        None => None,
    }
}

/// The identifiers of a sequence of file rows, in order.
pub open spec fn ids_of(v: Seq<File>) -> Seq<int> {
    v.map_values(|f: File| f.id@)
}

/// A sequence of raw row identifiers, as mathematical integers.
pub open spec fn seq_int_view(s: Seq<i64>) -> Seq<int> {
    s.map_values(|x: i64| x as int)
}

/// A tracked file row: its identifier, filename, and bookkeeping timestamps.
/// Timestamps are unix seconds; the optional ones are unset until the
/// corresponding event (file seen, file found missing) is recorded.
#[derive(Debug)]
pub struct File {
    pub id: FileID,
    pub file_name: String,
    pub last_seen_at: Option<i64>,
    pub orphaned_at: Option<i64>,
    pub updated_at: i64,
    pub created_at: i64,
}

/// The single error taxonomy of the store: schema preparation failures are
/// `DirectoryError`, every other storage-engine failure is `DatabaseError`.
/// "Not found" is never an error; lookups model it as `None`.
#[derive(Clone, Copy, PartialEq, Eq, Structural, Debug)]
pub enum TaggerError {
    DirectoryError,
    DatabaseError,
}

/// The repository: one live connection to the database, exposing
/// create/lookup operations for files and tags and their association.
pub struct App {
    connection: rusqlite::Connection,
}

impl App {
    /// The model of the files table: identifier to row record.
    pub closed spec fn files(self) -> Map<int, FileRecord> {
        sql::files_of(self.connection)
    }

    /// The model of the tags table: identifier to tag name.
    pub closed spec fn tags(self) -> Map<int, Seq<char>> {
        sql::tags_of(self.connection)
    }

    /// The model of the association table: the multiset of (file, tag)
    /// pairs, one occurrence per row.
    pub closed spec fn links(self) -> Multiset<(int, int)> {
        sql::links_of(self.connection)
    }

    /// Whether the store's schema stands at the latest version, every
    /// migration applied.
    pub closed spec fn migrated(self) -> bool {
        sql::schema_current_of(self.connection)
    }

    /// Opens (creating it when absent) the database file at `path`, turns
    /// on write-ahead logging, and applies the pending schema migrations,
    /// all-or-nothing, before returning the ready repository.  What the
    /// opened store holds depends on the disk, so nothing is stated of
    /// the returned model's contents; a migration failure is
    /// `DirectoryError`, any other engine failure `DatabaseError`.
    pub fn init(path: &str) -> (r: Result<App, TaggerError>)
        ensures
            r matches Ok(app) ==> app.migrated(),
    {
        let mut connection = match sql::open_connection(path) {
            Ok(c) => c,
            Err(_) => {
                return Err(TaggerError::DatabaseError);
            },
        };
        match sql::set_wal_journal_mode(&mut connection) {
            Ok(()) => (),
            Err(_) => {
                return Err(TaggerError::DatabaseError);
            },
        }
        match sql::apply_migration_script(&mut connection, schema_sql()) {
            Ok(()) => (),
            Err(_) => {
                return Err(TaggerError::DirectoryError);
            },
        }
        Ok(App { connection })
    }

    /// Opens a fresh in-memory store and applies the schema migrations to
    /// it: a ready, fully migrated repository that holds no files, no
    /// tags and no associations.
    pub fn init_in_memory() -> (r: Result<App, TaggerError>)
        ensures
            r matches Ok(app) ==> {
                &&& app.files() == Map::<int, FileRecord>::empty()
                &&& app.tags() == Map::<int, Seq<char>>::empty()
                &&& app.links() == Multiset::<(int, int)>::empty()
                &&& app.migrated()
            },
    {
        let mut connection = match sql::open_memory_connection() {
            Ok(c) => c,
            Err(_) => {
                return Err(TaggerError::DatabaseError);
            },
        };
        match sql::apply_migration_script(&mut connection, schema_sql()) {
            Ok(()) => (),
            Err(_) => {
                return Err(TaggerError::DirectoryError);
            },
        }
        Ok(App { connection })
    }

    /// Reapplies the migration set to the live store.  Migrations already
    /// applied are skipped and a failed run is rolled back, so the
    /// store's contents are exactly what they were either way; on success
    /// the schema stands at the latest version.
    pub fn apply_migrations(&mut self) -> (r: Result<(), TaggerError>)
        ensures
            final(self).files() == old(self).files(),
            final(self).tags() == old(self).tags(),
            final(self).links() == old(self).links(),
            r matches Ok(()) ==> final(self).migrated(),
            r is Err ==> final(self).migrated() == old(self).migrated() && r == Err::<
                (),
                TaggerError,
            >(TaggerError::DirectoryError),
    {
        match sql::apply_migration_script(&mut self.connection, schema_sql()) {
            Ok(()) => Ok(()),
            Err(_) => Err(TaggerError::DirectoryError),
        }
    }

    /// Inserts a new file row under a fresh identifier and returns it.
    /// The new row carries the given filename and neither optional mark;
    /// nothing else changes, and a failed insert changes nothing at all.
    /// Duplicate filenames are not rejected: calling twice with the same
    /// name creates two rows.
    pub fn create_file(&mut self, filename: &str) -> (r: Result<FileID, TaggerError>)
        ensures
            final(self).tags() == old(self).tags(),
            final(self).links() == old(self).links(),
            final(self).migrated() == old(self).migrated(),
            r matches Ok(fid) ==> {
                &&& !old(self).files().dom().contains(fid@)
                &&& final(self).files() == old(self).files().insert(
                    fid@,
                    (FileRecord { name: filename@, last_seen_at: None, orphaned_at: None }),
                )
            },
            r is Err ==> final(self).files() == old(self).files() && r == Err::<
                FileID,
                TaggerError,
            >(TaggerError::DatabaseError),
    {
        match sql::insert_file_row(&mut self.connection, filename) {
            Ok(id) => Ok(FileID(id)),
            Err(_) => Err(TaggerError::DatabaseError),
        }
    }

    /// Looks a file up by filename: the identifier of a row carrying the
    /// name when one exists, `None` when none does.  Not-found is a normal
    /// result, never an error.
    pub fn get_file(&mut self, filename: &str) -> (r: Result<Option<FileID>, TaggerError>)
        ensures
            *final(self) == *old(self),
            r matches Ok(opt) ==> match opt {
                Some(fid) => old(self).files().dom().contains(fid@) && old(self).files()[fid@].name
                    == filename@,
                None => !file_map_has_name(old(self).files(), filename@),
            },
            r is Err ==> r == Err::<Option<FileID>, TaggerError>(TaggerError::DatabaseError),
    {
        match sql::query_file_id(&self.connection, filename) {
            Ok(Some(id)) => Ok(Some(FileID(id))),
            Ok(None) => Ok(None),
            Err(_) => Err(TaggerError::DatabaseError),
        }
    }

    /// Inserts a new tag row under a fresh identifier and returns it.
    /// Nothing else changes, and a failed insert changes nothing at all.
    /// Duplicate names are not rejected: calling twice with the same name
    /// creates two rows.
    pub fn create_tag(&mut self, tag_name: &str) -> (r: Result<TagID, TaggerError>)
        ensures
            final(self).files() == old(self).files(),
            final(self).links() == old(self).links(),
            final(self).migrated() == old(self).migrated(),
            r matches Ok(tid) ==> {
                &&& !old(self).tags().dom().contains(tid@)
                &&& final(self).tags() == old(self).tags().insert(tid@, tag_name@)
            },
            r is Err ==> final(self).tags() == old(self).tags() && r == Err::<
                TagID,
                TaggerError,
            >(TaggerError::DatabaseError),
    {
        match sql::insert_tag_row(&mut self.connection, tag_name) {
            Ok(id) => Ok(TagID(id)),
            Err(_) => Err(TaggerError::DatabaseError),
        }
    }

    /// Looks a tag up by name: the identifier of a row carrying the name
    /// when one exists, `None` when none does.  Not-found is a normal
    /// result, never an error.
    pub fn get_tag(&mut self, tag_name: &str) -> (r: Result<Option<TagID>, TaggerError>)
        ensures
            *final(self) == *old(self),
            r matches Ok(opt) ==> match opt {
                Some(tid) => old(self).tags().dom().contains(tid@) && old(self).tags()[tid@]
                    == tag_name@,
                None => !map_has_name(old(self).tags(), tag_name@),
            },
            r is Err ==> r == Err::<Option<TagID>, TaggerError>(TaggerError::DatabaseError),
    {
        match sql::query_tag_id(&self.connection, tag_name) {
            Ok(Some(id)) => Ok(Some(TagID(id))),
            Ok(None) => Ok(None),
            Err(_) => Err(TaggerError::DatabaseError),
        }
    }

    /// Records that `tag` applies to `file`: on success the association
    /// multiset gains exactly one (file, tag) occurrence and nothing else
    /// changes; a failed insert changes nothing at all.  Nothing checks
    /// that the two identifiers are live, and the same pair may be
    /// recorded more than once.
    pub fn tag_file(&mut self, tag: TagID, file: FileID) -> (r: Result<(), TaggerError>)
        ensures
            final(self).files() == old(self).files(),
            final(self).tags() == old(self).tags(),
            final(self).migrated() == old(self).migrated(),
            r matches Ok(()) ==> final(self).links() == old(self).links().insert((file@, tag@)),
            r is Err ==> final(self).links() == old(self).links() && r == Err::<
                (),
                TaggerError,
            >(TaggerError::DatabaseError),
    {
        match sql::insert_link_row(&mut self.connection, file.0, tag.0) {
            Ok(()) => Ok(()),
            Err(_) => Err(TaggerError::DatabaseError),
        }
    }

    /// Returns the file rows associated with `tag`, in storage-engine
    /// order: one row per association occurrence whose file is live, so
    /// the returned identifiers, as a multiset, equal the tag's links
    /// restricted to live files.  Each returned row carries its stored
    /// filename and optional marks.
    pub fn get_files_for_tag(&mut self, tag: TagID) -> (r: Result<Vec<File>, TaggerError>)
        ensures
            *final(self) == *old(self),
            r matches Ok(v) ==> {
                &&& forall|i: int|
                    0 <= i < v@.len() ==> {
                        &&& old(self).files().dom().contains((#[trigger] v@[i]).id@)
                        &&& v@[i].file_name@ == old(self).files()[v@[i].id@].name
                        &&& opt_seconds(v@[i].last_seen_at) == old(self).files()[v@[
                            i].id@].last_seen_at
                        &&& opt_seconds(v@[i].orphaned_at) == old(self).files()[v@[
                            i].id@].orphaned_at
                    }
                &&& forall|f: int|
                    #[trigger] ids_of(v@).to_multiset().count(f) == (if old(
                        self,
                    ).files().dom().contains(f) {
                        old(self).links().count((f, tag@))
                    } else {
                        0
                    })
            },
            r is Err ==> r == Err::<Vec<File>, TaggerError>(TaggerError::DatabaseError),
    {
        let ids = match sql::query_link_file_ids(&self.connection, tag.0) {
            Ok(ids) => ids,
            Err(_) => {
                return Err(TaggerError::DatabaseError);
            },
        };
        let ghost gids = seq_int_view(ids@);
        let mut out: Vec<File> = Vec::new();
        let mut k: usize = 0;
        proof {
            assert(ids_of(out@) =~= Seq::<int>::empty());
            assert(gids.subrange(0, 0) =~= Seq::<int>::empty());
        }
        while k < ids.len()
            invariant
                k <= ids@.len(),
                gids == seq_int_view(ids@),
                forall|f: int|
                    #[trigger] gids.to_multiset().count(f) == self.links().count((f, tag@)),
                forall|i: int|
                    0 <= i < out@.len() ==> {
                        &&& self.files().dom().contains((#[trigger] out@[i]).id@)
                        &&& out@[i].file_name@ == self.files()[out@[i].id@].name
                        &&& opt_seconds(out@[i].last_seen_at) == self.files()[out@[
                            i].id@].last_seen_at
                        &&& opt_seconds(out@[i].orphaned_at) == self.files()[out@[
                            i].id@].orphaned_at
                    },
                forall|f: int|
                    #[trigger] ids_of(out@).to_multiset().count(f) == (if self.files().dom().contains(
                        f,
                    ) {
                        gids.subrange(0, k as int).to_multiset().count(f)
                    } else {
                        0
                    }),
            decreases ids@.len() - k,
        {
            proof {
                assert(gids.subrange(0, k as int + 1) =~= gids.subrange(0, k as int).push(
                    gids[k as int],
                ));
                assert(gids.subrange(0, k as int + 1).to_multiset() == gids.subrange(
                    0,
                    k as int,
                ).push(gids[k as int]).to_multiset());
                assert(gids[k as int] == ids@[k as int] as int);
            }
            let ghost out_prev = out@;
            match sql::query_file_row(&self.connection, ids[k]) {
                Ok(Some(f)) => {
                    out.push(f);
                    proof {
                        assert(ids_of(out@) =~= ids_of(out_prev).push(f.id@));
                        assert(ids_of(out@).to_multiset() == ids_of(out_prev).push(
                            f.id@,
                        ).to_multiset());
                    }
                },
                Ok(None) => (),
                Err(_) => {
                    return Err(TaggerError::DatabaseError);
                },
            }
            k = k + 1;
        }
        proof {
            assert(gids.subrange(0, ids@.len() as int) =~= gids);
        }
        Ok(out)
    }
}

} // verus!
