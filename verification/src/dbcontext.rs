//! The cache of remote file metadata: one table, keyed by identifier.

use vstd::prelude::*;
use vstd::hash_map::StringHashMap;
use crate::record::{clone_rows, records, FileRecord, FileWrapper};
use crate::timestamp::Timestamp;

verus! {

/// Why the cache turned an operation down.
#[derive(Clone, Copy, Debug, PartialEq, Eq, Structural)]
pub enum CacheError {
    /// The table does not exist: `init` has not run.
    MissingTable,
}

/// Whether one of `rows` has the identifier `id`.
pub open spec fn holds(rows: Seq<FileRecord>, id: Seq<char>) -> bool {
    exists|i: int| 0 <= i < rows.len() && #[trigger] rows[i].id == id
}

/// The position of a row with the identifier `id`, where there is one.
pub open spec fn position_of(rows: Seq<FileRecord>, id: Seq<char>) -> int {
    choose|i: int| 0 <= i < rows.len() && #[trigger] rows[i].id == id
}

/// The row with the identifier `id`, where there is one.
pub open spec fn lookup(rows: Seq<FileRecord>, id: Seq<char>) -> Option<FileRecord> {
    if holds(rows, id) {
        Some(rows[position_of(rows, id)])
    } else {
        None
    }
}

/// No two rows share an identifier.
pub open spec fn unique_ids(rows: Seq<FileRecord>) -> bool {
    forall|i: int, j: int|
        0 <= i < rows.len() && 0 <= j < rows.len() && i != j ==> (#[trigger] rows[i]).id != (
        #[trigger] rows[j]).id
}

/// What storing a record does to the table.
#[derive(Clone, Copy, Debug, PartialEq, Eq, Structural)]
pub enum StoreAction {
    /// The record is added as a new row.
    Insert,
    /// The record replaces the row of its identifier, in all columns.
    Update,
    /// The table stays as it is.
    Nothing,
}

/// What is done with a record that comes in, given the row that the table
/// has under its identifier. A record whose identifier is new is added. One
/// whose identifier is known replaces the row, unless both have the same
/// `last_modified`: then nothing is done.
pub open spec fn action_on(existing: Option<FileRecord>, incoming: FileRecord) -> StoreAction {
    match existing {
        None => StoreAction::Insert,
        Some(row) => if row.last_modified == incoming.last_modified {
            StoreAction::Nothing
        } else {
            StoreAction::Update
        },
    }
}

/// The rows after `record` was stored.
pub open spec fn stored(rows: Seq<FileRecord>, record: FileRecord) -> Seq<FileRecord> {
    match action_on(lookup(rows, record.id), record) {
        StoreAction::Insert => rows.push(record),
        StoreAction::Update => rows.update(position_of(rows, record.id), record),
        StoreAction::Nothing => rows,
    }
}

/// The rows after the `last_accessed` of the row `id` was set to `at`: no
/// other column and no other row changes, and an unknown `id` changes nothing.
pub open spec fn touched(rows: Seq<FileRecord>, id: Seq<char>, at: Timestamp) -> Seq<FileRecord> {
    if holds(rows, id) {
        let row = position_of(rows, id);
        rows.update(row, FileRecord { last_accessed: at, ..rows[row] })
    } else {
        rows
    }
}

/// What a cache may hold: no table yet, or rows with distinct identifiers.
pub open spec fn valid_cache(state: Option<Seq<FileRecord>>) -> bool {
    state matches Some(rows) ==> unique_ids(rows)
}

/// The view of an optional record.
pub open spec fn optional_record(file: Option<FileWrapper>) -> Option<FileRecord> {
    match file {
        Some(file) => Some(file@),
        None => None,
    }
}

/// Among rows with distinct identifiers, a row's identifier leads to its
/// position.
pub proof fn lemma_position(rows: Seq<FileRecord>, at: int)
    requires
        unique_ids(rows),
        0 <= at < rows.len(),
    ensures
        holds(rows, rows[at].id),
        position_of(rows, rows[at].id) == at,
        lookup(rows, rows[at].id) == Some(rows[at]),
{
}

/// Storing a record keeps the identifiers distinct.
pub proof fn lemma_stored_unique(rows: Seq<FileRecord>, record: FileRecord)
    requires
        unique_ids(rows),
    ensures
        unique_ids(stored(rows, record)),
{
}

/// Setting a row's `last_accessed` keeps the identifiers distinct.
pub proof fn lemma_touched_unique(rows: Seq<FileRecord>, id: Seq<char>, at: Timestamp)
    requires
        unique_ids(rows),
    ensures
        unique_ids(touched(rows, id, at)),
{
}

/// After a row's `last_accessed` was set, the row has it, and is there
/// exactly where it was before.
pub proof fn touch_sets_last_accessed(rows: Seq<FileRecord>, id: Seq<char>, at: Timestamp)
    requires
        unique_ids(rows),
    ensures
        unique_ids(touched(rows, id, at)),
        lookup(touched(rows, id, at), id) == match lookup(rows, id) {
            Some(row) => Some(FileRecord { last_accessed: at, ..row }),
            None => None,
        },
{
    lemma_touched_unique(rows, id, at);
    if holds(rows, id) {
        lemma_position(touched(rows, id, at), position_of(rows, id));
    }
}

/// A record that was stored has a row, whether the record was taken in or
/// the row was there already.
pub proof fn stored_record_has_row(rows: Seq<FileRecord>, record: FileRecord)
    requires
        unique_ids(rows),
    ensures
        unique_ids(stored(rows, record)),
        lookup(stored(rows, record), record.id) is Some,
{
    lemma_stored_unique(rows, record);
    if !(lookup(rows, record.id) matches Some(row) && row.last_modified == record.last_modified) {
        stored_record_is_found(rows, record);
    }
}

/// Setting a row's `last_accessed` changes that column of that row and
/// nothing else.
pub proof fn touch_changes_one_column(
    rows: Seq<FileRecord>,
    id: Seq<char>,
    at: Timestamp,
    other: Seq<char>,
)
    requires
        unique_ids(rows),
        other != id,
    ensures
        touched(rows, id, at).len() == rows.len(),
        lookup(touched(rows, id, at), id) == match lookup(rows, id) {
            Some(row) => Some(FileRecord { last_accessed: at, ..row }),
            None => None,
        },
        lookup(touched(rows, id, at), other) == lookup(rows, other),
{
    let after = touched(rows, id, at);
    lemma_touched_unique(rows, id, at);
    if holds(rows, id) {
        lemma_position(after, position_of(rows, id));
    }
    if holds(rows, other) {
        lemma_position(after, position_of(rows, other));
    }
}

/// Storing a record twice is storing it once: the second call, with the
/// same `last_modified`, leaves every column of every row as it was, whatever
/// else the second record holds.
pub proof fn store_again_changes_nothing(rows: Seq<FileRecord>, first: FileRecord, second: FileRecord)
    requires
        unique_ids(rows),
        second.id == first.id,
        second.last_modified == first.last_modified,
    ensures
        stored(stored(rows, first), second) == stored(rows, first),
{
    let once = stored(rows, first);
    lemma_stored_unique(rows, first);
    if holds(rows, first.id) {
        let at = position_of(rows, first.id);
        if rows[at].last_modified != first.last_modified {
            lemma_position(once, at);
        }
    } else {
        let at = rows.len() as int;
        lemma_position(once, at);
    }
}

/// A known record that comes again with the `last_modified` that the cache
/// has is not stored: the cache, its `last_accessed` included, stays as it is.
pub proof fn store_unchanged_is_noop(rows: Seq<FileRecord>, record: FileRecord)
    requires
        lookup(rows, record.id) matches Some(row) && row.last_modified == record.last_modified,
    ensures
        stored(rows, record) == rows,
{
}

/// A record stored under a new identifier and then stored again with
/// another `last_modified` leaves exactly one row with that identifier, and
/// this row holds what the second call gave, in every column.
pub proof fn insert_then_update(rows: Seq<FileRecord>, first: FileRecord, second: FileRecord)
    requires
        unique_ids(rows),
        !holds(rows, first.id),
        second.id == first.id,
        second.last_modified != first.last_modified,
    ensures
        stored(stored(rows, first), second) == rows.push(second),
        lookup(stored(stored(rows, first), second), first.id) == Some(second),
        unique_ids(stored(stored(rows, first), second)),
{
    let once = stored(rows, first);
    let at = rows.len() as int;
    lemma_stored_unique(rows, first);
    lemma_position(once, at);
    let twice = stored(once, second);
    lemma_stored_unique(once, second);
    lemma_position(twice, at);
}

/// A record that the cache takes in is handed back as it was given, column
/// for column. The cache takes a record in when its identifier is new or its
/// `last_modified` differs from the cached one.
pub proof fn stored_record_is_found(rows: Seq<FileRecord>, record: FileRecord)
    requires
        unique_ids(rows),
        lookup(rows, record.id) matches Some(row) ==> row.last_modified != record.last_modified,
    ensures
        lookup(stored(rows, record), record.id) == Some(record),
{
    let after = stored(rows, record);
    lemma_stored_unique(rows, record);
    if holds(rows, record.id) {
        let at = position_of(rows, record.id);
        lemma_position(after, at);
    } else {
        let at = rows.len() as int;
        lemma_position(after, at);
    }
}

/// Storing a record leaves the rows of all other identifiers as they were.
pub proof fn store_keeps_other_rows(rows: Seq<FileRecord>, record: FileRecord, id: Seq<char>)
    requires
        unique_ids(rows),
        id != record.id,
    ensures
        lookup(stored(rows, record), id) == lookup(rows, id),
{
    let after = stored(rows, record);
    lemma_stored_unique(rows, record);
    if holds(rows, id) {
        lemma_position(after, position_of(rows, id));
    }
}

/// Decides what is done with a record that comes in, given the row that the
/// table has under its identifier.
pub fn store_action(existing: Option<&FileWrapper>, incoming: &FileWrapper) -> (action: StoreAction)
    ensures
        action == action_on(
            match existing {
                Some(row) => Some(row@),
                None => None,
            },
            incoming@,
        ),
{
    match existing {
        None => StoreAction::Insert,
        Some(row) => {
            if row.last_modified == incoming.last_modified {
                StoreAction::Nothing
            } else {
                StoreAction::Update
            }
        },
    }
}

/// The table: its rows, and where each identifier's row stands.
struct Table {
    rows: Vec<FileWrapper>,
    index: StringHashMap<usize>,
}

impl Table {
    /// The index knows every row, and nothing else.
    spec fn wf(self) -> bool {
        &&& forall|i: int|
            0 <= i < self.rows.len() ==> {
                &&& self.index@.contains_key(#[trigger] self.rows@[i].id@)
                &&& self.index@[self.rows@[i].id@] == i
            }
        &&& forall|id: Seq<char>| #[trigger]
            self.index@.contains_key(id) ==> {
                &&& self.index@[id] < self.rows.len()
                &&& self.rows@[self.index@[id] as int].id@ == id
            }
    }

    /// The rows, as mathematical values.
    spec fn records(self) -> Seq<FileRecord> {
        records(self.rows@)
    }

    /// An indexed table has distinct identifiers.
    proof fn lemma_unique(self)
        requires
            self.wf(),
        ensures
            unique_ids(self.records()),
    {
    }

    /// A table without rows.
    fn empty() -> (table: Table)
        ensures
            table.wf(),
            table.records() == Seq::<FileRecord>::empty(),
    {
        Table { rows: Vec::new(), index: StringHashMap::new() }
    }

    /// A table with copies of `rows`.
    fn of_rows(rows: &Vec<FileWrapper>) -> (table: Table)
        requires
            unique_ids(records(rows@)),
        ensures
            table.wf(),
            table.records() == records(rows@),
    {
        let copies = clone_rows(rows);
        let mut index: StringHashMap<usize> = StringHashMap::new();
        let mut i: usize = 0;
        while i < copies.len()
            invariant
                i <= copies.len(),
                records(copies@) == records(rows@),
                unique_ids(records(copies@)),
                forall|k: int|
                    0 <= k < i ==> {
                        &&& index@.contains_key(#[trigger] copies@[k].id@)
                        &&& index@[copies@[k].id@] == k
                    },
                forall|id: Seq<char>| #[trigger]
                    index@.contains_key(id) ==> {
                        &&& index@[id] < i
                        &&& copies@[index@[id] as int].id@ == id
                    },
            decreases copies.len() - i,
        {
            assert forall|k: int| 0 <= k < i implies copies@[k].id@ != copies@[i as int].id@ by {
                assert(records(copies@)[k].id != records(copies@)[i as int].id);
            }
            index.insert(copies[i].id.clone(), i);
            i += 1;
        }
        Table { rows: copies, index }
    }

    /// The position of the row `id`.
    fn find(&self, id: &str) -> (found: Option<usize>)
        requires
            self.wf(),
        ensures
            match found {
                Some(at) => holds(self.records(), id@) && at == position_of(self.records(), id@),
                None => !holds(self.records(), id@),
            },
    {
        proof {
            self.lemma_unique();
        }
        match self.index.get(id) {
            Some(at) => {
                let at: usize = *at;
                proof {
                    lemma_position(self.records(), at as int);
                }
                Some(at)
            },
            None => None,
        }
    }

    /// Takes a record in.
    fn store(&mut self, file: &FileWrapper)
        requires
            old(self).wf(),
        ensures
            final(self).wf(),
            final(self).records() == stored(old(self).records(), file@),
    {
        let found = self.find(file.id.as_str());
        let existing: Option<&FileWrapper> = match found {
            Some(at) => Some(&self.rows[at]),
            None => None,
        };
        match store_action(existing, file) {
            StoreAction::Nothing => {},
            StoreAction::Update => {
                let at: usize = found.unwrap();
                self.rows[at] = file.clone();
            },
            StoreAction::Insert => {
                let at: usize = self.rows.len();
                self.index.insert(file.id.clone(), at);
                self.rows.push(file.clone());
                assert forall|i: int| 0 <= i < self.rows.len() implies {
                    &&& self.index@.contains_key(#[trigger] self.rows@[i].id@)
                    &&& self.index@[self.rows@[i].id@] == i
                } by {
                    if i < at {
                        assert(old(self).records()[i].id != file@.id);
                    }
                }
            },
        }
    }

    /// Sets the `last_accessed` of the row `id`, if there is one.
    fn touch(&mut self, id: &str, at: Timestamp)
        requires
            old(self).wf(),
        ensures
            final(self).wf(),
            final(self).records() == touched(old(self).records(), id@, at),
    {
        match self.find(id) {
            Some(row) => {
                let mut file = self.rows[row].clone();
                file.last_accessed = at;
                self.rows[row] = file;
            },
            None => {},
        }
    }
}

/// The cache of remote file metadata.
///
/// It holds one table keyed by identifier, which `init` creates. The view is
/// `None` while there is no table, and the rows in the order in which their
/// identifiers first came.
pub struct DbContext {
    table: Option<Table>,
}

impl View for DbContext {
    type V = Option<Seq<FileRecord>>;

    closed spec fn view(&self) -> Option<Seq<FileRecord>> {
        match self.table {
            Some(table) => Some(table.records()),
            None => None,
        }
    }
}

impl DbContext {
    /// A table that exists is indexed.
    #[verifier::type_invariant]
    spec fn wf(self) -> bool {
        self.table matches Some(table) ==> table.wf()
    }

    /// A cache without table.
    pub fn new() -> (cache: DbContext)
        ensures
            cache@ is None,
    {
        DbContext { table: None }
    }

    /// Whether the table exists.
    pub fn has_table(&self) -> (exists: bool)
        ensures
            exists == (self@ is Some),
            valid_cache(self@),
    {
        proof {
            use_type_invariant(self);
            if self.table is Some {
                self.table->0.lemma_unique();
            }
        }
        self.table.is_some()
    }

    /// Creates the table unless it exists. Rows that are there stay.
    pub fn init(&mut self) -> (done: Result<(), CacheError>)
        ensures
            done is Ok,
            final(self)@ == Some(
                match old(self)@ {
                    Some(rows) => rows,
                    None => Seq::empty(),
                },
            ),
            valid_cache(final(self)@),
    {
        proof {
            use_type_invariant(&*self);
        }
        if self.table.is_none() {
            self.table = Some(Table::empty());
        }
        proof {
            self.table->0.lemma_unique();
        }
        Ok(())
    }

    /// Takes a record in: adds it where its identifier is new, replaces the
    /// cached row where `last_modified` differs, and changes nothing where
    /// it is the same. Fails, changing nothing, while there is no table.
    pub fn store_file(&mut self, file_wrapper: &FileWrapper) -> (done: Result<(), CacheError>)
        ensures
            match old(self)@ {
                Some(rows) => done is Ok && final(self)@ == Some(stored(rows, file_wrapper@)),
                None => done == Err::<(), CacheError>(CacheError::MissingTable) && final(self)@
                    is None,
            },
            valid_cache(final(self)@),
    {
        proof {
            use_type_invariant(&*self);
        }
        let mut table: Option<Table> = None;
        std::mem::swap(&mut table, &mut self.table);
        let done = match &mut table {
            Some(rows) => {
                rows.store(file_wrapper);
                proof {
                    rows.lemma_unique();
                }
                Ok(())
            },
            None => Err(CacheError::MissingTable),
        };
        self.table = table;
        done
    }

    /// The cached record with the identifier `id`, if there is one. Fails
    /// while there is no table.
    pub fn get_file(&self, id: &String) -> (found: Result<Option<FileWrapper>, CacheError>)
        ensures
            match self@ {
                Some(rows) => found matches Ok(file) && optional_record(file) == lookup(rows, id@),
                None => found == Err::<Option<FileWrapper>, CacheError>(CacheError::MissingTable),
            },
            valid_cache(self@),
    {
        proof {
            use_type_invariant(self);
        }
        match &self.table {
            Some(table) => {
                proof {
                    table.lemma_unique();
                }
                match table.find(id.as_str()) {
                    Some(at) => Ok(Some(table.rows[at].clone())),
                    None => Ok(None),
                }
            },
            None => Err(CacheError::MissingTable),
        }
    }

    /// All cached records. Fails while there is no table.
    pub fn get_all_files(&self) -> (all: Result<Vec<FileWrapper>, CacheError>)
        ensures
            match self@ {
                Some(rows) => all matches Ok(files) && records(files@) == rows,
                None => all == Err::<Vec<FileWrapper>, CacheError>(CacheError::MissingTable),
            },
            valid_cache(self@),
    {
        proof {
            use_type_invariant(self);
        }
        match &self.table {
            Some(table) => {
                proof {
                    table.lemma_unique();
                }
                Ok(clone_rows(&table.rows))
            },
            None => Err(CacheError::MissingTable),
        }
    }

    /// Sets the `last_accessed` of the record `id`, and nothing else. An
    /// unknown `id` changes nothing and is no failure. Fails while there is
    /// no table.
    pub fn update_last_accessed(&mut self, id: &String, last_accessed: &Timestamp) -> (done: Result<
        (),
        CacheError,
    >)
        ensures
            match old(self)@ {
                Some(rows) => done is Ok && final(self)@ == Some(
                    touched(rows, id@, *last_accessed),
                ),
                None => done == Err::<(), CacheError>(CacheError::MissingTable) && final(self)@
                    is None,
            },
            valid_cache(final(self)@),
    {
        proof {
            use_type_invariant(&*self);
        }
        let mut table: Option<Table> = None;
        std::mem::swap(&mut table, &mut self.table);
        let done = match &mut table {
            Some(rows) => {
                rows.touch(id.as_str(), *last_accessed);
                proof {
                    rows.lemma_unique();
                }
                Ok(())
            },
            None => Err(CacheError::MissingTable),
        };
        self.table = table;
        done
    }

    /// Runs `body` on the cache, all or nothing: where `body` fails, the
    /// cache is put back as it was before, whatever `body` had stored, and
    /// the failure is handed on; where it succeeds, what it did stays. The
    /// result is what `body` gave when it was run on the cache as it was.
    pub fn transaction<F, E>(&mut self, body: F) -> (done: Result<(), E>) where
        F: FnOnce(&mut DbContext) -> Result<(), E>,

        requires
            forall|cache: &mut DbContext|
                *cache == *old(self) ==> #[trigger] call_requires(body, (cache,)),
        ensures
            done is Err ==> final(self)@ == old(self)@,
            exists|cache: &mut DbContext| #[trigger]
                call_ensures(body, (cache,), done) && *cache == *old(self) && (done is Ok
                    ==> *final(cache) == *final(self)),
            valid_cache(final(self)@),
    {
        proof {
            use_type_invariant(&*self);
        }
        let saved: Option<Table> = match &self.table {
            Some(table) => {
                proof {
                    table.lemma_unique();
                }
                Some(Table::of_rows(&table.rows))
            },
            None => None,
        };
        let done = body(self);
        if done.is_err() {
            self.table = saved;
        }
        proof {
            use_type_invariant(&*self);
            if self.table is Some {
                self.table->0.lemma_unique();
            }
        }
        done
    }
}

} // verus!
