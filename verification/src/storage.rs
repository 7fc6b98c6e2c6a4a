//! The form in which the cache's rows are kept on durable storage: one
//! table, `file`, keyed by `id`, with the times written as RFC 3339 text.

use vstd::prelude::*;
use crate::record::{clone_optional, optional_text, FileRecord, FileWrapper};
use crate::timestamp::Timestamp;

verus! {

/// Creates the table unless it exists.
pub const CREATE_TABLE: &'static str =
    "CREATE TABLE IF NOT EXISTS file (\n                id TEXT PRIMARY KEY,\n                name TEXT NOT NULL,\n                mime_type TEXT NOT NULL,\n                path TEXT NOT NULL,\n                directory INTEGER NOT NULL,\n                web_view_link TEXT,\n                owned_by_me INTEGER NOT NULL,\n                last_modified TEXT NOT NULL,\n                last_accessed TEXT NOT NULL,\n                trashed INTEGER NOT NULL\n            )";

/// Adds a row.
pub const INSERT_ROW: &'static str =
    "INSERT INTO file (id, name, mime_type, path, directory, web_view_link, owned_by_me, last_modified, last_accessed, trashed) VALUES (:id, :name, :mime_type, :path, :directory, :web_view_link, :owned_by_me, :last_modified, :last_accessed, :trashed)";

/// Replaces every column of the row `:id`.
pub const UPDATE_ROW: &'static str =
    "UPDATE file SET name = :name, mime_type = :mime_type, path = :path, directory = :directory, web_view_link = :web_view_link, owned_by_me = :owned_by_me, last_modified = :last_modified, last_accessed = :last_accessed, trashed = :trashed WHERE id = :id";

/// Reads the row `:id`.
pub const SELECT_ROW: &'static str = "SELECT * FROM file where id = :id LIMIT 1";

/// Reads all rows.
pub const SELECT_ALL: &'static str = "SELECT * FROM file";

/// Sets the `last_accessed` of the row `:id`.
pub const UPDATE_LAST_ACCESSED: &'static str =
    "UPDATE file SET last_accessed = :last_accessed WHERE id = :id";

/// Removes all rows.
pub const DELETE_ALL: &'static str = "DELETE FROM file";

/// One row of the table, column by column.
#[derive(Debug, PartialEq, Eq)]
pub struct Row {
    pub id: String,
    pub name: String,
    pub mime_type: String,
    pub path: String,
    pub directory: bool,
    pub web_view_link: Option<String>,
    pub owned_by_me: bool,
    /// RFC 3339 text.
    pub last_modified: String,
    /// RFC 3339 text.
    pub last_accessed: String,
    pub trashed: bool,
}

/// What a `Row` holds, as mathematical values.
pub struct RowRecord {
    pub id: Seq<char>,
    pub name: Seq<char>,
    pub mime_type: Seq<char>,
    pub path: Seq<char>,
    pub directory: bool,
    pub web_view_link: Option<Seq<char>>,
    pub owned_by_me: bool,
    pub last_modified: Seq<char>,
    pub last_accessed: Seq<char>,
    pub trashed: bool,
}

impl View for Row {
    type V = RowRecord;

    open spec fn view(&self) -> RowRecord {
        RowRecord {
            id: self.id@,
            name: self.name@,
            mime_type: self.mime_type@,
            path: self.path@,
            directory: self.directory,
            web_view_link: optional_text(self.web_view_link),
            owned_by_me: self.owned_by_me,
            last_modified: self.last_modified@,
            last_accessed: self.last_accessed@,
            trashed: self.trashed,
        }
    }
}

/// What `chrono::DateTime::to_rfc3339` writes for the UTC time that
/// `chrono::DateTime::from_timestamp` makes of `secs` and `nanos`; `None`
/// where it makes none.
pub uninterp spec fn rfc3339_text(secs: i64, nanos: u32) -> Option<Seq<char>>;

/// The seconds since the epoch (`DateTime::timestamp`) and the nanoseconds
/// past them (`DateTime::timestamp_subsec_nanos`) of the time that
/// `chrono::DateTime::parse_from_rfc3339` reads from `text`; `None` where it
/// reads none.
pub uninterp spec fn rfc3339_instant(text: Seq<char>) -> Option<(i64, u32)>;

/// Makes a UTC time with `chrono::DateTime::from_timestamp` and writes it
/// with `chrono::DateTime::to_rfc3339`.
#[verifier::external_body]
fn format_rfc3339(secs: i64, nanos: u32) -> (text: Option<String>)
    ensures
        optional_text(text) == rfc3339_text(secs, nanos),
{
    chrono::DateTime::from_timestamp(secs, nanos).map(|instant| instant.to_rfc3339())
}

/// Reads a time with `chrono::DateTime::parse_from_rfc3339` and hands back
/// its `timestamp` and `timestamp_subsec_nanos`.
#[verifier::external_body]
fn parse_rfc3339(text: &str) -> (instant: Option<(i64, u32)>)
    ensures
        instant == rfc3339_instant(text@),
{
    match chrono::DateTime::parse_from_rfc3339(text) {
        Ok(instant) => Some((instant.timestamp(), instant.timestamp_subsec_nanos())),
        Err(_) => None,
    }
}

/// The row of a record whose times are written as given.
pub open spec fn row_with(file: FileRecord, last_modified: Seq<char>, last_accessed: Seq<char>) -> RowRecord {
    RowRecord {
        id: file.id,
        name: file.name,
        mime_type: file.mime_type,
        path: file.path,
        directory: file.directory,
        web_view_link: file.web_view_link,
        owned_by_me: file.owned_by_me,
        last_modified,
        last_accessed,
        trashed: file.trashed,
    }
}

/// The record of a row whose times were read as given.
pub open spec fn record_with(row: RowRecord, last_modified: Timestamp, last_accessed: Timestamp) -> FileRecord {
    FileRecord {
        id: row.id,
        name: row.name,
        mime_type: row.mime_type,
        path: row.path,
        directory: row.directory,
        web_view_link: row.web_view_link,
        owned_by_me: row.owned_by_me,
        last_modified,
        last_accessed,
        trashed: row.trashed,
    }
}

/// The text that stands for a time on storage: what is written for it,
/// where that reads back as the same time. A time whose text would not read
/// back has no text.
pub open spec fn written(time: Timestamp) -> Option<Seq<char>> {
    match rfc3339_text(time.secs, time.nanos) {
        Some(text) => if time_of(text) == Some(time) {
            Some(text)
        } else {
            None
        },
        None => None,
    }
}

/// The row of a record, where both its times have a text.
pub open spec fn row_of(file: FileRecord) -> Option<RowRecord> {
    match (written(file.last_modified), written(file.last_accessed)) {
        (Some(last_modified), Some(last_accessed)) => Some(
            row_with(file, last_modified, last_accessed),
        ),
        _ => None,
    }
}

/// The record of a row, where both its times can be read.
pub open spec fn record_of(row: RowRecord) -> Option<FileRecord> {
    match (time_of(row.last_modified), time_of(row.last_accessed)) {
        (Some(last_modified), Some(last_accessed)) => Some(
            record_with(row, last_modified, last_accessed),
        ),
        _ => None,
    }
}

/// The time that a text stands for, where it stands for one.
pub open spec fn time_of(text: Seq<char>) -> Option<Timestamp> {
    match rfc3339_instant(text) {
        Some(instant) => Some(Timestamp { secs: instant.0, nanos: instant.1 }),
        None => None,
    }
}

/// A time that was written is read back as it was, to the nanosecond.
pub proof fn time_comes_back(time: Timestamp)
    ensures
        written(time) matches Some(text) ==> time_of(text) == Some(time),
{
}

/// A record that was written to a row is read back from it as it was,
/// column for column.
pub proof fn record_comes_back(file: FileRecord)
    ensures
        row_of(file) matches Some(row) ==> record_of(row) == Some(file),
{
}

/// The view of an optional row.
pub open spec fn optional_row(row: Option<Row>) -> Option<RowRecord> {
    match row {
        Some(row) => Some(row@),
        None => None,
    }
}

/// Makes the row of a record whose times are written as given.
pub fn to_row_with(file_wrapper: &FileWrapper, last_modified: String, last_accessed: String) -> (row:
    Row)
    ensures
        row@ == row_with(file_wrapper@, last_modified@, last_accessed@),
{
    Row {
        id: file_wrapper.id.clone(),
        name: file_wrapper.name.clone(),
        mime_type: file_wrapper.mime_type.clone(),
        path: file_wrapper.path.clone(),
        directory: file_wrapper.directory,
        web_view_link: clone_optional(&file_wrapper.web_view_link),
        owned_by_me: file_wrapper.owned_by_me,
        last_modified,
        last_accessed,
        trashed: file_wrapper.trashed,
    }
}

/// Makes the record of a row whose times were read as given.
pub fn convert_to_file_wrapper(row: &Row, last_modified: Timestamp, last_accessed: Timestamp) -> (file_wrapper:
    FileWrapper)
    ensures
        file_wrapper@ == record_with(row@, last_modified, last_accessed),
{
    FileWrapper {
        id: row.id.clone(),
        name: row.name.clone(),
        mime_type: row.mime_type.clone(),
        path: row.path.clone(),
        directory: row.directory,
        web_view_link: clone_optional(&row.web_view_link),
        owned_by_me: row.owned_by_me,
        last_modified,
        last_accessed,
        trashed: row.trashed,
    }
}

/// Writes a time as RFC 3339 text, in UTC, and reads the text back: there
/// is no text for a time that cannot be written, nor for one that would not
/// be read back as it is.
pub fn write_time(time: &Timestamp) -> (text: Option<String>)
    ensures
        optional_text(text) == written(*time),
{
    let text = match format_rfc3339(time.secs, time.nanos) {
        Some(text) => text,
        None => {
            return None;
        },
    };
    match read_time(text.as_str()) {
        Some(read) => {
            if read == *time {
                Some(text)
            } else {
                None
            }
        },
        None => None,
    }
}

/// Reads a time from RFC 3339 text. There is none where the text is no
/// such time.
pub fn read_time(text: &str) -> (time: Option<Timestamp>)
    ensures
        time == time_of(text@),
{
    match parse_rfc3339(text) {
        Some(instant) => Some(Timestamp::new(instant.0, instant.1)),
        None => None,
    }
}

/// Makes the row of a record. There is none where one of its times has no
/// text; a row that is made reads back as the record, by `from_row`.
pub fn to_row(file_wrapper: &FileWrapper) -> (row: Option<Row>)
    ensures
        optional_row(row) == row_of(file_wrapper@),
        row matches Some(made) ==> record_of(made@) == Some(file_wrapper@),
{
    let last_modified = match write_time(&file_wrapper.last_modified) {
        Some(text) => text,
        None => {
            return None;
        },
    };
    let last_accessed = match write_time(&file_wrapper.last_accessed) {
        Some(text) => text,
        None => {
            return None;
        },
    };
    Some(to_row_with(file_wrapper, last_modified, last_accessed))
}

/// Makes the record of a row. There is none where one of its times is no
/// RFC 3339 text.
pub fn from_row(row: &Row) -> (file_wrapper: Option<FileWrapper>)
    ensures
        match file_wrapper {
            Some(file_wrapper) => record_of(row@) == Some(file_wrapper@),
            None => record_of(row@) is None,
        },
{
    let last_modified = match read_time(row.last_modified.as_str()) {
        Some(time) => time,
        None => {
            return None;
        },
    };
    let last_accessed = match read_time(row.last_accessed.as_str()) {
        Some(time) => time,
        None => {
            return None;
        },
    };
    Some(convert_to_file_wrapper(row, last_modified, last_accessed))
}

} // verus!
