//! The unit of cache state: the metadata kept for one remote file or folder.

use vstd::prelude::*;
use crate::timestamp::Timestamp;

verus! {

/// The MIME type by which the remote store marks a folder.
pub const DIRECTORY_MIME_TYPE: &'static str = "application/vnd.google-apps.folder";

/// Metadata of one remote file as the cache holds it.
#[derive(Debug, PartialEq, Eq)]
pub struct FileWrapper {
    /// Identifier given by the remote store; the cache's key.
    pub id: String,
    /// Display name, the last segment of `path`.
    pub name: String,
    /// MIME type; `DIRECTORY_MIME_TYPE` for a folder.
    pub mime_type: String,
    /// Path below the synchronization root.
    pub path: String,
    /// Whether the record is a folder.
    pub directory: bool,
    /// Link that opens a document which has no content to download.
    pub web_view_link: Option<String>,
    /// Whether the acting principal owns the file.
    pub owned_by_me: bool,
    /// Modification time as the remote store reports it.
    pub last_modified: Timestamp,
    /// Modification time of the local copy when it was last transferred;
    /// the epoch while it never was.
    pub last_accessed: Timestamp,
    /// Whether the remote store has marked the file as trashed.
    pub trashed: bool,
}

/// What a `FileWrapper` holds, as mathematical values.
pub struct FileRecord {
    pub id: Seq<char>,
    pub name: Seq<char>,
    pub mime_type: Seq<char>,
    pub path: Seq<char>,
    pub directory: bool,
    pub web_view_link: Option<Seq<char>>,
    pub owned_by_me: bool,
    pub last_modified: Timestamp,
    pub last_accessed: Timestamp,
    pub trashed: bool,
}

/// The view of an optional string.
pub open spec fn optional_text(s: Option<String>) -> Option<Seq<char>> {
    match s {
        Some(s) => Some(s@),
        None => None,
    }
}

impl View for FileWrapper {
    type V = FileRecord;

    open spec fn view(&self) -> FileRecord {
        FileRecord {
            id: self.id@,
            name: self.name@,
            mime_type: self.mime_type@,
            path: self.path@,
            directory: self.directory,
            web_view_link: optional_text(self.web_view_link),
            owned_by_me: self.owned_by_me,
            last_modified: self.last_modified,
            last_accessed: self.last_accessed,
            trashed: self.trashed,
        }
    }
}

/// A copy of an optional string.
pub fn clone_optional(s: &Option<String>) -> (copy: Option<String>)
    ensures
        optional_text(copy) == optional_text(*s),
{
    match s {
        Some(s) => Some(s.clone()),
        None => None,
    }
}

impl Clone for FileWrapper {
    fn clone(&self) -> (copy: Self)
        ensures
            copy@ == self@,
    {
        FileWrapper {
            id: self.id.clone(),
            name: self.name.clone(),
            mime_type: self.mime_type.clone(),
            path: self.path.clone(),
            directory: self.directory,
            web_view_link: clone_optional(&self.web_view_link),
            owned_by_me: self.owned_by_me,
            last_modified: self.last_modified,
            last_accessed: self.last_accessed,
            trashed: self.trashed,
        }
    }
}

/// The views of `rows`, in the same order.
pub open spec fn records(rows: Seq<FileWrapper>) -> Seq<FileRecord> {
    rows.map_values(|row: FileWrapper| row@)
}

/// A copy of `rows`.
pub fn clone_rows(rows: &Vec<FileWrapper>) -> (copy: Vec<FileWrapper>)
    ensures
        records(copy@) == records(rows@),
{
    let mut copy: Vec<FileWrapper> = Vec::new();
    let mut i: usize = 0;
    while i < rows.len()
        invariant
            i <= rows.len(),
            copy.len() == i,
            forall|k: int| 0 <= k < i ==> copy@[k]@ == rows@[k]@,
        decreases rows.len() - i,
    {
        copy.push(rows[i].clone());
        i += 1;
    }
    copy
}

} // verus!
