//! Records as the remote store lists them.

use vstd::prelude::*;
use crate::hierarchy::Platform;
use crate::record::{clone_optional, optional_text, FileRecord, FileWrapper, DIRECTORY_MIME_TYPE};
use crate::text::{from_chars, last_index, last_position, to_chars};
use crate::timestamp::Timestamp;

verus! {

/// One entry of a remote listing.
#[derive(Debug, PartialEq, Eq)]
pub struct RemoteFile {
    /// Identifier given by the remote store.
    pub id: String,
    /// Display name.
    pub name: String,
    /// MIME type.
    pub mime_type: String,
    /// Identifiers of the folders that hold the file; only the first counts.
    pub parents: Option<Vec<String>>,
    /// Whether the acting principal owns the file, where the store says so.
    pub owned_by_me: Option<bool>,
    /// Link that opens a document which has no content to download.
    pub web_view_link: Option<String>,
    /// Modification time as the remote store reports it.
    pub modified_time: Timestamp,
    /// Whether the file is marked as trashed, where the store says so.
    pub trashed: Option<bool>,
}

/// What a `RemoteFile` holds, as mathematical values.
pub struct RemoteRecord {
    pub id: Seq<char>,
    pub name: Seq<char>,
    pub mime_type: Seq<char>,
    pub parents: Option<Seq<Seq<char>>>,
    pub owned_by_me: Option<bool>,
    pub web_view_link: Option<Seq<char>>,
    pub modified_time: Timestamp,
    pub trashed: Option<bool>,
}

/// The views of a list of identifiers.
pub open spec fn texts(ids: Seq<String>) -> Seq<Seq<char>> {
    ids.map_values(|id: String| id@)
}

/// The view of an optional list of identifiers.
pub open spec fn optional_texts(ids: Option<Vec<String>>) -> Option<Seq<Seq<char>>> {
    match ids {
        Some(ids) => Some(texts(ids@)),
        None => None,
    }
}

impl View for RemoteFile {
    type V = RemoteRecord;

    open spec fn view(&self) -> RemoteRecord {
        RemoteRecord {
            id: self.id@,
            name: self.name@,
            mime_type: self.mime_type@,
            parents: optional_texts(self.parents),
            owned_by_me: self.owned_by_me,
            web_view_link: optional_text(self.web_view_link),
            modified_time: self.modified_time,
            trashed: self.trashed,
        }
    }
}

/// The views of `files`, in the same order.
pub open spec fn remote_records(files: Seq<RemoteFile>) -> Seq<RemoteRecord> {
    files.map_values(|file: RemoteFile| file@)
}

/// The identifier of the folder that counts as the record's parent: the
/// first of its parents, if it has any.
pub open spec fn first_parent(file: RemoteRecord) -> Option<Seq<char>> {
    match file.parents {
        Some(parents) => if parents.len() > 0 {
            Some(parents[0])
        } else {
            None
        },
        None => None,
    }
}

impl RemoteFile {
    /// The identifier of the folder that counts as the record's parent.
    pub fn first_parent(&self) -> (parent: Option<&String>)
        ensures
            match parent {
                Some(id) => first_parent(self@) == Some(id@),
                None => first_parent(self@) is None,
            },
    {
        match &self.parents {
            Some(parents) => {
                if parents.len() > 0 {
                    Some(&parents[0])
                } else {
                    None
                }
            },
            None => None,
        }
    }
}

/// One answer of the remote store to a request for a listing.
#[derive(Debug, PartialEq, Eq)]
pub struct RemotePage {
    /// The records of this page.
    pub files: Vec<RemoteFile>,
    /// Where the listing goes on, unless this page is the last.
    pub next_page_token: Option<String>,
}

/// Takes one answer to a listing request in: `None` stands for a request
/// that failed. The records of a page are added to those gathered so far;
/// the result tells where the listing goes on. A failed request adds
/// nothing and ends the listing with what was gathered.
pub fn collect_page(gathered: &mut Vec<RemoteFile>, answer: Option<RemotePage>) -> (next: Option<
    String,
>)
    ensures
        match answer {
            Some(page) => {
                &&& final(gathered)@ == old(gathered)@ + page.files@
                &&& next == page.next_page_token
            },
            None => final(gathered)@ == old(gathered)@ && next is None,
        },
{
    match answer {
        Some(page) => {
            let mut files = page.files;
            gathered.append(&mut files);
            page.next_page_token
        },
        None => None,
    }
}

/// The cache's record of a listed file whose path was resolved to `path`.
///
/// A file is a folder when it has the folder MIME type. Where the store did
/// not say, the file counts as owned and as not trashed. It was never
/// transferred: `last_accessed` is the epoch.
pub open spec fn listed_record(file: RemoteRecord, path: Seq<char>) -> FileRecord {
    FileRecord {
        id: file.id,
        name: file.name,
        mime_type: file.mime_type,
        path,
        directory: file.mime_type == DIRECTORY_MIME_TYPE@,
        web_view_link: file.web_view_link,
        owned_by_me: match file.owned_by_me {
            Some(owned) => owned,
            None => true,
        },
        last_modified: file.modified_time,
        last_accessed: Timestamp { secs: 0, nanos: 0 },
        trashed: match file.trashed {
            Some(trashed) => trashed,
            None => false,
        },
    }
}

/// Makes the cache's record of a listed file whose path was resolved to `path`.
pub fn convert_to_file_wrapper(file: &RemoteFile, path: &str) -> (file_wrapper: FileWrapper)
    ensures
        file_wrapper@ == listed_record(file@, path@),
{
    let folder_type = DIRECTORY_MIME_TYPE.to_string();
    FileWrapper {
        id: file.id.clone(),
        name: file.name.clone(),
        mime_type: file.mime_type.clone(),
        path: path.to_string(),
        directory: file.mime_type == folder_type,
        web_view_link: clone_optional(&file.web_view_link),
        owned_by_me: match file.owned_by_me {
            Some(owned) => owned,
            None => true,
        },
        last_modified: file.modified_time,
        last_accessed: Timestamp::epoch(),
        trashed: match file.trashed {
            Some(trashed) => trashed,
            None => false,
        },
    }
}

/// What is sent along with a file's content when the file is created in the
/// remote store.
#[derive(Debug, PartialEq, Eq)]
pub struct UploadRequest {
    /// Display name.
    pub name: String,
    /// MIME type.
    pub mime_type: String,
    /// The one folder that is to hold the file, if any.
    pub parents: Option<Vec<String>>,
}

/// What an `UploadRequest` holds, as mathematical values.
pub struct UploadRecord {
    pub name: Seq<char>,
    pub mime_type: Seq<char>,
    pub parents: Option<Seq<Seq<char>>>,
}

impl View for UploadRequest {
    type V = UploadRecord;

    open spec fn view(&self) -> UploadRecord {
        UploadRecord {
            name: self.name@,
            mime_type: self.mime_type@,
            parents: optional_texts(self.parents),
        }
    }
}

/// The name of the folder that holds the file at `path`: the segment before
/// the last one. A path of one segment lies in the root and has none.
pub open spec fn parent_folder(path: Seq<char>, separator: char) -> Option<Seq<char>> {
    let end = last_position(path, separator);
    if end < 0 {
        None
    } else {
        Some(path.subrange(last_position(path.take(end), separator) + 1, end))
    }
}

/// What is sent for a cached or local file: its name, the folder MIME type
/// for a folder and its own otherwise, and the folder that holds it as its
/// one parent.
pub open spec fn upload_for(file: FileRecord, separator: char) -> UploadRecord {
    UploadRecord {
        name: file.name,
        mime_type: if file.directory {
            DIRECTORY_MIME_TYPE@
        } else {
            file.mime_type
        },
        parents: match parent_folder(file.path, separator) {
            Some(folder) => Some(seq![folder]),
            None => None,
        },
    }
}

/// Finds the name of the folder that holds the file at `path`.
pub fn parent_folder_name(path: &str, separator: char) -> (folder: Option<String>)
    ensures
        optional_text(folder) == parent_folder(path@, separator),
{
    let chars = to_chars(path);
    match last_index(&chars, chars.len(), separator) {
        None => {
            assert(chars@.take(chars.len() as int) == chars@);
            None
        },
        Some(end) => {
            assert(chars@.take(chars.len() as int) == chars@);
            let start: usize = match last_index(&chars, end, separator) {
                Some(before) => before + 1,
                None => 0,
            };
            Some(from_chars(&chars, start, end))
        },
    }
}

/// Describes the file to the remote store.
pub fn convert_to_file(file_wrapper: &FileWrapper, platform: Platform) -> (request: UploadRequest)
    ensures
        request@ == upload_for(file_wrapper@, platform.separator()),
{
    let mime_type = if file_wrapper.directory {
        DIRECTORY_MIME_TYPE.to_string()
    } else {
        file_wrapper.mime_type.clone()
    };
    let parents = match parent_folder_name(file_wrapper.path.as_str(), platform.path_separator()) {
        Some(folder) => {
            let mut parents: Vec<String> = Vec::new();
            parents.push(folder);
            assert(texts(parents@) =~= seq![folder@]);
            Some(parents)
        },
        None => None,
    };
    UploadRequest { name: file_wrapper.name.clone(), mime_type, parents }
}

} // verus!
