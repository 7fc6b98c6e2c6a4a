//! What a transfer needs to know before it starts, and what it leaves in
//! the cache when it is done.

use vstd::prelude::*;
use vstd::string::StringExecFns;
use crate::dbcontext::{
    lookup, store_keeps_other_rows, stored, stored_record_has_row, touch_changes_one_column,
    touch_sets_last_accessed, touched, unique_ids,
};
use crate::reconcile::{action_for, finished_transfer_needs_nothing, SyncAction};
use crate::record::{optional_text, FileRecord, FileWrapper};
use crate::remote::{convert_to_file_wrapper, listed_record, RemoteFile, RemoteRecord};
use crate::text::{contains, contains_text};
use crate::timestamp::Timestamp;

verus! {

/// The text that marks the MIME type of a document which lives in the remote
/// store only.
pub const NATIVE_MARKER: &'static str = "google";

/// What the launcher of such a document starts with; the link follows.
pub const LAUNCHER_PREFIX: &'static str = "#!/usr/bin/env bash\nxdg-open ";

/// How a file comes to the local tree.
#[derive(Clone, Copy, Debug, PartialEq, Eq, Structural)]
pub enum DownloadKind {
    /// The file has no content to fetch: a launcher that opens its link
    /// stands in for it.
    NativeDocument,
    /// The content is fetched and written as it is.
    BinaryFile,
}

/// The way a file with this MIME type comes to the local tree.
pub open spec fn kind_of(mime_type: Seq<char>) -> DownloadKind {
    if contains_text(mime_type, NATIVE_MARKER@) {
        DownloadKind::NativeDocument
    } else {
        DownloadKind::BinaryFile
    }
}

/// The launcher for the link `link`.
pub open spec fn launcher_text(link: Seq<char>) -> Seq<char> {
    LAUNCHER_PREFIX@ + link
}

/// The cache's record of a file that was just sent: what the remote store
/// answered, at the path of the local file, and last transferred at `at`,
/// the modification time of the local file that was sent.
pub open spec fn uploaded(created: RemoteRecord, local: FileRecord, at: Timestamp) -> FileRecord {
    FileRecord { last_accessed: at, ..listed_record(created, local.path) }
}

/// The rows after the local file `local` was sent at the local modification
/// time `at` and the remote store answered with `created`: the answer is
/// stored, and then both the row of the answer and the row of the file that
/// was sent, where there is one, get `at` as their `last_accessed`.
pub open spec fn after_upload(
    rows: Seq<FileRecord>,
    created: RemoteRecord,
    local: FileRecord,
    at: Timestamp,
) -> Seq<FileRecord> {
    touched(touched(stored(rows, uploaded(created, local, at)), created.id, at), local.id, at)
}

/// The rows after a download: where something was written, the row of the
/// file gets the modification time of what was written as its
/// `last_accessed`; where nothing was written, the rows stay as they are.
pub open spec fn after_download(rows: Seq<FileRecord>, id: Seq<char>, written: Option<Timestamp>) -> Seq<
    FileRecord,
> {
    match written {
        Some(at) => touched(rows, id, at),
        None => rows,
    }
}

/// An upload ends with the time of the transfer in the cache: afterwards the
/// answer of the remote store has a row, and this row and the row of the
/// file that was sent, where there is one, have `at` as their
/// `last_accessed`.
pub proof fn upload_sets_last_accessed(
    rows: Seq<FileRecord>,
    created: RemoteRecord,
    local: FileRecord,
    at: Timestamp,
)
    requires
        unique_ids(rows),
    ensures
        unique_ids(after_upload(rows, created, local, at)),
        lookup(after_upload(rows, created, local, at), created.id) matches Some(row)
            && row.last_accessed == at,
        lookup(rows, local.id) is Some ==> lookup(after_upload(rows, created, local, at), local.id)
            is Some,
        lookup(after_upload(rows, created, local, at), local.id) matches Some(row)
            ==> row.last_accessed == at,
{
    let record = uploaded(created, local, at);
    let first = stored(rows, record);
    stored_record_has_row(rows, record);
    let second = touched(first, created.id, at);
    touch_sets_last_accessed(first, created.id, at);
    touch_sets_last_accessed(second, local.id, at);
    if local.id != created.id {
        touch_changes_one_column(second, local.id, at, created.id);
        touch_changes_one_column(first, created.id, at, local.id);
        store_keeps_other_rows(rows, record, local.id);
    }
}

/// A cached file that was sent is not sent again: after the upload, its row
/// needs nothing while the local file keeps the modification time `at`
/// that it was sent with. This holds of every time but those in the first
/// second of the epoch, which stand for "never transferred".
pub proof fn uploaded_file_needs_nothing(
    rows: Seq<FileRecord>,
    created: RemoteRecord,
    local: FileRecord,
    at: Timestamp,
)
    requires
        unique_ids(rows),
        lookup(rows, local.id) is Some,
        at.secs != 0,
    ensures
        lookup(after_upload(rows, created, local, at), local.id) matches Some(row) && action_for(
            row,
            Some(at),
        ) == SyncAction::Nothing,
{
    upload_sets_last_accessed(rows, created, local, at);
    let row = lookup(after_upload(rows, created, local, at), local.id)->0;
    finished_transfer_needs_nothing(row, at);
}

/// A file that was written by a download is not fetched again: its row
/// needs nothing while the local file keeps the modification time `at` of
/// what was written. This holds of every time but those in the first second
/// of the epoch.
pub proof fn downloaded_file_needs_nothing(rows: Seq<FileRecord>, id: Seq<char>, at: Timestamp)
    requires
        unique_ids(rows),
        lookup(rows, id) is Some,
        at.secs != 0,
    ensures
        lookup(after_download(rows, id, Some(at)), id) matches Some(row) && action_for(
            row,
            Some(at),
        ) == SyncAction::Nothing,
{
    touch_sets_last_accessed(rows, id, at);
    let row = lookup(after_download(rows, id, Some(at)), id)->0;
    finished_transfer_needs_nothing(row, at);
}

/// A download that wrote something ends with the time of the transfer in
/// the cache; one that wrote nothing leaves every row as it was.
pub proof fn download_sets_last_accessed(rows: Seq<FileRecord>, id: Seq<char>, written: Option<
    Timestamp,
>)
    requires
        unique_ids(rows),
    ensures
        unique_ids(after_download(rows, id, written)),
        written is None ==> after_download(rows, id, written) == rows,
        written matches Some(at) ==> lookup(after_download(rows, id, written), id) == match lookup(
            rows,
            id,
        ) {
            Some(row) => Some(FileRecord { last_accessed: at, ..row }),
            None => None,
        },
{
    if written is Some {
        touch_sets_last_accessed(rows, id, written->0);
    }
}

/// Tells how the file comes to the local tree.
pub fn download_kind(file_wrapper: &FileWrapper) -> (kind: DownloadKind)
    ensures
        kind == kind_of(file_wrapper@.mime_type),
{
    if contains(file_wrapper.mime_type.as_str(), NATIVE_MARKER) {
        DownloadKind::NativeDocument
    } else {
        DownloadKind::BinaryFile
    }
}

/// The launcher that stands in for the file, where the file has a link.
pub fn launcher(file_wrapper: &FileWrapper) -> (content: Option<String>)
    ensures
        optional_text(content) == match file_wrapper@.web_view_link {
            Some(link) => Some(launcher_text(link)),
            None => None,
        },
{
    match &file_wrapper.web_view_link {
        Some(link) => {
            let mut content = LAUNCHER_PREFIX.to_string();
            content.append(link.as_str());
            Some(content)
        },
        None => None,
    }
}

/// Makes the cache's record of a file that was just sent, from what the
/// remote store answered, the local file, and its modification time when
/// it was sent.
pub fn uploaded_file(created: &RemoteFile, local: &FileWrapper, at: Timestamp) -> (file_wrapper:
    FileWrapper)
    ensures
        file_wrapper@ == uploaded(created@, local@, at),
{
    let mut file_wrapper = convert_to_file_wrapper(created, local.path.as_str());
    file_wrapper.last_accessed = at;
    file_wrapper
}

} // verus!
