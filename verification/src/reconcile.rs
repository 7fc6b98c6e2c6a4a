//! What a poll cycle does with each file: fetch it, send it, or leave it.

use vstd::prelude::*;
use crate::record::{records, FileRecord, FileWrapper};
use crate::timestamp::Timestamp;

verus! {

/// The transfer a file needs.
#[derive(Clone, Copy, Debug, PartialEq, Eq, Structural)]
pub enum SyncAction {
    /// Bring the remote content to the local tree.
    Download,
    /// Send the local content to the remote store.
    Upload,
    /// Both sides agree.
    Nothing,
}

/// The action for a cached record, given the modification time of its local
/// file (`None` where there is no such file).
///
/// Folders and trashed records are left alone. A file that is missing
/// locally, or that was never transferred (`last_accessed` in the epoch's
/// first second), is downloaded. Otherwise the local modification time is
/// held against `last_accessed`, both in whole seconds: the newer side wins.
pub open spec fn action_for(file: FileRecord, local_modified: Option<Timestamp>) -> SyncAction {
    if file.directory || file.trashed {
        SyncAction::Nothing
    } else {
        match local_modified {
            None => SyncAction::Download,
            Some(local) => {
                if file.last_accessed.secs == 0 {
                    SyncAction::Download
                } else if local.secs > file.last_accessed.secs {
                    SyncAction::Upload
                } else if local.secs < file.last_accessed.secs {
                    SyncAction::Download
                } else {
                    SyncAction::Nothing
                }
            },
        }
    }
}

/// A transfer that is done is not made again: a record whose
/// `last_accessed` is the modification time of its local file needs nothing.
/// This holds of every time but those in the first second of the epoch,
/// which stand for "never transferred".
pub proof fn finished_transfer_needs_nothing(file: FileRecord, at: Timestamp)
    requires
        at.secs != 0,
    ensures
        action_for(FileRecord { last_accessed: at, ..file }, Some(at)) == SyncAction::Nothing,
{
}

/// Decides what to do with a cached record whose local file was last
/// modified at `local_modified`, or does not exist where that is `None`.
pub fn handle_existing_file(file: &FileWrapper, local_modified: Option<Timestamp>) -> (action:
    SyncAction)
    ensures
        action == action_for(file@, local_modified),
{
    if file.directory || file.trashed {
        return SyncAction::Nothing;
    }
    match local_modified {
        None => SyncAction::Download,
        Some(local) => {
            let synced: i64 = file.last_accessed.secs;
            if synced == 0 {
                SyncAction::Download
            } else if local.secs > synced {
                SyncAction::Upload
            } else if local.secs < synced {
                SyncAction::Download
            } else {
                SyncAction::Nothing
            }
        },
    }
}

/// Whether one of `existing` has the path `path`.
pub open spec fn path_known(existing: Seq<FileRecord>, path: Seq<char>) -> bool {
    exists|i: int| 0 <= i < existing.len() && #[trigger] existing[i].path == path
}

/// Whether a local file is new to the remote store and can be sent: its path
/// is not among the cached ones, and it is no folder.
pub open spec fn is_new_upload(existing: Seq<FileRecord>, local: FileRecord) -> bool {
    !local.directory && !path_known(existing, local.path)
}

/// A cached record, and when its local file was last modified: `None`
/// where there is no such file.
#[derive(Debug, PartialEq, Eq)]
pub struct Observed {
    pub file: FileWrapper,
    pub local_modified: Option<Timestamp>,
}

/// What an `Observed` holds, as mathematical values.
pub struct ObservedRecord {
    pub file: FileRecord,
    pub local_modified: Option<Timestamp>,
}

impl View for Observed {
    type V = ObservedRecord;

    open spec fn view(&self) -> ObservedRecord {
        ObservedRecord { file: self.file@, local_modified: self.local_modified }
    }
}

/// One transfer that a cycle is to make: a download or an upload of a file.
#[derive(Debug, PartialEq, Eq)]
pub struct Transfer {
    pub action: SyncAction,
    pub file: FileWrapper,
}

/// What a `Transfer` holds, as mathematical values.
pub struct TransferRecord {
    pub action: SyncAction,
    pub file: FileRecord,
}

impl View for Transfer {
    type V = TransferRecord;

    open spec fn view(&self) -> TransferRecord {
        TransferRecord { action: self.action, file: self.file@ }
    }
}

/// The views of `observed`, in the same order.
pub open spec fn observations(observed: Seq<Observed>) -> Seq<ObservedRecord> {
    observed.map_values(|seen: Observed| seen@)
}

/// The views of `plan`, in the same order.
pub open spec fn transfers(plan: Seq<Transfer>) -> Seq<TransferRecord> {
    plan.map_values(|transfer: Transfer| transfer@)
}

/// The records that were observed.
pub open spec fn observed_files(observed: Seq<ObservedRecord>) -> Seq<FileRecord> {
    observed.map_values(|seen: ObservedRecord| seen.file)
}

/// The transfers of the cached records: each record, in order, with the
/// action that `action_for` gives it, those left out that need none.
pub open spec fn cached_transfers(observed: Seq<ObservedRecord>) -> Seq<TransferRecord>
    decreases observed.len(),
{
    if observed.len() == 0 {
        Seq::empty()
    } else {
        let before = cached_transfers(observed.drop_last());
        let seen = observed.last();
        let action = action_for(seen.file, seen.local_modified);
        if action is Nothing {
            before
        } else {
            before.push(TransferRecord { action, file: seen.file })
        }
    }
}

/// The uploads of the local files that are new: each local file, in order,
/// that is no folder and whose path none of `existing` has.
pub open spec fn first_uploads(existing: Seq<FileRecord>, local_files: Seq<FileRecord>) -> Seq<
    TransferRecord,
>
    decreases local_files.len(),
{
    if local_files.len() == 0 {
        Seq::empty()
    } else {
        let before = first_uploads(existing, local_files.drop_last());
        let local = local_files.last();
        if is_new_upload(existing, local) {
            before.push(TransferRecord { action: SyncAction::Upload, file: local })
        } else {
            before
        }
    }
}

/// What a cycle is to transfer: first what the cached records need, then the
/// local files that are new.
pub open spec fn cycle_plan(observed: Seq<ObservedRecord>, local_files: Seq<FileRecord>) -> Seq<
    TransferRecord,
> {
    cached_transfers(observed) + first_uploads(observed_files(observed), local_files)
}

/// Whether one of the observed records has the path `path`.
fn observed_path(observed: &Vec<Observed>, path: &String) -> (known: bool)
    ensures
        known == path_known(observed_files(observations(observed@)), path@),
{
    let ghost files = observed_files(observations(observed@));
    let mut i: usize = 0;
    while i < observed.len()
        invariant
            i <= observed.len(),
            files == observed_files(observations(observed@)),
            forall|k: int| 0 <= k < i ==> (#[trigger] files[k]).path != path@,
        decreases observed.len() - i,
    {
        if observed[i].file.path == *path {
            assert(files[i as int].path == path@);
            return true;
        }
        i += 1;
    }
    false
}

/// Gathers the transfers of a cycle. `observed` holds the cached records
/// that take part, each with the modification time of its local file;
/// `local_files` holds the files of the local tree.
pub fn plan_cycle(observed: &Vec<Observed>, local_files: &Vec<FileWrapper>) -> (plan: Vec<Transfer>)
    ensures
        transfers(plan@) == cycle_plan(observations(observed@), records(local_files@)),
{
    let mut plan: Vec<Transfer> = Vec::new();
    let mut i: usize = 0;
    while i < observed.len()
        invariant
            i <= observed.len(),
            transfers(plan@) == cached_transfers(observations(observed@).take(i as int)),
        decreases observed.len() - i,
    {
        let seen = &observed[i];
        assert(observations(observed@).take(i + 1).drop_last() == observations(observed@).take(
            i as int,
        ));
        match handle_existing_file(&seen.file, seen.local_modified) {
            SyncAction::Nothing => {},
            action => {
                plan.push(Transfer { action, file: seen.file.clone() });
            },
        }
        i += 1;
    }
    assert(observations(observed@).take(observed.len() as int) == observations(observed@));
    let ghost cached = transfers(plan@);
    let ghost existing = observed_files(observations(observed@));
    let mut j: usize = 0;
    while j < local_files.len()
        invariant
            j <= local_files.len(),
            existing == observed_files(observations(observed@)),
            transfers(plan@) == cached + first_uploads(
                existing,
                records(local_files@).take(j as int),
            ),
        decreases local_files.len() - j,
    {
        let local = &local_files[j];
        assert(records(local_files@).take(j + 1).drop_last() == records(local_files@).take(
            j as int,
        ));
        if !local.directory && !observed_path(observed, &local.path) {
            let ghost before = transfers(plan@);
            plan.push(Transfer { action: SyncAction::Upload, file: local.clone() });
            assert(transfers(plan@) == before.push(
                TransferRecord { action: SyncAction::Upload, file: local@ },
            ));
        }
        j += 1;
    }
    assert(records(local_files@).take(local_files.len() as int) == records(local_files@));
    plan
}

} // verus!
