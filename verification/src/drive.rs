//! The engine: a cache, a configuration, and the host's way of writing paths.

use vstd::prelude::*;
pub use crate::record::FileWrapper;
use crate::config::{ignores, Config, ConfigView};
use crate::dbcontext::{
    lemma_stored_unique, lookup, store_keeps_other_rows, stored, stored_record_is_found,
    unique_ids, CacheError, DbContext,
};
use crate::hierarchy::{resolved_path, Hierarchy, Platform};
use crate::record::{records, FileRecord};
use crate::remote::{convert_to_file_wrapper, listed_record, remote_records, RemoteFile, RemoteRecord};
use crate::timestamp::Timestamp;
use crate::transfer::{after_download, after_upload, uploaded_file};

verus! {

/// The synchronization engine.
pub struct Drive {
    /// The cache of remote file metadata.
    pub context: DbContext,
    /// The filters and the synchronization root.
    pub config: Config,
    /// The host's way of writing paths.
    pub platform: Platform,
}

/// Whether the record at `position` of the listing passes the filters.
pub open spec fn kept(files: Seq<RemoteRecord>, config: ConfigView, platform: Platform, position: int) -> bool {
    !ignores(config, resolved_path(files, files[position], platform))
}

/// Whether one of the first `count` records of the listing passes the filters.
pub open spec fn any_kept(files: Seq<RemoteRecord>, config: ConfigView, platform: Platform, count: int) -> bool {
    exists|position: int| 0 <= position < count && #[trigger] kept(files, config, platform, position)
}

/// The rows after the first `count` records of a listing were taken in: each
/// record, in the listing's order, has its path resolved, is dropped where
/// the filters ignore that path, and is stored otherwise.
pub open spec fn ingested(
    rows: Seq<FileRecord>,
    files: Seq<RemoteRecord>,
    config: ConfigView,
    platform: Platform,
    count: nat,
) -> Seq<FileRecord>
    decreases count,
{
    if count == 0 {
        rows
    } else {
        let before = ingested(rows, files, config, platform, (count - 1) as nat);
        let file = files[count - 1];
        if kept(files, config, platform, count - 1) {
            stored(before, listed_record(file, resolved_path(files, file, platform)))
        } else {
            before
        }
    }
}

/// Taking a listing in leaves every row as it was, in all columns, or
/// writes it anew with a `last_accessed` of the epoch: the time of the last
/// transfer is not moved to any other time here. The identifiers also stay
/// distinct.
pub proof fn ingestion_keeps_or_resets(
    rows: Seq<FileRecord>,
    files: Seq<RemoteRecord>,
    config: ConfigView,
    platform: Platform,
    count: nat,
    id: Seq<char>,
)
    requires
        unique_ids(rows),
    ensures
        unique_ids(ingested(rows, files, config, platform, count)),
        lookup(ingested(rows, files, config, platform, count), id) matches Some(after) ==> {
            ||| lookup(rows, id) == Some(after)
            ||| after.last_accessed == (Timestamp { secs: 0, nanos: 0 })
        },
    decreases count,
{
    if count > 0 {
        let before = ingested(rows, files, config, platform, (count - 1) as nat);
        ingestion_keeps_or_resets(rows, files, config, platform, (count - 1) as nat, id);
        if kept(files, config, platform, count - 1) {
            let file = files[count - 1];
            let record = listed_record(file, resolved_path(files, file, platform));
            lemma_stored_unique(before, record);
            if id == record.id {
                if !(lookup(before, id) matches Some(row) && row.last_modified
                    == record.last_modified) {
                    stored_record_is_found(before, record);
                }
            } else {
                store_keeps_other_rows(before, record, id);
            }
        }
    }
}

/// What taking a listing in leaves in the cache, and whether it succeeds:
/// it fails, on the first record that passes the filters, when there is no
/// table.
pub open spec fn ingestion(
    before: Option<Seq<FileRecord>>,
    after: Option<Seq<FileRecord>>,
    done: Result<(), CacheError>,
    files: Seq<RemoteRecord>,
    config: ConfigView,
    platform: Platform,
) -> bool {
    match before {
        Some(rows) => done is Ok && after == Some(ingested(rows, files, config, platform, files.len())),
        None => after is None && done == if any_kept(files, config, platform, files.len() as int) {
            Err::<(), CacheError>(CacheError::MissingTable)
        } else {
            Ok::<(), CacheError>(())
        },
    }
}

/// Takes a listing into the cache, record by record.
fn ingest(cache: &mut DbContext, listing: &Hierarchy, config: &Config, platform: Platform) -> (done:
    Result<(), CacheError>)
    ensures
        ingestion(old(cache)@, final(cache)@, done, listing@, config@, platform),
{
    let mut i: usize = 0;
    while i < listing.len()
        invariant
            i <= listing@.len(),
            match old(cache)@ {
                Some(rows) => cache@ == Some(ingested(rows, listing@, config@, platform, i as nat)),
                None => cache@ is None && !any_kept(listing@, config@, platform, i as int),
            },
        decreases listing@.len() - i,
    {
        let file = match listing.file(i) {
            Some(file) => file,
            None => {
                return Ok(());
            },
        };
        let path = listing.get_path(file, platform);
        if !config.should_be_ignored(path.as_str()) {
            assert(kept(listing@, config@, platform, i as int));
            let file_wrapper = convert_to_file_wrapper(file, path.as_str());
            match cache.store_file(&file_wrapper) {
                Ok(()) => {},
                Err(error) => {
                    return Err(error);
                },
            }
        }
        i += 1;
    }
    Ok(())
}

impl Drive {
    /// An engine over the given cache.
    pub fn new(context: DbContext, config: Config, platform: Platform) -> (drive: Drive)
        ensures
            drive.context == context,
            drive.config == config,
            drive.platform == platform,
    {
        Drive { context, config, platform }
    }

    /// Creates the cache's table unless it exists, and takes a first
    /// listing in.
    pub fn init(&mut self, fetched_files: Vec<RemoteFile>) -> (done: Result<(), CacheError>)
        ensures
            done is Ok,
            final(self).context@ == Some(
                ingested(
                    match old(self).context@ {
                        Some(rows) => rows,
                        None => Seq::empty(),
                    },
                    remote_records(fetched_files@),
                    old(self).config@,
                    old(self).platform,
                    fetched_files@.len(),
                ),
            ),
            final(self).config == old(self).config,
            final(self).platform == old(self).platform,
    {
        match self.context.init() {
            Ok(()) => self.store_fetched_files(fetched_files),
            Err(error) => Err(error),
        }
    }

    /// Takes a listing into the cache, all or nothing: every record has its
    /// path resolved within the listing, is dropped where the filters ignore
    /// that path, and is stored otherwise. Where storing fails, the cache
    /// stays as it was. Failing or not, the result is `Ok`: a listing that
    /// could not be taken in does not stop the cycle, which goes on with what
    /// the cache holds. `try_store_fetched_files` does the same and hands the
    /// failure out.
    pub fn store_fetched_files(&mut self, fetched_files: Vec<RemoteFile>) -> (done: Result<
        (),
        CacheError,
    >)
        ensures
            done is Ok,
            final(self).context@ == match old(self).context@ {
                Some(rows) => Some(
                    ingested(
                        rows,
                        remote_records(fetched_files@),
                        old(self).config@,
                        old(self).platform,
                        fetched_files@.len(),
                    ),
                ),
                None => None,
            },
            final(self).config == old(self).config,
            final(self).platform == old(self).platform,
    {
        match self.try_store_fetched_files(fetched_files) {
            Ok(()) => Ok(()),
            Err(_) => Ok(()),
        }
    }

    /// Takes a listing into the cache as `store_fetched_files` does, and
    /// tells whether that failed: it fails, on the first record that passes
    /// the filters, when there is no table. The cache then stays as it was.
    pub fn try_store_fetched_files(&mut self, fetched_files: Vec<RemoteFile>) -> (done: Result<
        (),
        CacheError,
    >)
        ensures
            ingestion(
                old(self).context@,
                final(self).context@,
                done,
                remote_records(fetched_files@),
                old(self).config@,
                old(self).platform,
            ),
            final(self).config == old(self).config,
            final(self).platform == old(self).platform,
    {
        let listing = Hierarchy::new(fetched_files);
        let config = &self.config;
        let platform = self.platform;
        let body = |cache: &mut DbContext| -> (done: Result<(), CacheError>)
            ensures
                ingestion(old(cache)@, final(cache)@, done, listing@, config@, platform),
            { ingest(cache, &listing, config, platform) };
        self.context.transaction(body)
    }

    /// The cached records; with `owned_only`, those that the acting
    /// principal owns. Fails while the cache has no table.
    pub fn get_all_files(&self, owned_only: bool) -> (all: Result<Vec<FileWrapper>, CacheError>)
        ensures
            match self.context@ {
                Some(rows) => all matches Ok(files) && records(files@) == if owned_only {
                    rows.filter(|row: FileRecord| row.owned_by_me)
                } else {
                    rows
                },
                None => all == Err::<Vec<FileWrapper>, CacheError>(CacheError::MissingTable),
            },
    {
        let all_files = match self.context.get_all_files() {
            Ok(files) => files,
            Err(error) => {
                return Err(error);
            },
        };
        if !owned_only {
            return Ok(all_files);
        }
        let ghost owned = |row: FileRecord| row.owned_by_me;
        let mut filtered_files: Vec<FileWrapper> = Vec::new();
        let mut i: usize = 0;
        while i < all_files.len()
            invariant
                i <= all_files.len(),
                owned == |row: FileRecord| row.owned_by_me,
                records(filtered_files@) == records(all_files@).take(i as int).filter(owned),
            decreases all_files.len() - i,
        {
            let file = &all_files[i];
            let ghost before = records(all_files@).take(i as int);
            let ghost after = records(all_files@).take(i + 1);
            assert(after.drop_last() == before);
            assert(after.filter(owned) == if owned(file@) {
                before.filter(owned).push(file@)
            } else {
                before.filter(owned)
            }) by {
                reveal(Seq::filter);
            }
            if file.owned_by_me {
                filtered_files.push(file.clone());
            }
            i += 1;
        }
        assert(records(all_files@).take(all_files.len() as int) == records(all_files@));
        Ok(filtered_files)
    }

    /// Ends a download. `written` is the modification time of the local
    /// file where the download wrote it, and `None` where nothing was
    /// written, the content having been refused. Only a download that wrote
    /// something moves the record's `last_accessed`, to the time given.
    pub fn complete_download(&mut self, file_wrapper: &FileWrapper, written: Option<Timestamp>) -> (done:
        Result<(), CacheError>)
        ensures
            match old(self).context@ {
                Some(rows) => done is Ok && final(self).context@ == Some(
                    after_download(rows, file_wrapper@.id, written),
                ),
                None => {
                    &&& done == Err::<(), CacheError>(CacheError::MissingTable)
                    &&& final(self).context@ is None
                },
            },
            final(self).config == old(self).config,
            final(self).platform == old(self).platform,
    {
        match written {
            Some(at) => self.context.update_last_accessed(&file_wrapper.id, &at),
            None => {
                if self.context.has_table() {
                    Ok(())
                } else {
                    Err(CacheError::MissingTable)
                }
            },
        }
    }

    /// Ends an upload of the local file `file_wrapper`, which had the
    /// modification time `local_modified` when it was sent and of which the
    /// remote store made `created`. The record of `created` is stored at the
    /// local file's path. Then its row, and the row of `file_wrapper` where
    /// the cache has one, get `local_modified` as their `last_accessed`.
    pub fn complete_upload(
        &mut self,
        created: &RemoteFile,
        file_wrapper: &FileWrapper,
        local_modified: Timestamp,
    ) -> (done: Result<(), CacheError>)
        ensures
            match old(self).context@ {
                Some(rows) => done is Ok && final(self).context@ == Some(
                    after_upload(rows, created@, file_wrapper@, local_modified),
                ),
                None => {
                    &&& done == Err::<(), CacheError>(CacheError::MissingTable)
                    &&& final(self).context@ is None
                },
            },
            final(self).config == old(self).config,
            final(self).platform == old(self).platform,
    {
        let response_file_wrapper = uploaded_file(created, file_wrapper, local_modified);
        match self.context.store_file(&response_file_wrapper) {
            Ok(()) => {},
            Err(error) => {
                return Err(error);
            },
        }
        match self.context.update_last_accessed(&response_file_wrapper.id, &local_modified) {
            Ok(()) => {},
            Err(error) => {
                return Err(error);
            },
        }
        self.context.update_last_accessed(&file_wrapper.id, &local_modified)
    }
}

} // verus!
