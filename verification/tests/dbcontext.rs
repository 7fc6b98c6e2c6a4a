use chrono::offset::Utc;
use rdrive::dbcontext::{store_action, CacheError, DbContext, StoreAction};
use rdrive::record::FileWrapper;
use rdrive::storage::CREATE_TABLE;
use rdrive::timestamp::Timestamp;
use rusqlite::ffi::ErrorCode;
use rusqlite::{Connection, Error};

fn now() -> Timestamp {
    let now = Utc::now();
    Timestamp::new(now.timestamp(), now.timestamp_subsec_nanos())
}

fn a_minute_after(time: Timestamp) -> Timestamp {
    Timestamp::new(time.secs + 60, time.nanos)
}

fn stored_rows(dbcontext: &DbContext) -> Vec<FileWrapper> {
    dbcontext.get_all_files().unwrap()
}

fn a_file_wrapper() -> FileWrapper {
    FileWrapper {
        id: "id".to_string(),
        name: "name".to_string(),
        mime_type: "mime_type".to_string(),
        path: "dbcontext.rs".to_string(),
        directory: false,
        web_view_link: Some("web_view_link".to_string()),
        owned_by_me: true,
        last_modified: now(),
        last_accessed: now(),
        trashed: false,
    }
}

#[test]
fn init_should_create_table() {
    let mut dbcontext = DbContext::new();
    let result = dbcontext.init();
    assert!(result.is_ok());
    assert_eq!(dbcontext.get_all_files(), Ok(vec![]));

    let connection = Connection::open_in_memory().unwrap();
    connection.execute(CREATE_TABLE, []).unwrap();
    let table = connection.query_row(
        "SELECT sql FROM sqlite_master WHERE type='table' AND name='file'",
        [],
        |row| -> rusqlite::Result<String> { row.get(0) },
    );
    assert_eq!(table, Ok("CREATE TABLE file (\n                id TEXT PRIMARY KEY,\n                name TEXT NOT NULL,\n                mime_type TEXT NOT NULL,\n                path TEXT NOT NULL,\n                directory INTEGER NOT NULL,\n                web_view_link TEXT,\n                owned_by_me INTEGER NOT NULL,\n                last_modified TEXT NOT NULL,\n                last_accessed TEXT NOT NULL,\n                trashed INTEGER NOT NULL\n            )".to_string()));
}

#[test]
fn init_twice_keeps_the_rows() {
    let mut dbcontext = DbContext::new();
    assert!(dbcontext.init().is_ok());
    let file_wrapper = a_file_wrapper();
    assert!(dbcontext.store_file(&file_wrapper).is_ok());
    assert!(dbcontext.init().is_ok());
    assert_eq!(stored_rows(&dbcontext), vec![file_wrapper]);
}

#[test]
fn operations_fail_without_table() {
    let mut dbcontext = DbContext::new();
    let file_wrapper = a_file_wrapper();
    assert_eq!(dbcontext.store_file(&file_wrapper), Err(CacheError::MissingTable));
    assert_eq!(dbcontext.get_file(&file_wrapper.id), Err(CacheError::MissingTable));
    assert_eq!(dbcontext.get_all_files(), Err(CacheError::MissingTable));
    assert_eq!(
        dbcontext.update_last_accessed(&file_wrapper.id, &now()),
        Err(CacheError::MissingTable)
    );
    assert!(dbcontext.init().is_ok());
    assert_eq!(dbcontext.get_all_files(), Ok(vec![]));
}

#[test]
fn store_file_should_store_new_file() {
    let mut dbcontext = DbContext::new();
    let init_result = dbcontext.init();
    assert!(init_result.is_ok());
    let expected_file_wrapper = a_file_wrapper();
    let result = dbcontext.store_file(&expected_file_wrapper);
    assert!(result.is_ok());

    let mut rows = stored_rows(&dbcontext);
    assert_eq!(rows.len(), 1);
    let actual_file_wrapper = rows.pop();
    assert_eq!(actual_file_wrapper.unwrap(), expected_file_wrapper);
}

#[test]
fn store_file_should_update_stored_file_details() {
    let mut dbcontext = DbContext::new();
    let init_result = dbcontext.init();
    assert!(init_result.is_ok());
    let original_file_wrapper = a_file_wrapper();
    let updated_file_wrapper = FileWrapper {
        id: original_file_wrapper.id.clone(),
        name: "updated name".to_string(),
        mime_type: "updated mime_type".to_string(),
        path: "src".to_string(),
        directory: true,
        web_view_link: Some("updated web_view_link".to_string()),
        owned_by_me: false,
        last_modified: a_minute_after(now()),
        last_accessed: a_minute_after(now()),
        trashed: true,
    };
    assert!(dbcontext.store_file(&original_file_wrapper).is_ok());
    let result = dbcontext.store_file(&updated_file_wrapper);
    assert!(result.is_ok());

    let mut rows = stored_rows(&dbcontext);
    assert_eq!(rows.len(), 1);
    let actual_file_wrapper = rows.pop();
    assert_eq!(actual_file_wrapper.unwrap(), updated_file_wrapper);
}

#[test]
fn store_file_should_not_update_stored_file_details_if_last_modified_is_the_same() {
    let mut dbcontext = DbContext::new();
    let init_result = dbcontext.init();
    assert!(init_result.is_ok());
    let original_file_wrapper = a_file_wrapper();
    let updated_file_wrapper = FileWrapper {
        id: original_file_wrapper.id.clone(),
        name: "updated name".to_string(),
        mime_type: "updated mime_type".to_string(),
        path: "src".to_string(),
        directory: true,
        web_view_link: Some("updated web_view_link".to_string()),
        owned_by_me: false,
        last_modified: original_file_wrapper.last_modified,
        last_accessed: a_minute_after(now()),
        trashed: true,
    };
    assert!(dbcontext.store_file(&original_file_wrapper).is_ok());
    let result = dbcontext.store_file(&updated_file_wrapper);
    assert!(result.is_ok());

    let mut rows = stored_rows(&dbcontext);
    assert_eq!(rows.len(), 1);
    let actual_file_wrapper = rows.pop();
    assert_eq!(actual_file_wrapper.unwrap(), original_file_wrapper);
}

#[test]
fn store_file_twice_is_storing_it_once() {
    let mut dbcontext = DbContext::new();
    assert!(dbcontext.init().is_ok());
    let file_wrapper = a_file_wrapper();
    assert!(dbcontext.store_file(&file_wrapper).is_ok());
    let once = stored_rows(&dbcontext);
    assert!(dbcontext.store_file(&file_wrapper).is_ok());
    assert_eq!(stored_rows(&dbcontext), once);
    assert_eq!(once, vec![file_wrapper]);
}

#[test]
fn store_file_keeps_the_other_rows() {
    let mut dbcontext = DbContext::new();
    assert!(dbcontext.init().is_ok());
    let first = a_file_wrapper();
    let mut second = a_file_wrapper();
    second.id = "other".to_string();
    second.name = "other name".to_string();
    assert!(dbcontext.store_file(&first).is_ok());
    assert!(dbcontext.store_file(&second).is_ok());
    let mut changed = a_file_wrapper();
    changed.last_modified = a_minute_after(first.last_modified);
    changed.path = "lib.rs".to_string();
    assert!(dbcontext.store_file(&changed).is_ok());
    assert_eq!(stored_rows(&dbcontext), vec![changed, second]);
}

#[test]
fn get_file_should_return_none_if_no_stored_file() {
    let mut dbcontext = DbContext::new();
    let init_result = dbcontext.init();
    assert!(init_result.is_ok());
    let result = dbcontext.get_file(&"id".to_string());
    assert_eq!(result, Ok(None));
}

#[test]
fn get_file_should_get_stored_file() {
    let mut dbcontext = DbContext::new();
    let init_result = dbcontext.init();
    assert!(init_result.is_ok());
    let stored_file_wrapper = a_file_wrapper();
    assert!(dbcontext.store_file(&stored_file_wrapper).is_ok());
    let result = dbcontext.get_file(&stored_file_wrapper.id);
    assert_eq!(result.unwrap().unwrap(), stored_file_wrapper);
}

#[test]
fn get_file_keeps_the_precision_of_the_times() {
    let mut dbcontext = DbContext::new();
    assert!(dbcontext.init().is_ok());
    let mut file_wrapper = a_file_wrapper();
    file_wrapper.last_modified = Timestamp::new(1_700_000_000, 123_456_789);
    file_wrapper.last_accessed = Timestamp::new(-5, 999_999_999);
    assert!(dbcontext.store_file(&file_wrapper).is_ok());
    let found = dbcontext.get_file(&file_wrapper.id).unwrap().unwrap();
    assert_eq!(found.last_modified, Timestamp { secs: 1_700_000_000, nanos: 123_456_789 });
    assert_eq!(found.last_accessed, Timestamp { secs: -5, nanos: 999_999_999 });
    assert_eq!(found, file_wrapper);
}

#[test]
fn get_all_files_should_return_empty_vec_if_no_stored_file() {
    let mut dbcontext = DbContext::new();
    let init_result = dbcontext.init();
    assert!(init_result.is_ok());
    let result = dbcontext.get_all_files();
    assert_eq!(result, Ok(vec![]));
}

#[test]
fn get_all_files_should_get_stored_files() {
    let mut dbcontext = DbContext::new();
    let init_result = dbcontext.init();
    assert!(init_result.is_ok());
    let stored_file_wrapper_1 = FileWrapper {
        id: "id1".to_string(),
        name: "name1".to_string(),
        mime_type: "mime_type1".to_string(),
        path: "dbcontext1.rs".to_string(),
        directory: false,
        web_view_link: Some("web_view_link1".to_string()),
        owned_by_me: true,
        last_modified: now(),
        last_accessed: now(),
        trashed: false,
    };
    let stored_file_wrapper_2 = FileWrapper {
        id: "id2".to_string(),
        name: "name2".to_string(),
        mime_type: "mime_type2".to_string(),
        path: "dbcontext2.rs".to_string(),
        directory: true,
        web_view_link: Some("web_view_link2".to_string()),
        owned_by_me: false,
        last_modified: a_minute_after(now()),
        last_accessed: a_minute_after(now()),
        trashed: true,
    };
    assert!(dbcontext.store_file(&stored_file_wrapper_1).is_ok());
    assert!(dbcontext.store_file(&stored_file_wrapper_2).is_ok());
    let result = dbcontext.get_file(&stored_file_wrapper_2.id);
    assert_eq!(result.unwrap().unwrap(), stored_file_wrapper_2);
    assert_eq!(
        dbcontext.get_all_files(),
        Ok(vec![stored_file_wrapper_1, stored_file_wrapper_2])
    );
}

#[test]
fn update_last_accessed_should_update_last_accessed() {
    let mut dbcontext = DbContext::new();
    let init_result = dbcontext.init();
    assert!(init_result.is_ok());
    let file_wrapper = a_file_wrapper();
    assert!(dbcontext.store_file(&file_wrapper).is_ok());
    let time = now();
    let result = dbcontext.update_last_accessed(&file_wrapper.id, &time);
    assert!(result.is_ok());
    let stored_last_accessed = dbcontext
        .get_file(&file_wrapper.id)
        .map(|found| found.unwrap().last_accessed);
    assert_eq!(stored_last_accessed.unwrap(), time);
}

#[test]
fn update_last_accessed_changes_no_other_column() {
    let mut dbcontext = DbContext::new();
    assert!(dbcontext.init().is_ok());
    let file_wrapper = a_file_wrapper();
    let mut other = a_file_wrapper();
    other.id = "other".to_string();
    assert!(dbcontext.store_file(&file_wrapper).is_ok());
    assert!(dbcontext.store_file(&other).is_ok());
    let time = Timestamp::new(1000, 5);
    assert!(dbcontext.update_last_accessed(&file_wrapper.id, &time).is_ok());
    let mut expected = file_wrapper.clone();
    expected.last_accessed = time;
    assert_eq!(stored_rows(&dbcontext), vec![expected, other]);
}

#[test]
fn update_last_accessed_of_unknown_id_changes_nothing() {
    let mut dbcontext = DbContext::new();
    assert!(dbcontext.init().is_ok());
    let file_wrapper = a_file_wrapper();
    assert!(dbcontext.store_file(&file_wrapper).is_ok());
    let result = dbcontext.update_last_accessed(&"unknown".to_string(), &Timestamp::new(7, 0));
    assert_eq!(result, Ok(()));
    assert_eq!(stored_rows(&dbcontext), vec![file_wrapper]);
}

#[test]
fn transaction_should_rollback_transaction_on_error() {
    let mut dbcontext = DbContext::new();
    let init_result = dbcontext.init();
    assert!(init_result.is_ok());
    let result = dbcontext.transaction(|cache: &mut DbContext| -> Result<(), Error> {
        let file_wrapper = a_file_wrapper();
        cache
            .store_file(&file_wrapper)
            .map_err(|_| Error::InvalidQuery)?;
        Err(Error::SqliteFailure(
            rusqlite::ffi::Error {
                code: ErrorCode::OutOfMemory,
                extended_code: 1,
            },
            Some("Something went wrong".to_string()),
        ))
    });
    let expected_error = Error::SqliteFailure(
        rusqlite::ffi::Error {
            code: ErrorCode::OutOfMemory,
            extended_code: 1,
        },
        Some("Something went wrong".to_string()),
    );
    assert_eq!(result.unwrap_err(), expected_error);

    let count = stored_rows(&dbcontext).len();
    assert_eq!(count, 0);
}

#[test]
fn transaction_should_commit_transaction_on_success() {
    let mut dbcontext = DbContext::new();
    let init_result = dbcontext.init();
    assert!(init_result.is_ok());
    let expected_file_wrapper = a_file_wrapper();
    let result = dbcontext.transaction(|cache: &mut DbContext| -> Result<(), CacheError> {
        cache.store_file(&expected_file_wrapper)?;
        Ok(())
    });
    assert!(result.is_ok());

    let mut rows = stored_rows(&dbcontext);
    assert_eq!(rows.len(), 1);
    let actual_file_wrapper = rows.pop();
    assert_eq!(actual_file_wrapper.unwrap(), expected_file_wrapper);
}

#[test]
fn transaction_rolls_back_a_batch_that_fails_partway() {
    let mut dbcontext = DbContext::new();
    assert!(dbcontext.init().is_ok());
    let kept = a_file_wrapper();
    assert!(dbcontext.store_file(&kept).is_ok());
    let before = stored_rows(&dbcontext);
    let result = dbcontext.transaction(|cache: &mut DbContext| -> Result<(), String> {
        let mut position = 0;
        while position < 5 {
            if position == 3 {
                return Err("failed at the fourth record".to_string());
            }
            let mut file_wrapper = a_file_wrapper();
            file_wrapper.id = format!("batch {}", position);
            cache.store_file(&file_wrapper).map_err(|_| "no table".to_string())?;
            position += 1;
        }
        Ok(())
    });
    assert_eq!(result, Err("failed at the fourth record".to_string()));
    assert_eq!(stored_rows(&dbcontext), before);
    let mut position = 0;
    while position < 5 {
        assert_eq!(dbcontext.get_file(&format!("batch {}", position)), Ok(None));
        position += 1;
    }
}

#[test]
fn transaction_rolls_back_changes_to_known_rows() {
    let mut dbcontext = DbContext::new();
    assert!(dbcontext.init().is_ok());
    let kept = a_file_wrapper();
    assert!(dbcontext.store_file(&kept).is_ok());
    let result = dbcontext.transaction(|cache: &mut DbContext| -> Result<(), u8> {
        let mut changed = a_file_wrapper();
        changed.last_modified = a_minute_after(changed.last_modified);
        changed.name = "changed".to_string();
        cache.store_file(&changed).map_err(|_| 1u8)?;
        cache
            .update_last_accessed(&changed.id, &Timestamp::new(9, 9))
            .map_err(|_| 2u8)?;
        Err(3u8)
    });
    assert_eq!(result, Err(3u8));
    assert_eq!(stored_rows(&dbcontext), vec![kept]);
}

#[test]
fn transaction_rolls_back_the_creation_of_the_table() {
    let mut dbcontext = DbContext::new();
    let result = dbcontext.transaction(|cache: &mut DbContext| -> Result<(), u8> {
        cache.init().map_err(|_| 1u8)?;
        Err(2u8)
    });
    assert_eq!(result, Err(2u8));
    assert_eq!(dbcontext.get_all_files(), Err(CacheError::MissingTable));
}

#[test]
fn a_new_record_is_inserted() {
    assert_eq!(store_action(None, &a_file_wrapper()), StoreAction::Insert);
}

#[test]
fn a_record_with_another_last_modified_is_updated() {
    let existing = a_file_wrapper();
    let mut incoming = a_file_wrapper();
    incoming.last_modified = a_minute_after(existing.last_modified);
    assert_eq!(store_action(Some(&existing), &incoming), StoreAction::Update);
    incoming.last_modified = Timestamp::new(existing.last_modified.secs, existing.last_modified.nanos + 1);
    assert_eq!(store_action(Some(&existing), &incoming), StoreAction::Update);
    incoming.last_modified = Timestamp::new(existing.last_modified.secs - 1, existing.last_modified.nanos);
    assert_eq!(store_action(Some(&existing), &incoming), StoreAction::Update);
}

#[test]
fn a_record_with_the_same_last_modified_is_left() {
    let existing = a_file_wrapper();
    let mut incoming = a_file_wrapper();
    incoming.last_modified = existing.last_modified;
    incoming.name = "updated name".to_string();
    incoming.last_accessed = a_minute_after(existing.last_accessed);
    incoming.trashed = true;
    assert_eq!(store_action(Some(&existing), &incoming), StoreAction::Nothing);
}
