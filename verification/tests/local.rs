use rdrive::local::{local_file, local_file_of, local_mime_type, DEFAULT_MIME_TYPE};
use rdrive::record::{FileWrapper, DIRECTORY_MIME_TYPE};
use rdrive::timestamp::Timestamp;

#[test]
fn the_mime_type_is_guessed_from_the_path() {
    let file = local_file(
        "photo.png".to_string(),
        "pictures/photo.png".to_string(),
        false,
        Timestamp::new(5, 6),
    );
    assert_eq!(
        file,
        FileWrapper {
            id: String::new(),
            name: "photo.png".to_string(),
            mime_type: "image/png".to_string(),
            path: "pictures/photo.png".to_string(),
            directory: false,
            web_view_link: None,
            owned_by_me: true,
            last_modified: Timestamp::new(5, 6),
            last_accessed: Timestamp::new(5, 6),
            trashed: false,
        }
    );
    let page = local_file("a.HTML".to_string(), "a.HTML".to_string(), false, Timestamp::epoch());
    assert_eq!(page.mime_type, "text/html");
}

#[test]
fn a_path_that_tells_nothing_is_plain_text() {
    let file = local_file("notes".to_string(), "notes".to_string(), false, Timestamp::new(1, 0));
    assert_eq!(file.mime_type, "text/plain");
    let odd = local_file("a.zzzzzz".to_string(), "dir.png/a.zzzzzz".to_string(), false, Timestamp::new(1, 0));
    assert_eq!(odd.mime_type, DEFAULT_MIME_TYPE);
}

#[test]
fn a_folder_has_the_folder_type() {
    let folder = local_file("pics.png".to_string(), "pics.png".to_string(), true, Timestamp::new(1, 0));
    assert_eq!(folder.mime_type, "application/vnd.google-apps.folder");
    assert_eq!(folder.mime_type, DIRECTORY_MIME_TYPE);
    assert!(folder.directory);
}

#[test]
fn the_mime_type_is_chosen_from_the_guess() {
    assert_eq!(local_mime_type(Some("image/gif".to_string()), false), "image/gif");
    assert_eq!(local_mime_type(None, false), "text/plain");
    assert_eq!(local_mime_type(Some("image/gif".to_string()), true), DIRECTORY_MIME_TYPE);
    assert_eq!(local_mime_type(None, true), DIRECTORY_MIME_TYPE);
}

#[test]
fn a_local_file_is_made_of_what_is_given() {
    let file = local_file_of(
        "name".to_string(),
        "path/name".to_string(),
        false,
        Timestamp::new(8, 9),
        Some("application/x-test".to_string()),
    );
    assert_eq!(
        file,
        FileWrapper {
            id: String::new(),
            name: "name".to_string(),
            mime_type: "application/x-test".to_string(),
            path: "path/name".to_string(),
            directory: false,
            web_view_link: None,
            owned_by_me: true,
            last_modified: Timestamp::new(8, 9),
            last_accessed: Timestamp::new(8, 9),
            trashed: false,
        }
    );
}
