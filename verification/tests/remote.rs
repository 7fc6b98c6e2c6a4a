use rdrive::hierarchy::Platform;
use rdrive::record::FileWrapper;
use rdrive::remote::{
    collect_page, convert_to_file, convert_to_file_wrapper, parent_folder_name, RemoteFile,
    RemotePage, UploadRequest,
};
use rdrive::timestamp::Timestamp;

fn remote_file(id: &str) -> RemoteFile {
    RemoteFile {
        id: id.to_string(),
        name: "name".to_string(),
        mime_type: "text/plain".to_string(),
        parents: Some(vec!["parent".to_string(), "other".to_string()]),
        owned_by_me: Some(false),
        web_view_link: Some("link".to_string()),
        modified_time: Timestamp::new(100, 7),
        trashed: Some(true),
    }
}

fn file_wrapper(path: &str, directory: bool) -> FileWrapper {
    FileWrapper {
        id: "id".to_string(),
        name: "name".to_string(),
        mime_type: "text/plain".to_string(),
        path: path.to_string(),
        directory,
        web_view_link: None,
        owned_by_me: true,
        last_modified: Timestamp::new(1, 0),
        last_accessed: Timestamp::new(2, 0),
        trashed: false,
    }
}

#[test]
fn a_listed_file_becomes_a_record_that_was_never_transferred() {
    assert_eq!(
        convert_to_file_wrapper(&remote_file("id"), "docs/name"),
        FileWrapper {
            id: "id".to_string(),
            name: "name".to_string(),
            mime_type: "text/plain".to_string(),
            path: "docs/name".to_string(),
            directory: false,
            web_view_link: Some("link".to_string()),
            owned_by_me: false,
            last_modified: Timestamp::new(100, 7),
            last_accessed: Timestamp::new(0, 0),
            trashed: true,
        }
    );
}

#[test]
fn what_the_store_does_not_say_is_owned_and_not_trashed() {
    let mut file = remote_file("id");
    file.owned_by_me = None;
    file.trashed = None;
    file.web_view_link = None;
    let converted = convert_to_file_wrapper(&file, "name");
    assert!(converted.owned_by_me);
    assert!(!converted.trashed);
    assert_eq!(converted.web_view_link, None);
}

#[test]
fn the_folder_type_makes_a_folder() {
    let mut file = remote_file("id");
    file.mime_type = "application/vnd.google-apps.folder".to_string();
    assert!(convert_to_file_wrapper(&file, "name").directory);
    file.mime_type = "application/vnd.google-apps.folders".to_string();
    assert!(!convert_to_file_wrapper(&file, "name").directory);
    file.mime_type = "application/vnd.google-apps.document".to_string();
    assert!(!convert_to_file_wrapper(&file, "name").directory);
}

#[test]
fn first_parent_is_the_first_of_the_parents() {
    let mut file = remote_file("id");
    assert_eq!(file.first_parent(), Some(&"parent".to_string()));
    file.parents = Some(vec![]);
    assert_eq!(file.first_parent(), None);
    file.parents = None;
    assert_eq!(file.first_parent(), None);
}

#[test]
fn pages_are_gathered_in_their_order() {
    let mut gathered = vec![remote_file("one")];
    let page = RemotePage {
        files: vec![remote_file("two"), remote_file("three")],
        next_page_token: Some("next".to_string()),
    };
    let next = collect_page(&mut gathered, Some(page));
    assert_eq!(next, Some("next".to_string()));
    assert_eq!(gathered, vec![remote_file("one"), remote_file("two"), remote_file("three")]);
    let last = RemotePage { files: vec![remote_file("four")], next_page_token: None };
    assert_eq!(collect_page(&mut gathered, Some(last)), None);
    assert_eq!(gathered.len(), 4);
    assert_eq!(gathered[3], remote_file("four"));
}

#[test]
fn a_failed_request_ends_the_listing_with_what_was_gathered() {
    let mut gathered = vec![remote_file("one"), remote_file("two")];
    assert_eq!(collect_page(&mut gathered, None), None);
    assert_eq!(gathered, vec![remote_file("one"), remote_file("two")]);
    let mut nothing: Vec<RemoteFile> = Vec::new();
    assert_eq!(collect_page(&mut nothing, None), None);
    assert_eq!(nothing, vec![]);
}

#[test]
fn the_parent_folder_is_the_segment_before_the_last() {
    assert_eq!(parent_folder_name("a/b/c.txt", '/'), Some("b".to_string()));
    assert_eq!(parent_folder_name("b/c.txt", '/'), Some("b".to_string()));
    assert_eq!(parent_folder_name("c.txt", '/'), None);
    assert_eq!(parent_folder_name("", '/'), None);
    assert_eq!(parent_folder_name("a\\b\\c", '\\'), Some("b".to_string()));
    assert_eq!(parent_folder_name("a\\b/c", '/'), Some("a\\b".to_string()));
    assert_eq!(parent_folder_name("/c", '/'), Some(String::new()));
    assert_eq!(parent_folder_name("a//c", '/'), Some(String::new()));
    assert_eq!(parent_folder_name("a/b/", '/'), Some("b".to_string()));
}

#[test]
fn a_file_in_a_folder_is_sent_with_the_folder_as_parent() {
    assert_eq!(
        convert_to_file(&file_wrapper("docs/sub/name", false), Platform::Linux),
        UploadRequest {
            name: "name".to_string(),
            mime_type: "text/plain".to_string(),
            parents: Some(vec!["sub".to_string()]),
        }
    );
    assert_eq!(
        convert_to_file(&file_wrapper("docs\\sub\\name", false), Platform::Windows).parents,
        Some(vec!["sub".to_string()])
    );
    assert_eq!(convert_to_file(&file_wrapper("docs\\name", false), Platform::Linux).parents, None);
}

#[test]
fn a_file_in_the_root_is_sent_without_parent() {
    assert_eq!(
        convert_to_file(&file_wrapper("name", false), Platform::Linux),
        UploadRequest { name: "name".to_string(), mime_type: "text/plain".to_string(), parents: None }
    );
}

#[test]
fn a_folder_is_sent_with_the_folder_type() {
    assert_eq!(
        convert_to_file(&file_wrapper("docs/name", true), Platform::MacOs),
        UploadRequest {
            name: "name".to_string(),
            mime_type: "application/vnd.google-apps.folder".to_string(),
            parents: Some(vec!["docs".to_string()]),
        }
    );
}
