use rdrive::record::FileWrapper;
use rdrive::remote::RemoteFile;
use rdrive::timestamp::Timestamp;
use rdrive::transfer::{download_kind, launcher, uploaded_file, DownloadKind};

fn file_wrapper(mime_type: &str, web_view_link: Option<&str>) -> FileWrapper {
    FileWrapper {
        id: "id".to_string(),
        name: "name".to_string(),
        mime_type: mime_type.to_string(),
        path: "docs/name".to_string(),
        directory: false,
        web_view_link: web_view_link.map(|link| link.to_string()),
        owned_by_me: true,
        last_modified: Timestamp::new(10, 0),
        last_accessed: Timestamp::new(20, 3),
        trashed: false,
    }
}

#[test]
fn documents_of_the_store_are_native() {
    let document = file_wrapper("application/vnd.google-apps.document", None);
    assert_eq!(download_kind(&document), DownloadKind::NativeDocument);
    assert_eq!(download_kind(&file_wrapper("google", None)), DownloadKind::NativeDocument);
    assert_eq!(download_kind(&file_wrapper("xgoogle", None)), DownloadKind::NativeDocument);
}

#[test]
fn other_files_are_binary() {
    assert_eq!(download_kind(&file_wrapper("image/png", None)), DownloadKind::BinaryFile);
    assert_eq!(download_kind(&file_wrapper("", None)), DownloadKind::BinaryFile);
    assert_eq!(download_kind(&file_wrapper("googl", None)), DownloadKind::BinaryFile);
    assert_eq!(download_kind(&file_wrapper("goo-gle", None)), DownloadKind::BinaryFile);
    assert_eq!(download_kind(&file_wrapper("Google", None)), DownloadKind::BinaryFile);
}

#[test]
fn the_launcher_opens_the_link() {
    let document = file_wrapper(
        "application/vnd.google-apps.document",
        Some("https://docs.example/d/1"),
    );
    assert_eq!(
        launcher(&document),
        Some("#!/usr/bin/env bash\nxdg-open https://docs.example/d/1".to_string())
    );
    assert_eq!(
        launcher(&file_wrapper("text/plain", Some(""))),
        Some("#!/usr/bin/env bash\nxdg-open ".to_string())
    );
}

#[test]
fn there_is_no_launcher_without_link() {
    assert_eq!(launcher(&file_wrapper("application/vnd.google-apps.document", None)), None);
}

#[test]
fn an_uploaded_file_has_the_path_of_the_local_file_and_the_time_it_was_sent() {
    let created = RemoteFile {
        id: "new id".to_string(),
        name: "name".to_string(),
        mime_type: "text/plain".to_string(),
        parents: Some(vec!["folder".to_string()]),
        owned_by_me: None,
        web_view_link: Some("link".to_string()),
        modified_time: Timestamp::new(30, 1),
        trashed: None,
    };
    let local = file_wrapper("text/x-local", None);
    assert_eq!(
        uploaded_file(&created, &local, Timestamp::new(25, 4)),
        FileWrapper {
            id: "new id".to_string(),
            name: "name".to_string(),
            mime_type: "text/plain".to_string(),
            path: "docs/name".to_string(),
            directory: false,
            web_view_link: Some("link".to_string()),
            owned_by_me: true,
            last_modified: Timestamp::new(30, 1),
            last_accessed: Timestamp::new(25, 4),
            trashed: false,
        }
    );
}
