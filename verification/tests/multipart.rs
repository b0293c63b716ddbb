use nowledgemem::multipart::{
    upload_response_kind, DataImportUploadRequest, FolderUploadError, FolderUploadFile,
    SourceFileUploadRequest, SourceFolderUploadRequest, UploadResponseKind,
};
use reqwest::multipart::Part;

#[test]
fn import_form_holds_file_and_set_options() {
    let mut request =
        DataImportUploadRequest::new(Part::bytes(b"zip-bytes".to_vec()).file_name("backup.zip"));
    request.mode = Some("merge".to_string());
    request.include_memories = Some(true);
    request.include_edges = Some(false);
    let form = format!("{:?}", request.into_form());
    assert!(form.contains("\"file\""));
    assert!(form.contains("\"mode\""));
    assert!(form.contains("\"include_memories\""));
    assert!(form.contains("\"include_edges\""));
    assert!(!form.contains("\"include_threads\""));
}

#[test]
fn source_file_form_skips_empty_options() {
    let mut request = SourceFileUploadRequest::new(
        Part::bytes(b"hello".to_vec())
            .file_name("note.md")
            .mime_str("text/markdown")
            .unwrap(),
    );
    request.space_id = Some("work".to_string());
    request.labels = Some("label_a,label_b".to_string());
    request.metadata = Some(String::new());
    let form = format!("{:?}", request.into_form());
    assert!(form.contains("\"space_id\""));
    assert!(form.contains("\"labels\""));
    assert!(!form.contains("\"metadata\""));
    assert!(!form.contains("\"user_comment\""));
}

#[test]
fn folder_upload_validates_before_building() {
    let empty = SourceFolderUploadRequest::new("docs", Vec::new());
    let err = empty.into_form().unwrap_err();
    assert_eq!(err, FolderUploadError::FileRequired);
    assert!(err.message().contains("at least one file is required"));

    let file = FolderUploadFile::new(Part::bytes(b"alpha".to_vec()).file_name("a.md"));
    let unnamed = SourceFolderUploadRequest::new("", vec![file]);
    let err = unnamed.into_form().unwrap_err();
    assert_eq!(err, FolderUploadError::FolderNameRequired);
    assert_eq!(err.message(), "folder_name is required");
}

#[test]
fn folder_upload_form_holds_every_file() {
    let files = vec![
        FolderUploadFile::new(Part::bytes(b"alpha".to_vec()).file_name("a.md")),
        FolderUploadFile::new(Part::bytes(b"beta".to_vec()).file_name("b.md")),
    ];
    let mut request = SourceFolderUploadRequest::new("docs", files);
    request.file_manifest = Some(r#"[{"relative_path":"a.md"}]"#.to_string());
    request.emit_feed_event = Some(true);
    let form = format!("{:?}", request.into_form().unwrap());
    assert_eq!(form.matches("\"files\"").count(), 2);
    assert!(form.contains("\"folder_name\""));
    assert!(form.contains("\"file_manifest\""));
    assert!(form.contains("\"emit_feed_event\""));
}

#[test]
fn upload_responses_are_told_apart_by_status() {
    assert_eq!(upload_response_kind(200), UploadResponseKind::Success);
    assert_eq!(upload_response_kind(422), UploadResponseKind::ValidationError);
    assert_eq!(upload_response_kind(201), UploadResponseKind::Unexpected);
    assert_eq!(upload_response_kind(500), UploadResponseKind::Unexpected);
}
