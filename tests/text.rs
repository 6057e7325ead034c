use shc::endpoints::{upload_request, Endpoint, HttpMethod};
use shc::listing::{display_name, visibility_label};

#[test]
fn endpoint_urls() {
    let base = "https://api.example";
    assert_eq!(Endpoint::RefreshSession.url(base), "https://api.example/auth/refresh-token");
    assert_eq!(
        Endpoint::ListFiles { search: "rep".to_string() }.url(base),
        "https://api.example/api/files?search=rep&page=1&limit=100"
    );
    assert_eq!(Endpoint::RegisterFile.url(base), "https://api.example/api/files/add");
    let id = || "f9".to_string();
    assert_eq!(Endpoint::SetUploadStatus { file_id: id() }.url(base), "https://api.example/api/files/update-upload-status/f9");
    assert_eq!(Endpoint::RemoveFile { file_id: id() }.url(base), "https://api.example/api/files/remove/f9");
    assert_eq!(Endpoint::ToggleVisibility { file_id: id() }.url(base), "https://api.example/api/files/toggle-visibility/f9");
    assert_eq!(Endpoint::RenameFile { file_id: id() }.url(base), "https://api.example/api/files/rename/f9");
    assert_eq!(Endpoint::GetFile { file_id: id() }.url(base), "https://api.example/api/files/f9");
    assert_eq!(
        Endpoint::IncrementDownloadCount { file_id: id() }.url(base),
        "https://api.example/api/files/increment-download-count/f9"
    );
}

#[test]
fn endpoint_methods() {
    assert_eq!(Endpoint::RefreshSession.method(), HttpMethod::Get);
    assert!(Endpoint::RefreshSession.uses_refresh_token());
    assert_eq!(Endpoint::RegisterFile.method(), HttpMethod::Post);
    assert!(!Endpoint::RegisterFile.uses_refresh_token());
    assert_eq!(Endpoint::RemoveFile { file_id: "x".to_string() }.method(), HttpMethod::Delete);
    assert_eq!(Endpoint::RenameFile { file_id: "x".to_string() }.method(), HttpMethod::Patch);
}

#[test]
fn mime_type_is_guessed_from_extension() {
    let r = upload_request("cat.png", "/home/ann/cat.png", 12);
    assert_eq!(r.file_name, "cat.png");
    assert_eq!(r.mime_type, "image/png");
    assert_eq!(r.file_size, 12);
    assert_eq!(upload_request("blob", "/home/ann/blob", 1).mime_type, "application/octet-stream");
}

#[test]
fn long_names_are_shortened() {
    assert_eq!(display_name("short.txt"), "short.txt");
    let long = "a".repeat(55);
    let shown = display_name(&long);
    assert_eq!(shown, format!("{}...", "a".repeat(50)));
    let exact = "b".repeat(50);
    assert_eq!(display_name(&exact), exact);
}

#[test]
fn visibility_words() {
    assert_eq!(visibility_label(true), "Public");
    assert_eq!(visibility_label(false), "Private");
}
