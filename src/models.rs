use vstd::prelude::*;

verus! {

/// The identity of a signed-in user, as the service reports it.
#[derive(Clone, Debug)]
pub struct User {
    pub id: String,
    pub name: String,
    pub email: String,
}

/// Body of a successful session refresh.
#[derive(Clone, Debug)]
pub struct RefreshTokenResponse {
    pub access_token: String,
    pub refresh_token: String,
    pub user: User,
}

/// A file as the service stores it.
#[derive(Clone, Debug)]
pub struct ShcFile {
    pub name: String,
    pub id: String,
    pub extension: String,
    pub mime_type: String,
    pub size: u64,
    pub is_public: bool,
    pub updated_at: String,
    pub user_id: String,
    pub download_url: Option<String>,
    pub upload_status: String,
}

/// One page of a file listing.
#[derive(Clone, Debug)]
pub struct ShcFileResponse {
    pub results: Vec<ShcFile>,
    pub total_results: u64,
    pub total_pages: u64,
    pub current_page: u64,
    pub previous_page: Option<u64>,
    pub next_page: Option<u64>,
    pub per_page: u64,
}

/// The ticket that registering a file hands back: where to send its bytes.
#[derive(Clone, Debug)]
pub struct AddFileResponse {
    pub upload_url: String,
    pub file_id: String,
    pub file_name: String,
    pub is_public: bool,
}

/// Server-side lifecycle of a registered file.
#[derive(Clone, Copy, Debug, PartialEq, Eq, Structural)]
pub enum UploadStatus {
    Pending,
    Uploading,
    Uploaded,
    Failed,
}

/// The word the service uses for each status.
pub open spec fn status_word(s: UploadStatus) -> Seq<char> {
    match s {
        UploadStatus::Pending => "pending"@,
        UploadStatus::Uploading => "uploading"@,
        UploadStatus::Uploaded => "uploaded"@,
        UploadStatus::Failed => "failed"@,
    }
}

impl UploadStatus {
    /// The status as it travels in a request body.
    pub fn as_str(&self) -> (r: &'static str)
        ensures
            r@ == status_word(*self),
    {
        match self {
            UploadStatus::Pending => "pending",
            UploadStatus::Uploading => "uploading",
            UploadStatus::Uploaded => "uploaded",
            UploadStatus::Failed => "failed",
        }
    }
}

} // verus!
