use vstd::prelude::*;

verus! {

#[derive(Clone, Copy, Debug, PartialEq, Eq, Structural)]
pub enum HttpMethod {
    Get,
    Post,
    Put,
    Patch,
    Delete,
}

/// The service's remote operations that take an authorization header.
#[derive(Clone, Debug)]
pub enum Endpoint {
    RefreshSession,
    ListFiles { search: String },
    RegisterFile,
    SetUploadStatus { file_id: String },
    RemoveFile { file_id: String },
    ToggleVisibility { file_id: String },
    RenameFile { file_id: String },
    GetFile { file_id: String },
    IncrementDownloadCount { file_id: String },
}

pub open spec fn endpoint_method(e: Endpoint) -> HttpMethod {
    match e {
        Endpoint::RefreshSession => HttpMethod::Get,
        Endpoint::ListFiles { .. } => HttpMethod::Get,
        Endpoint::RegisterFile => HttpMethod::Post,
        Endpoint::SetUploadStatus { .. } => HttpMethod::Patch,
        Endpoint::RemoveFile { .. } => HttpMethod::Delete,
        Endpoint::ToggleVisibility { .. } => HttpMethod::Patch,
        Endpoint::RenameFile { .. } => HttpMethod::Patch,
        Endpoint::GetFile { .. } => HttpMethod::Get,
        Endpoint::IncrementDownloadCount { .. } => HttpMethod::Patch,
    }
}

/// The path and query of each operation, below the API's base URL.
pub open spec fn endpoint_path(e: Endpoint) -> Seq<char> {
    match e {
        Endpoint::RefreshSession => "/auth/refresh-token"@,
        Endpoint::ListFiles { search } => "/api/files?search="@ + search@ + "&page=1&limit=100"@,
        Endpoint::RegisterFile => "/api/files/add"@,
        Endpoint::SetUploadStatus { file_id } => "/api/files/update-upload-status/"@ + file_id@,
        Endpoint::RemoveFile { file_id } => "/api/files/remove/"@ + file_id@,
        Endpoint::ToggleVisibility { file_id } => "/api/files/toggle-visibility/"@ + file_id@,
        Endpoint::RenameFile { file_id } => "/api/files/rename/"@ + file_id@,
        Endpoint::GetFile { file_id } => "/api/files/"@ + file_id@,
        Endpoint::IncrementDownloadCount { file_id } => "/api/files/increment-download-count/"@
            + file_id@,
    }
}

impl Endpoint {
    pub fn method(&self) -> (r: HttpMethod)
        ensures
            r == endpoint_method(*self),
    {
        match self {
            Endpoint::RefreshSession => HttpMethod::Get,
            Endpoint::ListFiles { .. } => HttpMethod::Get,
            Endpoint::RegisterFile => HttpMethod::Post,
            Endpoint::SetUploadStatus { .. } => HttpMethod::Patch,
            Endpoint::RemoveFile { .. } => HttpMethod::Delete,
            Endpoint::ToggleVisibility { .. } => HttpMethod::Patch,
            Endpoint::RenameFile { .. } => HttpMethod::Patch,
            Endpoint::GetFile { .. } => HttpMethod::Get,
            Endpoint::IncrementDownloadCount { .. } => HttpMethod::Patch,
        }
    }

    /// Whether the call presents the refresh token rather than the access token.
    pub fn uses_refresh_token(&self) -> (r: bool)
        ensures
            r == (*self is RefreshSession),
    {
        match self {
            Endpoint::RefreshSession => true,
            _ => false,
        }
    }

    /// The full URL of the operation under `base`.
    pub fn url(&self, base: &str) -> (r: String)
        ensures
            r@ == base@ + endpoint_path(*self),
    {
        let mut u = base.to_owned();
        match self {
            Endpoint::RefreshSession => u.append("/auth/refresh-token"),
            Endpoint::ListFiles { search } => {
                u.append("/api/files?search=");
                u.append(search.as_str());
                u.append("&page=1&limit=100");
            },
            Endpoint::RegisterFile => u.append("/api/files/add"),
            Endpoint::SetUploadStatus { file_id } => {
                u.append("/api/files/update-upload-status/");
                u.append(file_id.as_str());
            },
            Endpoint::RemoveFile { file_id } => {
                u.append("/api/files/remove/");
                u.append(file_id.as_str());
            },
            Endpoint::ToggleVisibility { file_id } => {
                u.append("/api/files/toggle-visibility/");
                u.append(file_id.as_str());
            },
            Endpoint::RenameFile { file_id } => {
                u.append("/api/files/rename/");
                u.append(file_id.as_str());
            },
            Endpoint::GetFile { file_id } => {
                u.append("/api/files/");
                u.append(file_id.as_str());
            },
            Endpoint::IncrementDownloadCount { file_id } => {
                u.append("/api/files/increment-download-count/");
                u.append(file_id.as_str());
            },
        }
        assert(u@ =~= base@ + endpoint_path(*self));
        u
    }
}

/// The MIME type guessed for a file from its path's extension.
pub uninterp spec fn guessed_mime(path: Seq<char>) -> Seq<char>;

/// Relies on `mime_guess::from_path(..).first_or_octet_stream()`: the first
/// MIME type known for the path's extension, `application/octet-stream`
/// when none is; it looks at the path text only.
#[verifier::external_body]
fn guess_mime(path: &str) -> (r: String)
    ensures
        r@ == guessed_mime(path@),
{
    mime_guess::from_path(path).first_or_octet_stream().to_string()
}

/// The fields of a "register file" call.
#[derive(Clone, Debug)]
pub struct UploadRequest {
    pub file_name: String,
    pub mime_type: String,
    pub file_size: u64,
}

/// The registration of a local file at `path`, to be stored as `file_name`,
/// of `file_size` bytes; its MIME type is guessed from the path.
pub fn upload_request(file_name: &str, path: &str, file_size: u64) -> (r: UploadRequest)
    ensures
        r.file_name@ == file_name@,
        r.mime_type@ == guessed_mime(path@),
        r.file_size == file_size,
{
    UploadRequest { file_name: file_name.to_owned(), mime_type: guess_mime(path), file_size }
}

} // verus!
