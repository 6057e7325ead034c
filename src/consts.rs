use vstd::prelude::*;

verus! {

/// Where the service's API lives.
pub const SHC_BACKEND_API_BASE_URL: &'static str = "https://shc-backend-production.up.railway.app";

/// The folder, under the home directory, that holds the user record.
pub const SHC_CLI_FOLDER_NAME: &'static str = ".shc-cli";

/// The user record's file name inside that folder.
pub const USER_CONFIG_FILE_NAME: &'static str = "config.toml";

/// The per-directory ignore file honoured by the archiver.
pub const SHC_IGNORE_FILE_NAME: &'static str = ".shcignore";

/// Widest file name shown in a listing before it is shortened.
pub const MAX_NAME_WIDTH_LENGTH: usize = 50;

/// Largest archive, in bytes, made of a directory before upload.
pub const ARCHIVE_SIZE_LIMIT: u64 = 30 * 1024 * 1024;

} // verus!
