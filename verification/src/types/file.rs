//! File types.

use vstd::prelude::*;

verus! {

/// A file in the project.
#[derive(Debug, Clone)]
pub struct FileInfo {
    /// File path relative to project root.
    pub path: String,
    /// File size in bytes.
    pub size: Option<u64>,
    /// Whether this is a directory.
    pub is_directory: bool,
    /// Last modified timestamp.
    pub modified: Option<i64>,
}

/// File content response.
#[derive(Debug, Clone)]
pub struct FileContent {
    /// File content.
    pub content: String,
    /// MIME type.
    pub mime_type: Option<String>,
    /// Encoding (e.g., "utf-8", "base64").
    pub encoding: Option<String>,
    /// Content type ("text" or "binary"); `type` on the wire.
    pub type_: Option<String>,
}

/// File status in VCS.
#[derive(Debug, Clone)]
pub struct FileStatus {
    /// File path.
    pub path: String,
    /// VCS status (added, modified, deleted, etc.).
    pub status: String,
    /// Whether the file is staged.
    pub staged: bool,
}

/// Request to list files.
#[derive(Debug, Clone)]
pub struct ListFilesRequest {
    /// Directory to list (relative to project root).
    pub path: Option<String>,
    /// Whether to recurse into subdirectories.
    pub recursive: bool,
    /// Maximum number of files to return.
    pub limit: Option<u32>,
}

/// Request to read file content.
#[derive(Debug, Clone)]
pub struct ReadFileRequest {
    /// File path to read.
    pub path: String,
    /// Start line (1-indexed).
    pub start_line: Option<u32>,
    /// End line (1-indexed, inclusive).
    pub end_line: Option<u32>,
}

} // verus!
