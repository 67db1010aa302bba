use vstd::prelude::*;

verus! {

/// Metadata of one file or directory, as reported to the presentation layer.
#[derive(Debug, Clone)]
pub struct FileMetadata {
    pub path: String,
    pub name: String,
    pub size: u64,
    pub is_directory: bool,
    pub is_file: bool,
    pub is_symlink: bool,
    pub readonly: bool,
    pub hidden: bool,
    pub created: Option<u64>,
    pub modified: Option<u64>,
    pub accessed: Option<u64>,
    pub permissions: String,
    pub extension: Option<String>,
    pub mime_type: Option<String>,
}

/// One child of a listed directory.
#[derive(Debug, Clone)]
pub struct DirectoryEntry {
    pub name: String,
    pub path: String,
    pub is_directory: bool,
    pub size: Option<u64>,
    pub modified: Option<u64>,
    pub permissions: String,
    pub icon: String,
}

/// Envelope returned by every mutating operation that succeeded.
#[derive(Debug, Clone)]
pub struct FileOperationResult {
    pub success: bool,
    pub message: String,
    pub path: Option<String>,
    pub error_code: Option<String>,
}

/// What `read_file` hands back.
#[derive(Debug, Clone)]
pub struct FileContent {
    pub path: String,
    pub content: String,
    pub encoding: String,
    pub size: u64,
    pub is_binary: bool,
}

/// The visible children of a directory, in display order.
#[derive(Debug, Clone)]
pub struct DirectoryListing {
    pub path: String,
    pub entries: Vec<DirectoryEntry>,
    pub total_count: usize,
    pub hidden_count: usize,
    pub error: Option<String>,
}

/// A change seen under a watched directory.
#[derive(Debug, Clone)]
pub struct WatchEvent {
    pub event_type: WatchEventType,
    pub path: String,
    pub timestamp: u64,
}

/// The kinds of change a watcher reports.
#[derive(Debug, Clone, Copy, PartialEq, Eq, Structural)]
pub enum WatchEventType {
    Created,
    Modified,
    Deleted,
    Renamed,
    Other,
}

/// Facts about the host machine.
#[derive(Debug, Clone)]
pub struct SystemInfo {
    pub os: String,
    pub arch: String,
    pub platform: String,
    pub hostname: String,
    pub username: String,
    pub home_dir: Option<String>,
    pub current_dir: Option<String>,
    pub temp_dir: String,
    pub path_separator: String,
}

/// Service-wide switches for the mutating operations.
#[derive(Debug, Clone, Copy, PartialEq, Eq, Structural)]
pub struct FileOperationConfig {
    pub overwrite: bool,
    pub create_parent_dirs: bool,
    pub preserve_permissions: bool,
    pub follow_symlinks: bool,
}

/// The closed set of failures of every operation.
#[derive(Debug, Clone, PartialEq, Eq)]
pub enum FileSystemError {
    NotFound,
    PermissionDenied,
    AlreadyExists,
    InvalidPath,
    IOError(String),
    UnknownError(String),
}

/// The human-readable text of an error.
pub open spec fn error_text(e: FileSystemError) -> Seq<char> {
    match e {
        FileSystemError::NotFound => "File or directory not found"@,
        FileSystemError::PermissionDenied => "Permission denied"@,
        FileSystemError::AlreadyExists => "File or directory already exists"@,
        FileSystemError::InvalidPath => "Invalid path"@,
        FileSystemError::IOError(m) => "IO Error: "@ + m@,
        FileSystemError::UnknownError(m) => "Unknown error: "@ + m@,
    }
}

impl FileSystemError {
    /// The message shown to a user for this error.
    pub fn message(&self) -> (r: String)
        ensures
            r@ == error_text(*self),
    {
        match self {
            FileSystemError::NotFound => "File or directory not found".to_owned(),
            FileSystemError::PermissionDenied => "Permission denied".to_owned(),
            FileSystemError::AlreadyExists => "File or directory already exists".to_owned(),
            FileSystemError::InvalidPath => "Invalid path".to_owned(),
            FileSystemError::IOError(m) => {
                let mut s = "IO Error: ".to_owned();
                s.append(m.as_str());
                s
            },
            FileSystemError::UnknownError(m) => {
                let mut s = "Unknown error: ".to_owned();
                s.append(m.as_str());
                s
            },
        }
    }
}

/// Criteria of a content search.
#[derive(Debug, Clone)]
pub struct SearchCriteria {
    pub query: String,
    pub case_sensitive: bool,
    pub regex: bool,
    pub include_hidden: bool,
    pub file_extensions: Vec<String>,
    pub max_results: Option<usize>,
}

/// The matches of a search within one file.
#[derive(Debug, Clone)]
pub struct SearchResult {
    pub path: String,
    pub matches: Vec<SearchMatch>,
    pub total_matches: usize,
}

/// One match of a search.
#[derive(Debug, Clone)]
pub struct SearchMatch {
    pub line_number: usize,
    pub column: usize,
    pub text: String,
    pub preview: String,
}

/// A project workspace.
#[derive(Debug, Clone)]
pub struct WorkspaceInfo {
    pub path: String,
    pub name: String,
    pub config_files: Vec<String>,
    pub git_repository: Option<GitInfo>,
    pub project_type: Option<String>,
}

/// State of a Git repository.
#[derive(Debug, Clone)]
pub struct GitInfo {
    pub branch: String,
    pub remote_url: Option<String>,
    pub has_changes: bool,
    pub ahead: usize,
    pub behind: usize,
}

/// Editor preferences.
#[derive(Debug, Clone)]
pub struct AppPreferences {
    pub theme: String,
    pub font_family: String,
    pub font_size: u8,
    pub tab_size: u8,
    pub word_wrap: bool,
    pub show_hidden_files: bool,
    pub auto_save: bool,
    pub auto_save_delay: u32,
}

/// Outcome of running an external command.
#[derive(Debug, Clone)]
pub struct CommandResult {
    pub success: bool,
    pub stdout: String,
    pub stderr: String,
    pub exit_code: Option<i32>,
    pub execution_time_ms: u64,
}

} // verus!
