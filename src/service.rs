use vstd::prelude::*;
use crate::content::{binary_content, has_nul_in_window, is_binary_prefix};
use crate::names::{
    extension, extension_of, hidden_name, is_hidden_name, leaf_of, lower_of, mime_of, mime_type,
    octal_permissions, octal_text, path_leaf,
};
use crate::types::{
    FileContent, FileMetadata, FileOperationConfig, FileOperationResult, FileSystemError,
};

verus! {

/// What was observed of a path just before an operation.
#[derive(Debug, Clone, Copy, PartialEq, Eq, Structural)]
pub struct PathState {
    pub exists: bool,
    pub is_file: bool,
    pub is_dir: bool,
}

/// The classes of operating-system failure that callers tell apart.
#[derive(Debug, Clone, Copy, PartialEq, Eq, Structural)]
pub enum IoErrorKind {
    NotFound,
    PermissionDenied,
    Other,
}

/// Maps an operating-system failure onto the error set: not-found and
/// permission failures keep their kind, everything else becomes an I/O error
/// carrying the system's message.
pub fn classify_io_error(kind: IoErrorKind, message: String) -> (r: FileSystemError)
    ensures
        match kind {
            IoErrorKind::NotFound => r == FileSystemError::NotFound,
            IoErrorKind::PermissionDenied => r == FileSystemError::PermissionDenied,
            IoErrorKind::Other => r matches FileSystemError::IOError(m) && m@ == message@,
        },
{
    match kind {
        IoErrorKind::NotFound => FileSystemError::NotFound,
        IoErrorKind::PermissionDenied => FileSystemError::PermissionDenied,
        IoErrorKind::Other => FileSystemError::IOError(message),
    }
}

/// The mutating operations, each with its success message.
#[derive(Debug, Clone, Copy, PartialEq, Eq, Structural)]
pub enum FileOperation {
    Write,
    CreateFile,
    CreateDirectory,
    DeleteFile,
    DeleteDirectory,
    Rename,
    Copy,
}

pub open spec fn success_text(op: FileOperation) -> Seq<char> {
    match op {
        FileOperation::Write => "File written successfully"@,
        FileOperation::CreateFile => "File created successfully"@,
        FileOperation::CreateDirectory => "Directory created successfully"@,
        FileOperation::DeleteFile => "File deleted successfully"@,
        FileOperation::DeleteDirectory => "Directory deleted successfully"@,
        FileOperation::Rename => "Renamed successfully"@,
        FileOperation::Copy => "File copied successfully"@,
    }
}

impl FileOperationResult {
    /// The envelope of an operation that succeeded on `path` (for a rename or
    /// a copy, the path that now holds the result).
    pub fn succeeded(op: FileOperation, path: &str) -> (r: FileOperationResult)
        ensures
            r.success,
            r.message@ == success_text(op),
            r.path matches Some(p) && p@ == path@,
            r.error_code is None,
    {
        let message = match op {
            FileOperation::Write => "File written successfully",
            FileOperation::CreateFile => "File created successfully",
            FileOperation::CreateDirectory => "Directory created successfully",
            FileOperation::DeleteFile => "File deleted successfully",
            FileOperation::DeleteDirectory => "Directory deleted successfully",
            FileOperation::Rename => "Renamed successfully",
            FileOperation::Copy => "File copied successfully",
        };
        FileOperationResult {
            success: true,
            message: message.to_owned(),
            path: Some(path.to_owned()),
            error_code: None,
        }
    }
}

/// The rule shared by the operations that need an existing path of one kind:
/// a missing path is not found, a path of the other kind is invalid.
pub open spec fn need_existing(t: PathState, kind_ok: bool) -> Result<(), FileSystemError> {
    if !t.exists {
        Err(FileSystemError::NotFound)
    } else if !kind_ok {
        Err(FileSystemError::InvalidPath)
    } else {
        Ok(())
    }
}

/// A target that exists may be replaced only when overwriting is allowed.
pub open spec fn may_replace(t: PathState, overwrite: bool) -> Result<(), FileSystemError> {
    if t.exists && !overwrite {
        Err(FileSystemError::AlreadyExists)
    } else {
        Ok(())
    }
}

/// A target that exists is never replaced.
pub open spec fn must_be_new(t: PathState) -> Result<(), FileSystemError> {
    if t.exists {
        Err(FileSystemError::AlreadyExists)
    } else {
        Ok(())
    }
}

pub open spec fn read_rule(t: PathState) -> Result<(), FileSystemError> {
    need_existing(t, t.is_file)
}

pub open spec fn delete_file_rule(t: PathState) -> Result<(), FileSystemError> {
    need_existing(t, t.is_file)
}

pub open spec fn delete_directory_rule(t: PathState) -> Result<(), FileSystemError> {
    need_existing(t, t.is_dir)
}

pub open spec fn metadata_rule(t: PathState) -> Result<(), FileSystemError> {
    need_existing(t, true)
}

pub open spec fn list_rule(t: PathState) -> Result<(), FileSystemError> {
    need_existing(t, t.is_dir)
}

pub open spec fn rename_rule(from: PathState, to: PathState, overwrite: bool) -> Result<
    (),
    FileSystemError,
> {
    if !from.exists {
        Err(FileSystemError::NotFound)
    } else {
        may_replace(to, overwrite)
    }
}

pub open spec fn copy_rule(source: PathState, dest: PathState, overwrite: bool) -> Result<
    (),
    FileSystemError,
> {
    match need_existing(source, source.is_file) {
        Err(e) => Err(e),
        Ok(_) => may_replace(dest, overwrite),
    }
}

fn check_existing(t: PathState, kind_ok: bool) -> (r: Result<(), FileSystemError>)
    ensures
        r == need_existing(t, kind_ok),
{
    if !t.exists {
        Err(FileSystemError::NotFound)
    } else if !kind_ok {
        Err(FileSystemError::InvalidPath)
    } else {
        Ok(())
    }
}

fn check_replace(t: PathState, overwrite: bool) -> (r: Result<(), FileSystemError>)
    ensures
        r == may_replace(t, overwrite),
{
    if t.exists && !overwrite {
        Err(FileSystemError::AlreadyExists)
    } else {
        Ok(())
    }
}

fn check_new(t: PathState) -> (r: Result<(), FileSystemError>)
    ensures
        r == must_be_new(t),
{
    if t.exists {
        Err(FileSystemError::AlreadyExists)
    } else {
        Ok(())
    }
}

/// What the operating system reported of a path's metadata. Each timestamp
/// is in seconds since the Unix epoch and is absent where the platform or the
/// filesystem does not report it.
#[derive(Debug, Clone, Copy, PartialEq, Eq, Structural)]
pub struct RawMetadata {
    pub size: u64,
    pub is_directory: bool,
    pub is_file: bool,
    pub is_symlink: bool,
    pub readonly: bool,
    pub created: Option<u64>,
    pub modified: Option<u64>,
    pub accessed: Option<u64>,
    pub mode: u32,
}

/// The name shown for a path: its leaf, or nothing.
pub open spec fn shown_name(path: Seq<char>) -> Seq<char> {
    match leaf_of(path) {
        Some(n) => n,
        None => Seq::empty(),
    }
}

/// The extension of a path's leaf.
pub open spec fn path_extension(path: Seq<char>) -> Option<Seq<char>> {
    match leaf_of(path) {
        Some(n) => extension_of(n),
        None => None,
    }
}

/// Whether `m` is what `get_metadata` reports of `path` with `raw` observed.
pub open spec fn metadata_of(m: FileMetadata, path: Seq<char>, raw: RawMetadata) -> bool {
    &&& m.path@ == path
    &&& m.name@ == shown_name(path)
    &&& m.size == raw.size
    &&& m.is_directory == raw.is_directory
    &&& m.is_file == raw.is_file
    &&& m.is_symlink == raw.is_symlink
    &&& m.readonly == raw.readonly
    &&& m.hidden == hidden_name(shown_name(path))
    &&& m.created == raw.created
    &&& m.modified == raw.modified
    &&& m.accessed == raw.accessed
    &&& m.permissions@ == octal_text(raw.mode as nat)
    &&& match path_extension(path) {
        Some(e) => m.extension matches Some(x) && x@ == e && match mime_of(lower_of(e)) {
            Some(t) => m.mime_type matches Some(y) && y@ == t,
            None => m.mime_type is None,
        },
        None => m.extension is None && m.mime_type is None,
    }
}

/// The metadata reported of `path`, from what the operating system gave.
/// A timestamp that was not available stays absent.
pub fn build_metadata(path: &str, raw: RawMetadata) -> (r: FileMetadata)
    ensures
        metadata_of(r, path@, raw),
{
    let leaf = path_leaf(path);
    let has_leaf = leaf.is_some();
    let name = match leaf {
        Some(n) => n,
        None => String::new(),
    };
    let hidden = is_hidden_name(name.as_str());
    let ext = if has_leaf {
        extension(name.as_str())
    } else {
        None
    };
    let mime = match &ext {
        Some(e) => mime_type(e.as_str()),
        None => None,
    };
    FileMetadata {
        path: path.to_owned(),
        name,
        size: raw.size,
        is_directory: raw.is_directory,
        is_file: raw.is_file,
        is_symlink: raw.is_symlink,
        readonly: raw.readonly,
        hidden,
        created: raw.created,
        modified: raw.modified,
        accessed: raw.accessed,
        permissions: octal_permissions(raw.mode),
        extension: ext,
        mime_type: mime,
    }
}

/// The first step of reading a file, once its leading bytes are in: a binary
/// file is answered at once (no text, its true size), a text file is `None`
/// and its whole text must be read next.
pub fn sniff_read(path: &str, head: &[u8], size: u64) -> (r: Option<FileContent>)
    ensures
        r is Some <==> has_nul_in_window(head@),
        r matches Some(c) ==> c.path@ == path@ && c.content@.len() == 0 && c.encoding@
            == "binary"@ && c.size == size && c.is_binary,
{
    if is_binary_prefix(head) {
        Some(binary_content(path, size))
    } else {
        None
    }
}

/// Reads and changes files under one shared configuration. Each `check_*`
/// method decides, from what was observed of the paths involved, whether the
/// operation may go ahead or which error it reports.
pub struct FileSystemService {
    config: FileOperationConfig,
}

/// The configuration a new service starts with.
pub open spec fn initial_config() -> FileOperationConfig {
    FileOperationConfig {
        overwrite: false,
        create_parent_dirs: true,
        preserve_permissions: true,
        follow_symlinks: false,
    }
}

impl FileSystemService {
    /// The configuration in force.
    pub closed spec fn conf(&self) -> FileOperationConfig {
        self.config
    }

    /// A service that does not overwrite and creates missing parents.
    pub fn new() -> (r: FileSystemService)
        ensures
            r.conf() == initial_config(),
    {
        FileSystemService {
            config: FileOperationConfig {
                overwrite: false,
                create_parent_dirs: true,
                preserve_permissions: true,
                follow_symlinks: false,
            },
        }
    }

    /// Replaces the configuration.
    pub fn set_config(&mut self, config: FileOperationConfig)
        ensures
            final(self).conf() == config,
    {
        self.config = config;
    }

    /// The configuration in force.
    pub fn get_config(&self) -> (r: &FileOperationConfig)
        ensures
            *r == self.conf(),
    {
        &self.config
    }

    /// Reading needs an existing regular file.
    pub fn check_read(&self, target: PathState) -> (r: Result<(), FileSystemError>)
        ensures
            r == read_rule(target),
    {
        check_existing(target, target.is_file)
    }

    /// Whether a write first creates the target's missing parent directories.
    pub fn creates_parents_on_write(&self) -> (r: bool)
        ensures
            r == self.conf().create_parent_dirs,
    {
        self.config.create_parent_dirs
    }

    /// Writing replaces an existing target only when overwriting is allowed;
    /// the target is observed after any parent directories were created.
    pub fn check_write(&self, target: PathState) -> (r: Result<(), FileSystemError>)
        ensures
            r == may_replace(target, self.conf().overwrite),
    {
        check_replace(target, self.config.overwrite)
    }

    /// Creating a file never replaces anything, whatever the configuration.
    pub fn check_create_file(&self, target: PathState) -> (r: Result<(), FileSystemError>)
        ensures
            r == must_be_new(target),
    {
        check_new(target)
    }

    /// Creating a directory never replaces anything.
    pub fn check_create_directory(&self, target: PathState) -> (r: Result<(), FileSystemError>)
        ensures
            r == must_be_new(target),
    {
        check_new(target)
    }

    /// Deleting a file needs an existing regular file; it never removes a
    /// directory.
    pub fn check_delete_file(&self, target: PathState) -> (r: Result<(), FileSystemError>)
        ensures
            r == delete_file_rule(target),
    {
        check_existing(target, target.is_file)
    }

    /// Deleting a directory (with all it holds) needs an existing directory.
    pub fn check_delete_directory(&self, target: PathState) -> (r: Result<(), FileSystemError>)
        ensures
            r == delete_directory_rule(target),
    {
        check_existing(target, target.is_dir)
    }

    /// Renaming needs an existing source and replaces an existing destination
    /// only when overwriting is allowed.
    pub fn check_rename(&self, from: PathState, to: PathState) -> (r: Result<(), FileSystemError>)
        ensures
            r == rename_rule(from, to, self.conf().overwrite),
    {
        if !from.exists {
            return Err(FileSystemError::NotFound);
        }
        check_replace(to, self.config.overwrite)
    }

    /// Copying needs an existing regular source file and replaces an existing
    /// destination only when overwriting is allowed.
    pub fn check_copy(&self, source: PathState, dest: PathState) -> (r: Result<
        (),
        FileSystemError,
    >)
        ensures
            r == copy_rule(source, dest, self.conf().overwrite),
    {
        match check_existing(source, source.is_file) {
            Err(e) => Err(e),
            Ok(_) => check_replace(dest, self.config.overwrite),
        }
    }

    /// Metadata is read of any existing path.
    pub fn check_metadata(&self, target: PathState) -> (r: Result<(), FileSystemError>)
        ensures
            r == metadata_rule(target),
    {
        check_existing(target, true)
    }

    /// Listing needs an existing directory.
    pub fn check_list(&self, target: PathState) -> (r: Result<(), FileSystemError>)
        ensures
            r == list_rule(target),
    {
        check_existing(target, target.is_dir)
    }
}

impl Default for FileSystemService {
    fn default() -> (r: FileSystemService)
        ensures
            r.conf() == initial_config(),
    {
        FileSystemService::new()
    }
}


/// A path that does not exist is reported not found by every operation that
/// needs it to exist, whatever the other path involved and the configuration.
pub proof fn lemma_missing_path_not_found(target: PathState, other: PathState, overwrite: bool)
    requires
        !target.exists,
    ensures
        read_rule(target) == Err::<(), FileSystemError>(FileSystemError::NotFound),
        delete_file_rule(target) == Err::<(), FileSystemError>(FileSystemError::NotFound),
        delete_directory_rule(target) == Err::<(), FileSystemError>(FileSystemError::NotFound),
        metadata_rule(target) == Err::<(), FileSystemError>(FileSystemError::NotFound),
        list_rule(target) == Err::<(), FileSystemError>(FileSystemError::NotFound),
        rename_rule(target, other, overwrite) == Err::<(), FileSystemError>(
            FileSystemError::NotFound,
        ),
        copy_rule(target, other, overwrite) == Err::<(), FileSystemError>(
            FileSystemError::NotFound,
        ),
{
}

/// Creating a file on a path that exists fails with `AlreadyExists`: the rule
/// that `check_create_file` follows does not consult the configuration, so
/// this holds with overwriting allowed too.
pub proof fn lemma_create_file_never_overwrites(target: PathState)
    requires
        target.exists,
    ensures
        must_be_new(target) == Err::<(), FileSystemError>(FileSystemError::AlreadyExists),
{
}

/// Renaming an existing path onto one that exists, with overwriting off,
/// fails with `AlreadyExists` before anything is moved.
pub proof fn lemma_rename_keeps_existing_target(from: PathState, to: PathState)
    requires
        from.exists,
        to.exists,
    ensures
        rename_rule(from, to, false) == Err::<(), FileSystemError>(FileSystemError::AlreadyExists),
{
}

/// Text written without a zero byte reads back as text: whatever leading part
/// of it the sniff sees, it does not find the file binary.
pub proof fn lemma_nul_free_content_reads_as_text(written: Seq<u8>, head: Seq<u8>)
    requires
        head.len() <= written.len(),
        head == written.subrange(0, head.len() as int),
        forall|i: int| 0 <= i < written.len() ==> written[i] != 0,
    ensures
        !has_nul_in_window(head),
{
    assert forall|i: int| 0 <= i < head.len() implies head[i] != 0 by {
        assert(head[i] == written[i]);
    }
}

} // verus!
