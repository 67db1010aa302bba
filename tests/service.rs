use fs_service::service::{
    build_metadata, classify_io_error, FileOperation, FileSystemService, IoErrorKind, PathState,
    RawMetadata,
};
use fs_service::types::{FileOperationConfig, FileOperationResult, FileSystemError};

const MISSING: PathState = PathState { exists: false, is_file: false, is_dir: false };
const FILE: PathState = PathState { exists: true, is_file: true, is_dir: false };
const DIR: PathState = PathState { exists: true, is_file: false, is_dir: true };

fn overwriting() -> FileSystemService {
    let mut s = FileSystemService::new();
    s.set_config(FileOperationConfig {
        overwrite: true,
        create_parent_dirs: true,
        preserve_permissions: true,
        follow_symlinks: false,
    });
    s
}

#[test]
fn missing_paths_are_not_found() {
    let s = FileSystemService::new();
    assert_eq!(s.check_read(MISSING), Err(FileSystemError::NotFound));
    assert_eq!(s.check_delete_file(MISSING), Err(FileSystemError::NotFound));
    assert_eq!(s.check_delete_directory(MISSING), Err(FileSystemError::NotFound));
    assert_eq!(s.check_metadata(MISSING), Err(FileSystemError::NotFound));
    assert_eq!(s.check_list(MISSING), Err(FileSystemError::NotFound));
    assert_eq!(s.check_rename(MISSING, FILE), Err(FileSystemError::NotFound));
    assert_eq!(s.check_copy(MISSING, MISSING), Err(FileSystemError::NotFound));
    assert_eq!(overwriting().check_copy(MISSING, FILE), Err(FileSystemError::NotFound));
}

#[test]
fn wrong_kind_is_invalid_path() {
    let s = FileSystemService::new();
    assert_eq!(s.check_read(DIR), Err(FileSystemError::InvalidPath));
    assert_eq!(s.check_delete_file(DIR), Err(FileSystemError::InvalidPath));
    assert_eq!(s.check_delete_directory(FILE), Err(FileSystemError::InvalidPath));
    assert_eq!(s.check_list(FILE), Err(FileSystemError::InvalidPath));
    assert_eq!(s.check_copy(DIR, MISSING), Err(FileSystemError::InvalidPath));
}

#[test]
fn existing_paths_of_the_right_kind_pass() {
    let s = FileSystemService::new();
    assert_eq!(s.check_read(FILE), Ok(()));
    assert_eq!(s.check_delete_file(FILE), Ok(()));
    assert_eq!(s.check_delete_directory(DIR), Ok(()));
    assert_eq!(s.check_metadata(DIR), Ok(()));
    assert_eq!(s.check_list(DIR), Ok(()));
    assert_eq!(s.check_rename(DIR, MISSING), Ok(()));
    assert_eq!(s.check_copy(FILE, MISSING), Ok(()));
    assert_eq!(s.check_write(MISSING), Ok(()));
    assert_eq!(s.check_create_file(MISSING), Ok(()));
    assert_eq!(s.check_create_directory(MISSING), Ok(()));
}

#[test]
fn write_honours_overwrite() {
    assert_eq!(FileSystemService::new().check_write(FILE), Err(FileSystemError::AlreadyExists));
    assert_eq!(overwriting().check_write(FILE), Ok(()));
}

#[test]
fn create_file_never_overwrites() {
    assert_eq!(overwriting().check_create_file(FILE), Err(FileSystemError::AlreadyExists));
    assert_eq!(FileSystemService::new().check_create_file(FILE), Err(FileSystemError::AlreadyExists));
    assert_eq!(overwriting().check_create_directory(DIR), Err(FileSystemError::AlreadyExists));
}

#[test]
fn rename_onto_existing_without_overwrite() {
    let s = FileSystemService::new();
    assert_eq!(s.check_rename(FILE, FILE), Err(FileSystemError::AlreadyExists));
    assert_eq!(overwriting().check_rename(FILE, FILE), Ok(()));
}

#[test]
fn copy_onto_existing() {
    assert_eq!(FileSystemService::new().check_copy(FILE, FILE), Err(FileSystemError::AlreadyExists));
    assert_eq!(overwriting().check_copy(FILE, FILE), Ok(()));
}

#[test]
fn configuration_round_trip() {
    let mut s = FileSystemService::default();
    let c = *s.get_config();
    assert!(!c.overwrite && c.create_parent_dirs && c.preserve_permissions && !c.follow_symlinks);
    assert!(s.creates_parents_on_write());
    let next = FileOperationConfig {
        overwrite: true,
        create_parent_dirs: false,
        preserve_permissions: false,
        follow_symlinks: true,
    };
    s.set_config(next);
    assert_eq!(*s.get_config(), next);
    assert!(!s.creates_parents_on_write());
}

#[test]
fn io_errors_are_classified() {
    assert_eq!(classify_io_error(IoErrorKind::NotFound, "gone".to_string()), FileSystemError::NotFound);
    assert_eq!(
        classify_io_error(IoErrorKind::PermissionDenied, "no".to_string()),
        FileSystemError::PermissionDenied
    );
    assert_eq!(
        classify_io_error(IoErrorKind::Other, "disk full".to_string()),
        FileSystemError::IOError("disk full".to_string())
    );
}

#[test]
fn error_messages() {
    assert_eq!(FileSystemError::NotFound.message(), "File or directory not found");
    assert_eq!(FileSystemError::PermissionDenied.message(), "Permission denied");
    assert_eq!(FileSystemError::AlreadyExists.message(), "File or directory already exists");
    assert_eq!(FileSystemError::InvalidPath.message(), "Invalid path");
    assert_eq!(FileSystemError::IOError("bad".to_string()).message(), "IO Error: bad");
    assert_eq!(FileSystemError::UnknownError("odd".to_string()).message(), "Unknown error: odd");
}

#[test]
fn success_envelopes() {
    let r = FileOperationResult::succeeded(FileOperation::Write, "/a.txt");
    assert!(r.success);
    assert_eq!(r.message, "File written successfully");
    assert_eq!(r.path, Some("/a.txt".to_string()));
    assert_eq!(r.error_code, None);
    assert_eq!(FileOperationResult::succeeded(FileOperation::Rename, "/b").message, "Renamed successfully");
    assert_eq!(FileOperationResult::succeeded(FileOperation::Copy, "/c").message, "File copied successfully");
    assert_eq!(
        FileOperationResult::succeeded(FileOperation::DeleteDirectory, "/d").message,
        "Directory deleted successfully"
    );
}

fn raw(created: Option<u64>) -> RawMetadata {
    RawMetadata {
        size: 1234,
        is_directory: false,
        is_file: true,
        is_symlink: false,
        readonly: true,
        created,
        modified: Some(1_700_000_000),
        accessed: None,
        mode: 0o100644,
    }
}

#[test]
fn metadata_without_creation_time() {
    let m = build_metadata("/pics/Photo.JPG", raw(None));
    assert_eq!(m.created, None);
    assert_eq!(m.modified, Some(1_700_000_000));
    assert_eq!(m.accessed, None);
    assert_eq!(m.name, "Photo.JPG");
    assert_eq!(m.extension, Some("JPG".to_string()));
    assert_eq!(m.mime_type, Some("image/jpeg".to_string()));
    assert_eq!(m.permissions, "100644");
    assert_eq!(m.size, 1234);
    assert!(m.readonly && m.is_file && !m.is_directory && !m.hidden);
}

#[test]
fn metadata_of_hidden_file() {
    let m = build_metadata("/home/u/.env", raw(Some(5)));
    assert_eq!(m.created, Some(5));
    assert!(m.hidden);
    assert_eq!(m.name, ".env");
    assert_eq!(m.extension, None);
    assert_eq!(m.mime_type, None);
}

#[test]
fn metadata_of_root_has_no_name() {
    let m = build_metadata("/", raw(None));
    assert_eq!(m.name, "");
    assert!(!m.hidden);
    assert_eq!(m.extension, None);
}
