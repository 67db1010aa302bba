use fs_service::names::{
    extension, file_icon, is_hidden_name, is_hidden_path, mime_type, octal_permissions, same_text,
};

#[test]
fn hidden_names_start_with_a_dot() {
    assert!(is_hidden_name(".git"));
    assert!(is_hidden_name("."));
    assert!(!is_hidden_name("a.git"));
    assert!(!is_hidden_name(""));
}

#[test]
fn hidden_paths_go_by_their_leaf() {
    assert!(is_hidden_path("/home/user/.config"));
    assert!(!is_hidden_path("/home/.user/config"));
    assert!(is_hidden_path("/srv/.cache/"));
    assert!(!is_hidden_path("/"));
}

#[test]
fn extension_is_what_follows_the_last_dot() {
    assert_eq!(extension("archive.tar.gz"), Some("gz".to_string()));
    assert_eq!(extension("Photo.JPG"), Some("JPG".to_string()));
    assert_eq!(extension("file."), Some("".to_string()));
    assert_eq!(extension(".x.y"), Some("y".to_string()));
}

#[test]
fn names_without_extension() {
    assert_eq!(extension("Makefile"), None);
    assert_eq!(extension(".bashrc"), None);
    assert_eq!(extension(".."), None);
    assert_eq!(extension(""), None);
}

#[test]
fn mime_lookup_ignores_case() {
    assert_eq!(mime_type("PNG"), Some("image/png".to_string()));
    assert_eq!(mime_type("Jpeg"), Some("image/jpeg".to_string()));
    assert_eq!(mime_type("jpg"), Some("image/jpeg".to_string()));
    assert_eq!(mime_type("svg"), Some("image/svg+xml".to_string()));
    assert_eq!(mime_type("mp3"), Some("audio/mpeg".to_string()));
    assert_eq!(mime_type("rs"), None);
    assert_eq!(mime_type(""), None);
}

#[test]
fn icons_follow_the_table() {
    assert_eq!(file_icon("main.RS", false), "rust");
    assert_eq!(file_icon("app.tsx", false), "typescript");
    assert_eq!(file_icon("notes.md", false), "markdown");
    assert_eq!(file_icon("logo.svg", false), "image");
    assert_eq!(file_icon("backup.tar.gz", false), "archive");
    assert_eq!(file_icon("README", false), "file");
    assert_eq!(file_icon("data.bin", false), "file");
}

#[test]
fn directories_are_always_folders() {
    assert_eq!(file_icon("src.rs", true), "folder");
    assert_eq!(file_icon("photos", true), "folder");
}

#[test]
fn permissions_are_written_in_octal() {
    assert_eq!(octal_permissions(0o755), "755");
    assert_eq!(octal_permissions(0o100644), "100644");
    assert_eq!(octal_permissions(0), "0");
    assert_eq!(octal_permissions(8), "10");
    assert_eq!(octal_permissions(u32::MAX), "37777777777");
}

#[test]
fn same_text_compares_characters() {
    assert!(same_text("héllo", "héllo"));
    assert!(!same_text("hello", "hellO"));
    assert!(!same_text("ab", "abc"));
    assert!(same_text("", ""));
}
