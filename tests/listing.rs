use fs_service::listing::{build_listing, ChildStat, ListedChild};

fn child(name: &str, is_directory: bool) -> ListedChild {
    ListedChild {
        name: name.to_string(),
        path: format!("/p/{}", name),
        stat: Some(ChildStat {
            is_directory,
            is_file: !is_directory,
            size: 10,
            modified: Some(99),
            mode: 0o644,
        }),
    }
}

fn names(l: &fs_service::types::DirectoryListing) -> Vec<String> {
    l.entries.iter().map(|e| e.name.clone()).collect()
}

#[test]
fn directories_first_then_case_insensitive() {
    let cs = vec![child("b.txt", false), child("A", true), child("a.txt", false), child("B", true)];
    let l = build_listing("/p", &cs, false);
    assert_eq!(names(&l), vec!["A", "B", "a.txt", "b.txt"]);
    assert_eq!(l.total_count, 4);
    assert_eq!(l.hidden_count, 0);
    assert_eq!(l.path, "/p");
    assert_eq!(l.error, None);
}

#[test]
fn case_does_not_decide_order() {
    let cs = vec![child("beta", false), child("Alpha", false), child("alpha2", false), child("Gamma", true)];
    let l = build_listing("/p", &cs, true);
    assert_eq!(names(&l), vec!["Gamma", "Alpha", "alpha2", "beta"]);
}

#[test]
fn hidden_children_are_counted_and_left_out() {
    let mut hidden_unread = child(".cache", true);
    hidden_unread.stat = None;
    let cs = vec![child(".git", true), child("src", true), hidden_unread, child(".env", false), child("main.rs", false)];
    let l = build_listing("/p", &cs, false);
    assert_eq!(names(&l), vec!["src", "main.rs"]);
    assert_eq!(l.hidden_count, 3);
    assert_eq!(l.total_count, 2);
    assert!(l.entries.iter().all(|e| !e.name.starts_with('.')));
}

#[test]
fn hidden_children_shown_on_request() {
    let cs = vec![child(".git", true), child("src", true), child(".env", false), child("main.rs", false)];
    let l = build_listing("/p", &cs, true);
    assert_eq!(names(&l), vec![".git", "src", ".env", "main.rs"]);
    assert_eq!(l.hidden_count, 2);
    assert_eq!(l.total_count, 4);
}

#[test]
fn entry_fields() {
    let cs = vec![child("lib.rs", false), child("docs", true)];
    let l = build_listing("/p", &cs, false);
    let d = &l.entries[0];
    assert_eq!(d.name, "docs");
    assert_eq!(d.path, "/p/docs");
    assert!(d.is_directory);
    assert_eq!(d.size, None);
    assert_eq!(d.icon, "folder");
    let f = &l.entries[1];
    assert_eq!(f.size, Some(10));
    assert_eq!(f.modified, Some(99));
    assert_eq!(f.permissions, "644");
    assert_eq!(f.icon, "rust");
}

#[test]
fn empty_directory() {
    let l = build_listing("/empty", &Vec::new(), false);
    assert!(l.entries.is_empty());
    assert_eq!(l.total_count, 0);
    assert_eq!(l.hidden_count, 0);
}

#[test]
fn equal_names_keep_enumeration_order() {
    let mut first = child("Readme", false);
    first.path = "/p/first".to_string();
    let mut second = child("README", false);
    second.path = "/p/second".to_string();
    let l = build_listing("/p", &vec![first, second], false);
    assert_eq!(l.entries[0].path, "/p/first");
    assert_eq!(l.entries[1].path, "/p/second");
}
