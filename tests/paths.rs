use workspace_manager::{create_workspace_folder, is_hidden, select_directories};
use workspace_manager::{ChildEntry, FolderError};

fn entry(path: &str, is_dir: bool) -> ChildEntry {
    ChildEntry {
        path: path.to_string(),
        is_dir,
    }
}

#[test]
fn hidden_names() {
    assert!(is_hidden(".hidden"));
    assert!(is_hidden("/tmp/scan/.git"));
    assert!(!is_hidden("/tmp/scan/visible"));
    assert!(!is_hidden("/"));
    assert!(!is_hidden("a/.."));
    assert!(!is_hidden(""));
}

#[test]
fn scan_keeps_visible_directories() {
    let entries = vec![
        entry("/d/a", true),
        entry("/d/.c", true),
        entry("/d/notes.txt", false),
        entry("/d/b", true),
    ];
    assert_eq!(
        select_directories(&entries),
        vec!["/d/a".to_string(), "/d/b".to_string()]
    );
    assert!(select_directories(&vec![]).is_empty());
}

#[test]
fn folder_entry_relative_to_root() {
    let f = create_workspace_folder("/w/scan/nested/test_folder", "/w", "/w/scan").unwrap();
    assert_eq!(f.path, "scan/nested/test_folder");
    assert_eq!(f.name, "ðŸ“¦ test_folder");
}

#[test]
fn folder_entry_outside_root() {
    let f = create_workspace_folder("/tmp/scan/folder1", "/home/me/proj", "/tmp/scan").unwrap();
    assert_eq!(f.path, "../../../tmp/scan/folder1");
    assert_eq!(f.name, "ðŸ“¦ folder1");
}

#[test]
fn folder_entry_for_scanned_directory() {
    let inside = create_workspace_folder("/w/scan", "/w", "/w/scan").unwrap();
    assert_eq!(inside.path, "scan");
    assert_eq!(inside.name, "ðŸ“¦ scan");
    let outside = create_workspace_folder("/tmp/scan", "/w", "/tmp/scan").unwrap();
    assert_eq!(outside.path, "../tmp/scan");
    let sibling = create_workspace_folder("/w/other", "/w/ws", "/w/other").unwrap();
    assert_eq!(sibling.path, "../other");
    assert_eq!(sibling.name, "ðŸ“¦ other");
}

#[test]
fn folder_entry_errors() {
    assert_eq!(
        create_workspace_folder("/", "/w", "/w"),
        Err(FolderError::InvalidFolderName)
    );
    assert_eq!(
        create_workspace_folder("rel/dir", "/w", "/w"),
        Err(FolderError::NoRelativePath)
    );
}
