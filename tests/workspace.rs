use serde_json::Value;
use workspace_manager::{create_workspace, merge_tasks, workspace_task};
use workspace_manager::{Args, FolderError, Task, Tasks, WorkspaceFile, WorkspaceFolder};

fn args() -> Args {
    Args {
        path: "/w/scan".to_string(),
        exclude_current: false,
        name: Some("test".to_string()),
        update_task: false,
    }
}

fn dirs() -> Vec<String> {
    vec!["/w/scan/folder1".to_string(), "/w/scan/folder2".to_string()]
}

fn run(existing: Option<WorkspaceFile>, update_task: bool) -> WorkspaceFile {
    let a = args();
    create_workspace(
        "/w/scan",
        "test",
        false,
        update_task,
        &a,
        "/w",
        &dirs(),
        existing,
        Some("/bin/tool".to_string()),
    )
    .unwrap()
}

fn settings() -> serde_json::Map<String, Value> {
    let mut inner = serde_json::Map::new();
    inner.insert("editor.tabSize".to_string(), Value::from(4));
    let mut other = serde_json::Map::new();
    other.insert("settings".to_string(), Value::Object(inner));
    other
}

#[test]
fn fresh_document_has_folders_and_task() {
    let w = run(None, false);
    assert_eq!(
        w.folders,
        vec![
            WorkspaceFolder {
                path: ".".to_string(),
                name: "ðŸ—ï¸ test".to_string()
            },
            WorkspaceFolder {
                path: "scan/folder1".to_string(),
                name: "ðŸ“¦ folder1".to_string()
            },
            WorkspaceFolder {
                path: "scan/folder2".to_string(),
                name: "ðŸ“¦ folder2".to_string()
            },
        ]
    );
    let tasks = w.tasks.unwrap();
    assert_eq!(tasks.version, "2.0.0");
    assert_eq!(tasks.tasks, vec![workspace_task(&args(), Some("/bin/tool".to_string()))]);
    assert!(w.other.is_empty());
}

#[test]
fn other_sections_are_kept() {
    let existing = WorkspaceFile {
        folders: vec![WorkspaceFolder {
            path: "stale".to_string(),
            name: "stale".to_string(),
        }],
        tasks: None,
        other: settings(),
    };
    let w = run(Some(existing), false);
    assert_eq!(w.other, settings());
    assert_eq!(
        serde_json::to_string(&w.other).unwrap(),
        serde_json::to_string(&settings()).unwrap()
    );
    assert_eq!(w.folders.len(), 3);
    assert_eq!(w.tasks.unwrap().tasks.len(), 1);
}

#[test]
fn existing_tasks_kept_without_update() {
    let custom = Tasks {
        version: "2.0.0".to_string(),
        tasks: vec![Task {
            label: "Update Workspace".to_string(),
            task_type: "process".to_string(),
            command: "old".to_string(),
            args: vec![],
        }],
    };
    let existing = WorkspaceFile {
        folders: vec![],
        tasks: Some(custom.clone()),
        other: serde_json::Map::new(),
    };
    let w = run(Some(existing), false);
    assert_eq!(w.tasks, Some(custom));
}

#[test]
fn update_replaces_reserved_task() {
    let build = Task {
        label: "Build".to_string(),
        task_type: "shell".to_string(),
        command: "make".to_string(),
        args: vec![],
    };
    let stale = Task {
        label: "Update Workspace".to_string(),
        task_type: "process".to_string(),
        command: "old".to_string(),
        args: vec![],
    };
    let existing = WorkspaceFile {
        folders: vec![],
        tasks: Some(Tasks {
            version: "2.0.0".to_string(),
            tasks: vec![stale, build.clone()],
        }),
        other: serde_json::Map::new(),
    };
    let w = run(Some(existing), true);
    let fresh = workspace_task(&args(), Some("/bin/tool".to_string()));
    assert_eq!(w.tasks.unwrap().tasks, vec![build, fresh]);
}

#[test]
fn unreadable_document_gives_fresh_one() {
    let w = run(None, true);
    assert_eq!(w.folders.len(), 3);
    let fresh = merge_tasks(None, workspace_task(&args(), Some("/bin/tool".to_string())));
    assert_eq!(w.tasks, Some(fresh));
    assert!(w.other.is_empty());
}

#[test]
fn second_run_gives_same_document() {
    for update in [false, true] {
        let first = run(
            Some(WorkspaceFile {
                folders: vec![],
                tasks: None,
                other: settings(),
            }),
            update,
        );
        let first_json = serde_json::to_string(&(&first.other, first.folders.len())).unwrap();
        let first_folders = first.folders.clone();
        let first_tasks = first.tasks.clone();
        let first_other = first.other.clone();
        let second = run(Some(first), update);
        assert_eq!(second.folders, first_folders);
        assert_eq!(second.tasks, first_tasks);
        assert_eq!(second.other, first_other);
        assert_eq!(
            serde_json::to_string(&(&second.other, second.folders.len())).unwrap(),
            first_json
        );
    }
}

#[test]
fn excluded_current_directory_has_no_entry() {
    let a = args();
    let w = create_workspace("/w/scan", "test", true, false, &a, "/w", &dirs(), None, None)
        .unwrap();
    assert_eq!(w.folders.len(), 2);
    assert_eq!(w.folders[0].path, "scan/folder1");
    assert_eq!(w.tasks.unwrap().tasks[0].command, "workspace-manager");
}

#[test]
fn failing_folder_fails_the_run() {
    let a = args();
    let bad = vec!["/w/scan/ok".to_string(), "/".to_string()];
    let r = create_workspace("/w/scan", "test", false, false, &a, "/w", &bad, None, None);
    assert_eq!(r.err(), Some(FolderError::InvalidFolderName));
}
