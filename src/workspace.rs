use vstd::prelude::*;
use vstd::string::*;

use crate::model::{
    extra_keys, folders_view, opt_string_view, opt_workspace_view, strings_view, Args,
    FolderError, FolderView, TaskView, TasksView, WorkspaceFile, WorkspaceFolder, WorkspaceView,
};
use crate::paths::{diff_paths_of, file_name_of, final_component, relative_path};
use crate::tasks::{maintenance_task, merge_tasks, merged, workspace_task};

verus! {

/// The emblem before the name of a scanned folder.
pub open spec fn folder_emblem() -> Seq<char> {
    "ðŸ“¦ "@
}

/// The emblem before the name of the current directory's entry.
pub open spec fn current_emblem() -> Seq<char> {
    "ðŸ—ï¸ "@
}

/// The entry for the directory `p`: its name with the folder emblem, and its
/// path relative to the workspace root `base`, by relative-path arithmetic.
pub open spec fn folder_entry(p: Seq<char>, base: Seq<char>) -> Result<FolderView, FolderError> {
    match final_component(p) {
        None => Err(FolderError::InvalidFolderName),
        Some(n) => match relative_path(p, base) {
            Some(q) => Ok(FolderView { path: q, name: folder_emblem() + n }),
            None => Err(FolderError::NoRelativePath),
        },
    }
}

/// The entries for the directories `dirs` in their order, or the error of the
/// first one that fails.
pub open spec fn folder_entries(dirs: Seq<Seq<char>>, base: Seq<char>) -> Result<
    Seq<FolderView>,
    FolderError,
>
    decreases dirs.len(),
{
    if dirs.len() == 0 {
        Ok(Seq::empty())
    } else {
        match folder_entries(dirs.drop_last(), base) {
            Err(e) => Err(e),
            Ok(prev) => match folder_entry(dirs.last(), base) {
                Err(e) => Err(e),
                Ok(f) => Ok(prev.push(f)),
            },
        }
    }
}

/// Builds the entry for the directory `path`, relative to the workspace root
/// `base_path`; `scan_path` is the directory that was scanned, which may lie
/// outside the root and is given the same relative-path arithmetic.
pub fn create_workspace_folder(path: &str, base_path: &str, scan_path: &str) -> (r: Result<
    WorkspaceFolder,
    FolderError,
>)
    ensures
        match folder_entry(path@, base_path@) {
            Ok(f) => r.is_ok() && r.unwrap()@ == f,
            Err(e) => r == Err::<WorkspaceFolder, FolderError>(e),
        },
{
    let name = match file_name_of(path) {
        Some(n) => n,
        None => {
            return Err(FolderError::InvalidFolderName);
        },
    };
    let relative = match diff_paths_of(path, base_path) {
        Some(q) => q,
        None => {
            return Err(FolderError::NoRelativePath);
        },
    };
    let mut display = String::from_str("ðŸ“¦ ");
    display.append(name.as_str());
    Ok(WorkspaceFolder { path: relative, name: display })
}

/// The task list of the document: the existing one, kept unless an update is
/// asked for; else the maintenance task merged into it, or a fresh list.
pub open spec fn workspace_tasks(
    existing: Option<WorkspaceView>,
    update_task: bool,
    task: TaskView,
) -> TasksView {
    match existing {
        Some(e) => match e.tasks {
            Some(ts) => if update_task {
                merged(Some(ts), task)
            } else {
                ts
            },
            None => merged(None, task),
        },
        None => merged(None, task),
    }
}

/// The folder list of the document: the current directory's entry unless it
/// is excluded, then one entry for each scanned directory.
pub open spec fn workspace_folders(
    dirs: Seq<Seq<char>>,
    base: Seq<char>,
    workspace_name: Seq<char>,
    exclude_current: bool,
) -> Result<Seq<FolderView>, FolderError> {
    let head = if exclude_current {
        Seq::empty()
    } else {
        seq![FolderView { path: "."@, name: current_emblem() + workspace_name }]
    };
    match folder_entries(dirs, base) {
        Ok(fs) => Ok(head + fs),
        Err(e) => Err(e),
    }
}

/// Once one directory's entry fails, the entries of any longer list of
/// directories fail with the same error.
proof fn lemma_entries_error_persists(
    dirs: Seq<Seq<char>>,
    j: int,
    base: Seq<char>,
    e: FolderError,
)
    requires
        0 <= j <= dirs.len(),
        folder_entries(dirs.take(j), base) == Err::<Seq<FolderView>, FolderError>(e),
    ensures
        folder_entries(dirs, base) == Err::<Seq<FolderView>, FolderError>(e),
    decreases dirs.len(),
{
    if j == dirs.len() {
        assert(dirs.take(j) =~= dirs);
    } else {
        assert(dirs.drop_last().take(j) =~= dirs.take(j));
        lemma_entries_error_persists(dirs.drop_last(), j, base, e);
    }
}

/// Assembles the workspace document of one run.
///
/// `existing` is the document already on disk, or `None` where there is none
/// or it could not be read; `dirs` are the scanned directories in scan order;
/// `base_path` is the workspace root; `exe` is the tool's own executable, when
/// it could be resolved. The folder list is rebuilt from scratch; the other
/// sections of `existing` are kept as they are; its task list is kept unless
/// `update_task` is set or it has none.
pub fn create_workspace(
    scan_path: &str,
    workspace_name: &str,
    exclude_current: bool,
    update_task: bool,
    args: &Args,
    base_path: &str,
    dirs: &Vec<String>,
    existing: Option<WorkspaceFile>,
    exe: Option<String>,
) -> (r: Result<WorkspaceFile, FolderError>)
    ensures
        match workspace_folders(
            strings_view(dirs@),
            base_path@,
            workspace_name@,
            exclude_current,
        ) {
            Ok(fs) => r.is_ok() && r.unwrap()@.folders == fs,
            Err(e) => r == Err::<WorkspaceFile, FolderError>(e),
        },
        r.is_ok() ==> r.unwrap()@.tasks == Some(
            workspace_tasks(
                opt_workspace_view(existing),
                update_task,
                maintenance_task(args@, opt_string_view(exe)),
            ),
        ),
        r.is_ok() ==> match existing {
            Some(e) => r.unwrap().other == e.other,
            None => extra_keys(r.unwrap().other) == Set::<Seq<char>>::empty(),
        },
{
    let ghost existing_view = opt_workspace_view(existing);
    let new_task = workspace_task(args, exe);
    let (tasks, other) = match existing {
        Some(e) => {
            let tasks = match e.tasks {
                Some(ts) => if update_task {
                    merge_tasks(Some(ts), new_task)
                } else {
                    ts
                },
                None => merge_tasks(None, new_task),
            };
            (tasks, e.other)
        },
        None => (merge_tasks(None, new_task), serde_json::Map::new()),
    };
    let mut folders: Vec<WorkspaceFolder> = Vec::new();
    if !exclude_current {
        let mut name = String::from_str("ðŸ—ï¸ ");
        name.append(workspace_name);
        folders.push(WorkspaceFolder { path: String::from_str("."), name });
    }
    let ghost head = folders_view(folders@);
    let ghost dv = strings_view(dirs@);
    assert(folder_entries(dv.take(0), base_path@) == Ok::<
        Seq<FolderView>,
        FolderError,
    >(Seq::empty()));
    assert(head + Seq::<FolderView>::empty() =~= head);
    let mut i: usize = 0;
    while i < dirs.len()
        invariant
            i <= dirs@.len(),
            dv == strings_view(dirs@),
            folder_entries(dv.take(i as int), base_path@).is_ok(),
            folders_view(folders@) == head + folder_entries(dv.take(i as int), base_path@).unwrap(),
        decreases dirs@.len() - i,
    {
        let ghost prev = folder_entries(dv.take(i as int), base_path@).unwrap();
        assert(dv.take(i as int + 1).drop_last() =~= dv.take(i as int));
        assert(dv.take(i as int + 1).last() == dirs@[i as int]@);
        match create_workspace_folder(dirs[i].as_str(), base_path, scan_path) {
            Ok(f) => {
                let ghost fv = f@;
                let ghost before = folders@;
                folders.push(f);
                assert(folders_view(folders@) =~= folders_view(before).push(fv));
                assert(folders_view(folders@) =~= head + prev.push(fv));
            },
            Err(e) => {
                proof {
                    lemma_entries_error_persists(dv, i as int + 1, base_path@, e);
                }
                return Err(e);
            },
        }
        i = i + 1;
    }
    assert(dv.take(i as int) =~= dv);
    Ok(WorkspaceFile { folders, tasks: Some(tasks), other })
}

} // verus!
