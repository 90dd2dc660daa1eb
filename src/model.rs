use vstd::prelude::*;

verus! {

/// What the names of the keys of a document's unrecognised sections are.
pub uninterp spec fn extra_keys(m: serde_json::Map<String, serde_json::Value>) -> Set<Seq<char>>;

/// `serde_json::Map`, the sections of a document that are carried along
/// without being read.
#[verifier::external_type_specification]
#[verifier::external_body]
#[verifier::reject_recursive_types(K)]
#[verifier::reject_recursive_types(V)]
pub struct ExJsonMap<K, V>(serde_json::Map<K, V>);

/// `serde_json::Value`, the value of such a section.
#[verifier::external_type_specification]
#[verifier::external_body]
pub struct ExJsonValue(serde_json::Value);

/// Relies on `serde_json::Map::new`: it makes a map with no entries.
pub assume_specification[ serde_json::Map::<String, serde_json::Value>::new ]() -> (r:
    serde_json::Map<String, serde_json::Value>)
    ensures
        extra_keys(r) == Set::<Seq<char>>::empty(),
;

/// The settings of one run: where to scan, whether the current directory gets
/// an entry of its own, the workspace's name, and whether the maintenance task
/// is rewritten in a document that already has tasks.
#[derive(Debug, Clone, PartialEq, Default)]
pub struct Args {
    pub path: String,
    pub exclude_current: bool,
    pub name: Option<String>,
    pub update_task: bool,
}

pub struct ArgsView {
    pub path: Seq<char>,
    pub exclude_current: bool,
    pub name: Option<Seq<char>>,
    pub update_task: bool,
}

/// The view of an optional string.
pub open spec fn opt_string_view(o: Option<String>) -> Option<Seq<char>> {
    match o {
        Some(s) => Some(s@),
        None => None,
    }
}

/// The views of a sequence of strings.
pub open spec fn strings_view(s: Seq<String>) -> Seq<Seq<char>> {
    s.map_values(|x: String| x@)
}

impl View for Args {
    type V = ArgsView;

    open spec fn view(&self) -> ArgsView {
        ArgsView {
            path: self.path@,
            exclude_current: self.exclude_current,
            name: opt_string_view(self.name),
            update_task: self.update_task,
        }
    }
}

/// One task of the editor's task list.
#[derive(Debug, Clone, PartialEq, Default)]
pub struct Task {
    pub label: String,
    pub task_type: String,
    pub command: String,
    pub args: Vec<String>,
}

pub struct TaskView {
    pub label: Seq<char>,
    pub task_type: Seq<char>,
    pub command: Seq<char>,
    pub args: Seq<Seq<char>>,
}

impl View for Task {
    type V = TaskView;

    open spec fn view(&self) -> TaskView {
        TaskView {
            label: self.label@,
            task_type: self.task_type@,
            command: self.command@,
            args: strings_view(self.args@),
        }
    }
}

/// The views of a sequence of tasks.
pub open spec fn tasks_view(s: Seq<Task>) -> Seq<TaskView> {
    s.map_values(|t: Task| t@)
}

/// A task list with its schema version.
#[derive(Debug, Clone, PartialEq, Default)]
pub struct Tasks {
    pub version: String,
    pub tasks: Vec<Task>,
}

pub struct TasksView {
    pub version: Seq<char>,
    pub tasks: Seq<TaskView>,
}

impl View for Tasks {
    type V = TasksView;

    open spec fn view(&self) -> TasksView {
        TasksView { version: self.version@, tasks: tasks_view(self.tasks@) }
    }
}

/// The view of an optional task list.
pub open spec fn opt_tasks_view(o: Option<Tasks>) -> Option<TasksView> {
    match o {
        Some(t) => Some(t@),
        None => None,
    }
}

/// One folder entry: a path relative to the workspace root and a display name.
#[derive(Debug, Clone, PartialEq, Default)]
pub struct WorkspaceFolder {
    pub path: String,
    pub name: String,
}

pub struct FolderView {
    pub path: Seq<char>,
    pub name: Seq<char>,
}

impl View for WorkspaceFolder {
    type V = FolderView;

    open spec fn view(&self) -> FolderView {
        FolderView { path: self.path@, name: self.name@ }
    }
}

/// The views of a sequence of folder entries.
pub open spec fn folders_view(s: Seq<WorkspaceFolder>) -> Seq<FolderView> {
    s.map_values(|f: WorkspaceFolder| f@)
}

/// The workspace document: its folders, its task list if any, and the
/// sections it does not interpret, carried along unchanged.
#[derive(Debug)]
pub struct WorkspaceFile {
    pub folders: Vec<WorkspaceFolder>,
    pub tasks: Option<Tasks>,
    pub other: serde_json::Map<String, serde_json::Value>,
}

pub struct WorkspaceView {
    pub folders: Seq<FolderView>,
    pub tasks: Option<TasksView>,
    pub other: serde_json::Map<String, serde_json::Value>,
}

impl View for WorkspaceFile {
    type V = WorkspaceView;

    open spec fn view(&self) -> WorkspaceView {
        WorkspaceView {
            folders: folders_view(self.folders@),
            tasks: opt_tasks_view(self.tasks),
            other: self.other,
        }
    }
}

/// The view of an optional document.
pub open spec fn opt_workspace_view(o: Option<WorkspaceFile>) -> Option<WorkspaceView> {
    match o {
        Some(w) => Some(w@),
        None => None,
    }
}

impl WorkspaceFile {
    /// A document with no folders, no task list and no other sections.
    pub fn new() -> (r: WorkspaceFile)
        ensures
            r@.folders.len() == 0,
            r@.tasks.is_none(),
            extra_keys(r.other) == Set::<Seq<char>>::empty(),
    {
        WorkspaceFile { folders: Vec::new(), tasks: None, other: serde_json::Map::new() }
    }
}

impl Default for WorkspaceFile {
    fn default() -> (r: WorkspaceFile)
        ensures
            r@.folders.len() == 0,
            r@.tasks.is_none(),
            extra_keys(r.other) == Set::<Seq<char>>::empty(),
    {
        WorkspaceFile::new()
    }
}

/// A child of a scanned directory: its path and whether it is a directory.
#[derive(Debug, Clone, PartialEq, Default)]
pub struct ChildEntry {
    pub path: String,
    pub is_dir: bool,
}

/// Why a folder entry could not be built.
#[derive(Debug, Clone, Copy, PartialEq, Eq, Structural)]
pub enum FolderError {
    /// The path has no final component.
    InvalidFolderName,
    /// No path relative to the workspace root could be computed.
    NoRelativePath,
}

} // verus!
