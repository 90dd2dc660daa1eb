//! Builds and maintains an editor workspace descriptor: one folder entry for
//! each visible subdirectory of a scanned directory, and a maintenance task
//! that re-runs the tool to refresh the descriptor.
pub mod laws;
pub mod model;
pub mod paths;
pub mod tasks;
pub mod workspace;

pub use model::{
    Args, ArgsView, ChildEntry, FolderError, FolderView, Task, TaskView, Tasks, TasksView,
    WorkspaceFile, WorkspaceFolder, WorkspaceView,
};
pub use paths::{is_hidden, select_directories};
pub use tasks::{args_to_vec, create_workspace_task, merge_tasks, workspace_task};
pub use workspace::{create_workspace, create_workspace_folder};
pub use laws::{
    lemma_merge_single_reserved, lemma_rerun_keeps_tasks, lemma_without_reserved_has_none,
    lemma_without_reserved_idempotent,
};
