use vstd::prelude::*;
use vstd::string::*;

use crate::model::{
    opt_string_view, opt_tasks_view, strings_view, tasks_view, Args, ArgsView, Task, TaskView,
    Tasks, TasksView,
};

verus! {

/// The label that marks the maintenance task.
pub open spec fn reserved_label() -> Seq<char> {
    "Update Workspace"@
}

/// The schema version of a task list made here.
pub open spec fn schema_version() -> Seq<char> {
    "2.0.0"@
}

/// The command used when the tool's own executable is unknown.
pub open spec fn fallback_command() -> Seq<char> {
    "workspace-manager"@
}

/// The tasks of `s` whose label is not the reserved one, in their order.
pub open spec fn without_reserved(s: Seq<TaskView>) -> Seq<TaskView>
    decreases s.len(),
{
    if s.len() == 0 {
        s
    } else {
        let prev = without_reserved(s.drop_last());
        if s.last().label == reserved_label() {
            prev
        } else {
            prev.push(s.last())
        }
    }
}

/// How many tasks of `s` carry the reserved label.
pub open spec fn reserved_count(s: Seq<TaskView>) -> nat
    decreases s.len(),
{
    if s.len() == 0 {
        0
    } else {
        reserved_count(s.drop_last()) + if s.last().label == reserved_label() {
            1nat
        } else {
            0nat
        }
    }
}

/// A task list where `new_task` replaces every reserved entry of `existing`,
/// or a fresh list holding `new_task` alone.
pub open spec fn merged(existing: Option<TasksView>, new_task: TaskView) -> TasksView {
    match existing {
        Some(e) => TasksView { version: e.version, tasks: without_reserved(e.tasks).push(new_task) },
        None => TasksView { version: schema_version(), tasks: seq![new_task] },
    }
}

/// The argument list that re-runs the tool with the settings of `a`:
/// the name if given, the exclusion flag if set, then the scanned path.
pub open spec fn task_arguments(a: ArgsView) -> Seq<Seq<char>> {
    let named = match a.name {
        Some(n) => seq!["--name"@, n],
        None => Seq::empty(),
    };
    let flag = if a.exclude_current {
        seq!["--exclude-current"@]
    } else {
        Seq::empty()
    };
    named + flag + seq!["--path"@, a.path]
}

/// The command of the maintenance task: the tool's own executable, if known.
pub open spec fn task_command(exe: Option<Seq<char>>) -> Seq<char> {
    match exe {
        Some(p) => p,
        None => fallback_command(),
    }
}

/// The maintenance task for the settings `a`.
pub open spec fn maintenance_task(a: ArgsView, exe: Option<Seq<char>>) -> TaskView {
    TaskView {
        label: reserved_label(),
        task_type: "process"@,
        command: task_command(exe),
        args: task_arguments(a),
    }
}

/// Puts `new_task` into the task list, removing every task that carries the
/// reserved label first; without a list, makes a fresh one.
pub fn merge_tasks(existing: Option<Tasks>, new_task: Task) -> (r: Tasks)
    ensures
        r@ == merged(opt_tasks_view(existing), new_task@),
{
    let ghost old_view = opt_tasks_view(existing);
    let (version, mut rest) = match existing {
        Some(t) => (t.version, t.tasks),
        None => (String::from_str("2.0.0"), Vec::new()),
    };
    let ghost orig = rest@;
    let ghost base: Seq<TaskView> = match old_view {
        Some(e) => e.tasks,
        None => Seq::empty(),
    };
    assert(tasks_view(orig) == base);
    let reserved = String::from_str("Update Workspace");
    let mut kept: Vec<Task> = Vec::new();
    let total: usize = rest.len();
    let mut k: usize = 0;
    while rest.len() > 0
        invariant
            k + rest@.len() == orig.len(),
            orig.len() == total as int,
            rest@ == orig.subrange(k as int, orig.len() as int),
            reserved@ == reserved_label(),
            tasks_view(kept@) == without_reserved(tasks_view(orig.take(k as int))),
        decreases rest@.len(),
    {
        let t = rest.remove(0);
        assert(t == orig[k as int]);
        let ghost prefix = tasks_view(orig.take(k as int + 1));
        assert(prefix.drop_last() =~= tasks_view(orig.take(k as int)));
        assert(prefix.last() == t@);
        if t.label != reserved {
            kept.push(t);
        }
        assert(tasks_view(kept@) =~= without_reserved(prefix));
        k = k + 1;
        assert(rest@ =~= orig.subrange(k as int, orig.len() as int));
    }
    assert(orig.take(k as int) =~= orig);
    let ghost before = tasks_view(kept@);
    kept.push(new_task);
    assert(tasks_view(kept@) =~= before.push(new_task@));
    proof {
        reveal_strlit("2.0.0");
    }
    Tasks { version, tasks: kept }
}

/// Builds the argument list that re-runs the tool with the settings of `args`.
pub fn args_to_vec(args: &Args) -> (r: Vec<String>)
    ensures
        strings_view(r@) == task_arguments(args@),
{
    let mut task_args: Vec<String> = Vec::new();
    if let Some(name) = &args.name {
        task_args.push(String::from_str("--name"));
        task_args.push(name.clone());
    }
    if args.exclude_current {
        task_args.push(String::from_str("--exclude-current"));
    }
    task_args.push(String::from_str("--path"));
    task_args.push(args.path.clone());
    assert(strings_view(task_args@) =~= task_arguments(args@));
    task_args
}

/// Builds the maintenance task; `exe` is the path of the tool's own
/// executable, when it could be resolved.
pub fn workspace_task(args: &Args, exe: Option<String>) -> (r: Task)
    ensures
        r@ == maintenance_task(args@, opt_string_view(exe)),
{
    let command = match exe {
        Some(p) => p,
        None => String::from_str("workspace-manager"),
    };
    Task {
        label: String::from_str("Update Workspace"),
        task_type: String::from_str("process"),
        command,
        args: args_to_vec(args),
    }
}

/// Builds a fresh task list that holds the maintenance task alone.
pub fn create_workspace_task(args: &Args, exe: Option<String>) -> (r: Tasks)
    ensures
        r@ == merged(None, maintenance_task(args@, opt_string_view(exe))),
{
    let task = workspace_task(args, exe);
    let ghost tv = task@;
    let tasks = vec![task];
    assert(tasks_view(tasks@) =~= seq![tv]);
    Tasks { version: String::from_str("2.0.0"), tasks }
}

} // verus!
