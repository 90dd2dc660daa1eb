use vstd::prelude::*;

use crate::model::{ArgsView, TaskView, TasksView, WorkspaceView};
use crate::tasks::{maintenance_task, merged, reserved_count, reserved_label, without_reserved};
use crate::workspace::workspace_tasks;

verus! {

/// Taking out the reserved tasks leaves none of them.
pub proof fn lemma_without_reserved_has_none(s: Seq<TaskView>)
    ensures
        reserved_count(without_reserved(s)) == 0,
    decreases s.len(),
{
    if s.len() > 0 {
        lemma_without_reserved_has_none(s.drop_last());
        let prev = without_reserved(s.drop_last());
        if s.last().label != reserved_label() {
            assert(prev.push(s.last()).drop_last() =~= prev);
        }
    }
}

/// Taking out the reserved tasks a second time changes nothing.
pub proof fn lemma_without_reserved_idempotent(s: Seq<TaskView>)
    ensures
        without_reserved(without_reserved(s)) == without_reserved(s),
    decreases s.len(),
{
    if s.len() > 0 {
        lemma_without_reserved_idempotent(s.drop_last());
        let prev = without_reserved(s.drop_last());
        if s.last().label != reserved_label() {
            assert(prev.push(s.last()).drop_last() =~= prev);
        }
    }
}

/// Merging the maintenance task into a task list, fresh or existing, leaves
/// exactly one task with the reserved label, the new one at the end, and
/// keeps every other task of the list in its order.
pub proof fn lemma_merge_single_reserved(existing: Option<TasksView>, task: TaskView)
    requires
        task.label == reserved_label(),
    ensures
        reserved_count(merged(existing, task).tasks) == 1,
        merged(existing, task).tasks.last() == task,
        without_reserved(merged(existing, task).tasks) == match existing {
            Some(e) => without_reserved(e.tasks),
            None => Seq::<TaskView>::empty(),
        },
{
    let base = match existing {
        Some(e) => without_reserved(e.tasks),
        None => Seq::<TaskView>::empty(),
    };
    match existing {
        Some(e) => {
            lemma_without_reserved_has_none(e.tasks);
            lemma_without_reserved_idempotent(e.tasks);
        },
        None => {
            assert(seq![task] =~= Seq::<TaskView>::empty().push(task));
        },
    }
    assert(reserved_count(base) == 0);
    assert(without_reserved(base) == base);
    assert(merged(existing, task).tasks =~= base.push(task));
    assert(base.push(task).drop_last() =~= base);
    assert(reserved_count(base.push(task)) == reserved_count(base) + 1);
    assert(without_reserved(base.push(task)) == without_reserved(base));
}

/// A second run with the same settings, reading the document that the first
/// run wrote, ends with the same task list as the first run.
pub proof fn lemma_rerun_keeps_tasks(
    existing: Option<WorkspaceView>,
    update_task: bool,
    args: ArgsView,
    exe: Option<Seq<char>>,
    first: WorkspaceView,
)
    requires
        first.tasks == Some(workspace_tasks(existing, update_task, maintenance_task(args, exe))),
    ensures
        workspace_tasks(Some(first), update_task, maintenance_task(args, exe)) == workspace_tasks(
            existing,
            update_task,
            maintenance_task(args, exe),
        ),
{
    let task = maintenance_task(args, exe);
    let ts1 = workspace_tasks(existing, update_task, task);
    if update_task {
        let prior = match existing {
            Some(e) => e.tasks,
            None => None,
        };
        assert(ts1 == merged(prior, task));
        let base = match prior {
            Some(p) => without_reserved(p.tasks),
            None => Seq::<TaskView>::empty(),
        };
        match prior {
            Some(p) => lemma_without_reserved_idempotent(p.tasks),
            None => {},
        }
        assert(ts1.tasks =~= base.push(task));
        assert(base.push(task).drop_last() =~= base);
        assert(without_reserved(base) == base);
        assert(merged(Some(ts1), task).tasks =~= ts1.tasks);
    }
}

} // verus!
