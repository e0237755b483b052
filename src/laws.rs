use vstd::prelude::*;

use crate::message::TaskMessage;
use crate::registry::{
    has_task, output_of, pid_of, status_of, table_wf, task_at, with_new_task, with_spawn,
};
use crate::supervisor::{after_message, after_messages, exit_status_of, target};
use crate::task::{TaskStatus, TaskView};

verus! {

/// For an id that was never created every query comes back empty, no record
/// in a listing carries it, and no message addressed to it changes the
/// registry.
pub proof fn lemma_unknown_id(v: Seq<TaskView>, id: u64, msg: TaskMessage)
    requires
        !has_task(v, id),
        target(msg) == id,
    ensures
        status_of(v, id) is None,
        pid_of(v, id) is None,
        output_of(v, id) == Seq::<String>::empty(),
        after_message(v, msg) == v,
        table_wf(v) ==> forall|i: int| 0 <= i < v.len() ==> (#[trigger] v[i]).id != id,
{
}

/// A task that has just been created reports `Pending`.
pub proof fn lemma_created_is_pending(v: Seq<TaskView>, name: Seq<char>)
    requires
        table_wf(v),
        v.len() < u64::MAX,
    ensures
        table_wf(with_new_task(v, name)),
        status_of(with_new_task(v, name), (v.len() + 1) as u64) == Some(TaskStatus::Pending),
{
    let w = with_new_task(v, name);
    assert forall|i: int| 0 <= i < w.len() implies (#[trigger] w[i]).id == i + 1 by {
        if i < v.len() {
            assert(w[i] == v[i]);
        }
    }
}

pub open spec fn is_output(msg: TaskMessage) -> bool {
    msg is WriteOutput
}

/// Output messages, for any tasks, change no task's status.
pub proof fn lemma_output_keeps_status(v: Seq<TaskView>, msgs: Seq<TaskMessage>)
    requires
        forall|k: int| 0 <= k < msgs.len() ==> is_output(#[trigger] msgs[k]),
    ensures
        after_messages(v, msgs).len() == v.len(),
        forall|j: int|
            0 <= j < v.len() ==> (#[trigger] after_messages(v, msgs)[j]).status == v[j].status
                && after_messages(v, msgs)[j].pid == v[j].pid,
    decreases msgs.len(),
{
    if msgs.len() > 0 {
        let init = msgs.drop_last();
        assert forall|k: int| 0 <= k < init.len() implies is_output(#[trigger] init[k]) by {
            assert(init[k] == msgs[k]);
        }
        lemma_output_keeps_status(v, init);
        assert(is_output(msgs[msgs.len() - 1]));
    }
}

/// A spawned process that exits is `Completed` when it exited successfully and
/// `Failed` otherwise, whatever output lines arrived in between.
pub proof fn lemma_exit_resolves(
    v: Seq<TaskView>,
    id: u64,
    pid: u32,
    lines: Seq<TaskMessage>,
    success: bool,
)
    requires
        has_task(v, id),
        forall|k: int| 0 <= k < lines.len() ==> is_output(#[trigger] lines[k]),
    ensures
        status_of(
            after_message(
                after_messages(with_spawn(v, id, Some(pid)), lines),
                TaskMessage::UpdateStatus(id, exit_status_of(success)),
            ),
            id,
        ) == Some(if success {
            TaskStatus::Completed
        } else {
            TaskStatus::Failed
        }),
{
    let w = with_spawn(v, id, Some(pid));
    lemma_output_keeps_status(w, lines);
    assert(after_messages(w, lines)[id - 1].status == w[id - 1].status);
}

/// Once a task is `Stopped` or `Killed`, no message changes its status: not a
/// second stop or kill, nor a late exit event.
pub proof fn lemma_sticky_status(v: Seq<TaskView>, id: u64, msg: TaskMessage)
    requires
        has_task(v, id),
        task_at(v, id).status.is_sticky(),
    ensures
        status_of(after_message(v, msg), id) == status_of(v, id),
{
}

pub open spec fn is_output_for(msg: TaskMessage, id: u64) -> bool {
    match msg {
        TaskMessage::WriteOutput(i, _) => i == id,
        _ => false,
    }
}

/// The same over any run of messages: a `Stopped` or `Killed` task keeps its
/// status through every later stop, kill, exit event or output line.
pub proof fn lemma_sticky_through(v: Seq<TaskView>, id: u64, msgs: Seq<TaskMessage>)
    requires
        has_task(v, id),
        task_at(v, id).status.is_sticky(),
    ensures
        has_task(after_messages(v, msgs), id),
        status_of(after_messages(v, msgs), id) == status_of(v, id),
    decreases msgs.len(),
{
    if msgs.len() > 0 {
        lemma_sticky_through(v, id, msgs.drop_last());
        lemma_sticky_status(after_messages(v, msgs.drop_last()), id, msgs.last());
    }
}

/// The line an output message carries.
pub open spec fn line_of(msg: TaskMessage) -> String {
    match msg {
        TaskMessage::WriteOutput(_, line) => line,
        _ => arbitrary(),
    }
}

/// The lines of a run of output messages.
pub open spec fn lines_of(msgs: Seq<TaskMessage>) -> Seq<String>
    decreases msgs.len(),
{
    if msgs.len() == 0 {
        Seq::empty()
    } else {
        lines_of(msgs.drop_last()).push(line_of(msgs.last()))
    }
}

/// Output messages for one task, in whatever order they arrive, lose no line
/// and keep each line whole: the task's output grows by exactly those lines,
/// in the order they were handled.
pub proof fn lemma_output_kept(v: Seq<TaskView>, id: u64, msgs: Seq<TaskMessage>)
    requires
        has_task(v, id),
        forall|k: int| 0 <= k < msgs.len() ==> is_output_for(#[trigger] msgs[k], id),
    ensures
        has_task(after_messages(v, msgs), id),
        output_of(after_messages(v, msgs), id) == output_of(v, id) + lines_of(msgs),
        output_of(after_messages(v, msgs), id).len() == output_of(v, id).len() + msgs.len(),
    decreases msgs.len(),
{
    if msgs.len() > 0 {
        let init = msgs.drop_last();
        assert forall|k: int| 0 <= k < init.len() implies is_output_for(#[trigger] init[k], id) by {
            assert(init[k] == msgs[k]);
        }
        lemma_output_kept(v, id, init);
        assert(msgs[msgs.len() - 1] == msgs.last());
        assert(output_of(after_messages(v, msgs), id) =~= output_of(v, id) + lines_of(msgs));
    }
}

} // verus!
