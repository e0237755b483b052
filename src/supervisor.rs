use vstd::prelude::*;
use vstd::string::StringExecFns;

use crate::message::TaskMessage;
use crate::registry::{
    has_task, pid_of, task_at, with_line, with_status, TaskTable,
};
use crate::task::{TaskStatus, TaskView};

verus! {

/// The signal that ends a process: graceful for a stop, forced for a kill.
#[derive(Clone, Copy, Debug, PartialEq, Eq, Structural)]
pub enum Signal {
    Terminate,
    Kill,
}

/// The output stream a captured line came from.
#[derive(Clone, Copy, Debug, PartialEq, Eq, Structural)]
pub enum Stream {
    Stdout,
    Stderr,
}

/// Outside work that the supervision loop asks for after a message.
#[derive(Debug)]
pub enum Action {
    /// Nothing to do beyond the registry update.
    Nothing,
    /// Launch `command` through the shell for task `id`, then report the
    /// outcome with `record_spawn`.
    Spawn { id: u64, command: String },
    /// Deliver `signal` to the process `pid`.
    Signal { pid: u32, signal: Signal },
}

/// The task id a message is routed to.
pub open spec fn target(msg: TaskMessage) -> u64 {
    match msg {
        TaskMessage::Run(id) => id,
        TaskMessage::Stop(id) => id,
        TaskMessage::Kill(id) => id,
        TaskMessage::UpdateStatus(id, _) => id,
        TaskMessage::WriteOutput(id, _) => id,
    }
}

/// A stop or kill request takes effect only once the task has a process.
pub open spec fn with_signal(v: Seq<TaskView>, id: u64, s: TaskStatus) -> Seq<TaskView> {
    if pid_of(v, id) is Some {
        with_status(v, id, s)
    } else {
        v
    }
}

/// The registry after the supervision loop has handled one message.
pub open spec fn after_message(v: Seq<TaskView>, msg: TaskMessage) -> Seq<TaskView> {
    match msg {
        TaskMessage::Run(_) => v,
        TaskMessage::Stop(id) => with_signal(v, id, TaskStatus::Stopped),
        TaskMessage::Kill(id) => with_signal(v, id, TaskStatus::Killed),
        TaskMessage::UpdateStatus(id, s) => with_status(v, id, s),
        TaskMessage::WriteOutput(id, line) => with_line(v, id, line),
    }
}

/// The registry after the loop has handled every message of `msgs`, in order.
pub open spec fn after_messages(v: Seq<TaskView>, msgs: Seq<TaskMessage>) -> Seq<TaskView>
    decreases msgs.len(),
{
    if msgs.len() == 0 {
        v
    } else {
        after_message(after_messages(v, msgs.drop_last()), msgs.last())
    }
}

/// Whether a run request launches a process: the task exists, and no process
/// of an earlier run may still be alive. A `Running` task is running; a
/// `Stopped` or `Killed` one was only signalled and may not have exited. A
/// `Pending`, `Completed` or `Failed` task may be run (again).
pub open spec fn may_launch(v: Seq<TaskView>, id: u64) -> bool {
    has_task(v, id) && task_at(v, id).status != TaskStatus::Running
        && !task_at(v, id).status.is_sticky()
}

/// A run is launched when `may_launch` allows it; a stop or kill signals the
/// task's process if it has one.
pub open spec fn expected_action(v: Seq<TaskView>, msg: TaskMessage, a: Action) -> bool {
    match msg {
        TaskMessage::Run(id) => if may_launch(v, id) {
            a matches Action::Spawn { id: i, command } && i == id && command@ == task_at(v, id).name
        } else {
            a is Nothing
        },
        TaskMessage::Stop(id) => match pid_of(v, id) {
            Some(p) => a == (Action::Signal { pid: p, signal: Signal::Terminate }),
            None => a is Nothing,
        },
        TaskMessage::Kill(id) => match pid_of(v, id) {
            Some(p) => a == (Action::Signal { pid: p, signal: Signal::Kill }),
            None => a is Nothing,
        },
        _ => a is Nothing,
    }
}

pub open spec fn exit_status_of(success: bool) -> TaskStatus {
    if success {
        TaskStatus::Completed
    } else {
        TaskStatus::Failed
    }
}

pub open spec fn tag_of(stream: Stream) -> Seq<char> {
    match stream {
        Stream::Stdout => "[stdout] "@,
        Stream::Stderr => "[stderr] "@,
    }
}

/// The status a finished process leaves: `Completed` for a successful exit,
/// `Failed` for a non-zero exit code or a failed wait.
pub fn exit_status(success: bool) -> (r: TaskStatus)
    ensures
        r == exit_status_of(success),
{
    if success {
        TaskStatus::Completed
    } else {
        TaskStatus::Failed
    }
}

/// A captured line as it is stored: the stream's tag, then the line.
pub fn tag_line(stream: Stream, line: &str) -> (r: String)
    ensures
        r@ == tag_of(stream) + line@,
{
    let mut r = match stream {
        Stream::Stdout => <String as StringExecFns>::from_str("[stdout] "),
        Stream::Stderr => <String as StringExecFns>::from_str("[stderr] "),
    };
    r.append(line);
    r
}

impl TaskTable {
    /// Applies one control message to the registry and says what outside work
    /// follows. A run request is refused while the task is `Running`,
    /// `Stopped` or `Killed`, so that one id never has two live processes and a
    /// late exit of an old process cannot overwrite a new run's status; a
    /// `Pending`, `Completed` or `Failed` task is launched.
    pub fn handle(&mut self, msg: TaskMessage) -> (a: Action)
        requires
            old(self).wf(),
        ensures
            final(self).wf(),
            final(self)@ == after_message(old(self)@, msg),
            expected_action(old(self)@, msg, a),
    {
        match msg {
            TaskMessage::Run(id) => match self.status(id) {
                Some(s) => if s != TaskStatus::Running && s != TaskStatus::Stopped && s
                    != TaskStatus::Killed {
                    Action::Spawn { id, command: self.command(id) }
                } else {
                    Action::Nothing
                },
                None => Action::Nothing,
            },
            TaskMessage::Stop(id) => match self.pid(id) {
                Some(p) => {
                    self.update_status(id, TaskStatus::Stopped);
                    Action::Signal { pid: p, signal: Signal::Terminate }
                },
                None => Action::Nothing,
            },
            TaskMessage::Kill(id) => match self.pid(id) {
                Some(p) => {
                    self.update_status(id, TaskStatus::Killed);
                    Action::Signal { pid: p, signal: Signal::Kill }
                },
                None => Action::Nothing,
            },
            TaskMessage::UpdateStatus(id, s) => {
                self.update_status(id, s);
                Action::Nothing
            },
            TaskMessage::WriteOutput(id, line) => {
                self.append_output(id, line);
                Action::Nothing
            },
        }
    }
}

} // verus!
