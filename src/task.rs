use vstd::prelude::*;

verus! {

/// Lifecycle state of a task.
#[derive(Clone, Copy, Debug, PartialEq, Eq, Structural)]
pub enum TaskStatus {
    Pending,
    Running,
    Completed,
    Failed,
    Stopped,
    Killed,
}

impl TaskStatus {
    /// A status recorded at an operator's request; no later event overwrites it.
    pub open spec fn is_sticky(self) -> bool {
        self == TaskStatus::Stopped || self == TaskStatus::Killed
    }
}

/// One shell command and its tracked lifecycle.
#[derive(Clone, Debug)]
pub struct Task {
    pub id: u64,
    /// The command line handed to the shell.
    pub name: String,
    pub status: TaskStatus,
    /// The OS process id, set once the process has been spawned.
    pub pid: Option<u32>,
    /// Captured output lines, in the order they arrived.
    pub output: Vec<String>,
}

/// The mathematical model of a task record.
pub struct TaskView {
    pub id: u64,
    pub name: Seq<char>,
    pub status: TaskStatus,
    pub pid: Option<u32>,
    pub output: Seq<String>,
}

/// A fresh record: `Pending`, no process, no output.
pub open spec fn fresh_task(id: u64, name: Seq<char>) -> TaskView {
    TaskView { id, name, status: TaskStatus::Pending, pid: None, output: Seq::empty() }
}

impl View for Task {
    type V = TaskView;

    open spec fn view(&self) -> TaskView {
        TaskView {
            id: self.id,
            name: self.name@,
            status: self.status,
            pid: self.pid,
            output: self.output@,
        }
    }
}

impl Task {
    pub fn new(id: u64, name: String) -> (r: Task)
        ensures
            r@ == fresh_task(id, name@),
    {
        Task { id, name, status: TaskStatus::Pending, pid: None, output: Vec::new() }
    }

    /// An independent copy of the record.
    pub fn snapshot(&self) -> (r: Task)
        ensures
            r@ == self@,
    {
        let output = self.output.clone();
        proof {
            assert(output@ =~= self.output@);
        }
        Task { id: self.id, name: self.name.clone(), status: self.status, pid: self.pid, output }
    }
}

} // verus!
