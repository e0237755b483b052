use vstd::prelude::*;

use crate::task::{fresh_task, Task, TaskStatus, TaskView};

verus! {

/// Ids are handed out densely from one: the task with id `k` stands at `k - 1`.
pub open spec fn table_wf(v: Seq<TaskView>) -> bool {
    forall|i: int| 0 <= i < v.len() ==> (#[trigger] v[i]).id == i + 1
}

pub open spec fn has_task(v: Seq<TaskView>, id: u64) -> bool {
    1 <= id <= v.len()
}

pub open spec fn task_at(v: Seq<TaskView>, id: u64) -> TaskView {
    v[id - 1]
}

pub open spec fn status_of(v: Seq<TaskView>, id: u64) -> Option<TaskStatus> {
    if has_task(v, id) {
        Some(task_at(v, id).status)
    } else {
        None
    }
}

pub open spec fn pid_of(v: Seq<TaskView>, id: u64) -> Option<u32> {
    if has_task(v, id) {
        task_at(v, id).pid
    } else {
        None
    }
}

pub open spec fn output_of(v: Seq<TaskView>, id: u64) -> Seq<String> {
    if has_task(v, id) {
        task_at(v, id).output
    } else {
        Seq::empty()
    }
}

/// The registry after a new task with the next id has been added.
pub open spec fn with_new_task(v: Seq<TaskView>, name: Seq<char>) -> Seq<TaskView> {
    v.push(fresh_task((v.len() + 1) as u64, name))
}

/// A status update: applied unless the task is absent or already `Stopped` or
/// `Killed`.
pub open spec fn with_status(v: Seq<TaskView>, id: u64, s: TaskStatus) -> Seq<TaskView> {
    if has_task(v, id) && !task_at(v, id).status.is_sticky() {
        v.update(id - 1, TaskView { status: s, ..task_at(v, id) })
    } else {
        v
    }
}

/// A line appended to a task's output; nothing happens for an unknown id.
pub open spec fn with_line(v: Seq<TaskView>, id: u64, line: String) -> Seq<TaskView> {
    if has_task(v, id) {
        v.update(id - 1, TaskView { output: task_at(v, id).output.push(line), ..task_at(v, id) })
    } else {
        v
    }
}

/// The outcome of a spawn attempt: with a pid the task is `Running`, without
/// one it has `Failed` and keeps no pid.
pub open spec fn with_spawn(v: Seq<TaskView>, id: u64, pid: Option<u32>) -> Seq<TaskView> {
    if has_task(v, id) {
        match pid {
            Some(p) => v.update(
                id - 1,
                TaskView { pid: Some(p), status: TaskStatus::Running, ..task_at(v, id) },
            ),
            None => v.update(id - 1, TaskView { status: TaskStatus::Failed, ..task_at(v, id) }),
        }
    } else {
        v
    }
}

/// The task registry: every task record, owned by the supervisor.
pub struct TaskTable {
    tasks: Vec<Task>,
}

impl View for TaskTable {
    type V = Seq<TaskView>;

    closed spec fn view(&self) -> Seq<TaskView> {
        self.tasks@.map_values(|t: Task| t@)
    }
}

impl TaskTable {
    pub open spec fn wf(&self) -> bool {
        table_wf(self@)
    }

    pub fn new() -> (r: TaskTable)
        ensures
            r.wf(),
            r@ == Seq::<TaskView>::empty(),
    {
        let r = TaskTable { tasks: Vec::new() };
        assert(r@ =~= Seq::<TaskView>::empty());
        r
    }

    pub fn len(&self) -> (r: usize)
        ensures
            r == self@.len(),
    {
        self.tasks.len()
    }

    /// Adds a `Pending` task for the command line `name` and returns its id.
    pub fn insert(&mut self, name: String) -> (id: u64)
        requires
            old(self).wf(),
            old(self)@.len() < u64::MAX,
        ensures
            final(self).wf(),
            id == old(self)@.len() + 1,
            final(self)@ == with_new_task(old(self)@, name@),
    {
        let id: u64 = self.tasks.len() as u64 + 1;
        let t = Task::new(id, name);
        self.tasks.push(t);
        assert(self@ =~= with_new_task(old(self)@, name@));
        id
    }

    pub fn contains(&self, id: u64) -> (r: bool)
        ensures
            r == has_task(self@, id),
    {
        self.slot(id).is_some()
    }

    /// Where the task with this id is stored, if it exists.
    fn slot(&self, id: u64) -> (r: Option<usize>)
        ensures
            self@.len() == self.tasks@.len(),
            r is Some <==> has_task(self@, id),
            r matches Some(i) ==> i == id - 1 && i < self.tasks@.len() && self@[i as int]
                == self.tasks@[i as int]@,
    {
        let n = self.tasks.len();
        if 1 <= id && id <= n as u64 {
            Some((id - 1) as usize)
        } else {
            None
        }
    }

    pub fn status(&self, id: u64) -> (r: Option<TaskStatus>)
        ensures
            r == status_of(self@, id),
    {
        match self.slot(id) {
            Some(i) => Some(self.tasks[i].status),
            None => None,
        }
    }

    pub fn pid(&self, id: u64) -> (r: Option<u32>)
        ensures
            r == pid_of(self@, id),
    {
        match self.slot(id) {
            Some(i) => self.tasks[i].pid,
            None => None,
        }
    }

    /// A copy of the command line of a task that exists.
    pub fn command(&self, id: u64) -> (r: String)
        requires
            has_task(self@, id),
        ensures
            r@ == task_at(self@, id).name,
    {
        let i = self.slot(id).unwrap();
        self.tasks[i].name.clone()
    }

    /// A copy of the task's output lines; empty for an unknown id.
    pub fn output(&self, id: u64) -> (r: Vec<String>)
        ensures
            r@ == output_of(self@, id),
    {
        match self.slot(id) {
            Some(i) => {
                let r = self.tasks[i].output.clone();
                assert(r@ =~= output_of(self@, id));
                r
            },
            None => Vec::new(),
        }
    }

    /// Copies of every record, in id order.
    pub fn list(&self) -> (r: Vec<Task>)
        ensures
            r@.map_values(|t: Task| t@) == self@,
    {
        let mut r: Vec<Task> = Vec::new();
        let mut i: usize = 0;
        while i < self.tasks.len()
            invariant
                i <= self.tasks@.len(),
                r@.len() == i,
                forall|k: int| 0 <= k < i ==> (#[trigger] r@[k])@ == self.tasks@[k]@,
            decreases self.tasks@.len() - i,
        {
            r.push(self.tasks[i].snapshot());
            i = i + 1;
        }
        assert(r@.map_values(|t: Task| t@) =~= self@);
        r
    }

    /// Sets the status unless the task is absent or already `Stopped` or `Killed`.
    pub fn update_status(&mut self, id: u64, s: TaskStatus)
        requires
            old(self).wf(),
        ensures
            final(self).wf(),
            final(self)@ == with_status(old(self)@, id, s),
    {
        if let Some(i) = self.slot(id) {
            let cur = self.tasks[i].status;
            if cur != TaskStatus::Stopped && cur != TaskStatus::Killed {
                self.tasks[i].status = s;
            }
        }
        assert(self@ =~= with_status(old(self)@, id, s));
    }

    /// Appends a line to the task's output; an unknown id is ignored.
    pub fn append_output(&mut self, id: u64, line: String)
        requires
            old(self).wf(),
        ensures
            final(self).wf(),
            final(self)@ == with_line(old(self)@, id, line),
    {
        if let Some(i) = self.slot(id) {
            self.tasks[i].output.push(line);
        }
        assert(self@ =~= with_line(old(self)@, id, line));
    }

    /// Records the outcome of a spawn attempt.
    pub fn record_spawn(&mut self, id: u64, pid: Option<u32>)
        requires
            old(self).wf(),
        ensures
            final(self).wf(),
            final(self)@ == with_spawn(old(self)@, id, pid),
    {
        if let Some(i) = self.slot(id) {
            match pid {
                Some(p) => {
                    self.tasks[i].pid = Some(p);
                    self.tasks[i].status = TaskStatus::Running;
                },
                None => {
                    self.tasks[i].status = TaskStatus::Failed;
                },
            }
        }
        assert(self@ =~= with_spawn(old(self)@, id, pid));
    }
}

} // verus!
