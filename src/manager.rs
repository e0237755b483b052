use vstd::prelude::*;

use crossbeam_channel::{Receiver, Sender};

use crate::channel::{open_channel, post, sent_of};
use crate::message::TaskMessage;
use crate::registry::{
    has_task, output_of, status_of, table_wf, with_new_task, with_spawn, TaskTable,
};
use crate::supervisor::{after_message, expected_action, Action};
use crate::task::{Task, TaskStatus, TaskView};

verus! {

/// The entry point for callers: owns the registry and both ends of the control
/// channel. Commands are queued on the channel for the supervision loop;
/// queries read the registry directly.
pub struct TaskManager {
    tasks: TaskTable,
    sender: Sender<TaskMessage>,
    receiver: Receiver<TaskMessage>,
}

impl View for TaskManager {
    type V = Seq<TaskView>;

    closed spec fn view(&self) -> Seq<TaskView> {
        self.tasks@
    }
}

impl TaskManager {
    /// Ids are dense from one: the record at position `i` has id `i + 1`.
    pub open spec fn wf(&self) -> bool {
        table_wf(self@)
    }

    /// The messages this manager has queued on the control channel, oldest
    /// first.
    pub closed spec fn queued(&self) -> Seq<TaskMessage> {
        sent_of(self.sender)
    }

    pub fn new() -> (r: TaskManager)
        ensures
            r.wf(),
            r@ == Seq::<TaskView>::empty(),
            r.queued() == Seq::<TaskMessage>::empty(),
    {
        let (sender, receiver) = open_channel();
        TaskManager { tasks: TaskTable::new(), sender, receiver }
    }

    /// Registers a `Pending` task for the command line `name`; ids are handed
    /// out from one upward.
    pub fn create_task(&mut self, name: String) -> (id: u64)
        requires
            old(self).wf(),
            old(self)@.len() < u64::MAX,
        ensures
            final(self).wf(),
            id == old(self)@.len() + 1,
            final(self)@ == with_new_task(old(self)@, name@),
            final(self).queued() == old(self).queued(),
    {
        self.tasks.insert(name)
    }

    pub fn task_count(&self) -> (r: usize)
        ensures
            r == self@.len(),
    {
        self.tasks.len()
    }

    /// Queues `msg` for a known task; false, with nothing queued, for an
    /// unknown one.
    fn request(&mut self, id: u64, msg: TaskMessage) -> (r: bool)
        requires
            old(self).wf(),
        ensures
            final(self).wf(),
            r == has_task(old(self)@, id),
            final(self)@ == old(self)@,
            final(self).queued() == if r {
                old(self).queued().push(msg)
            } else {
                old(self).queued()
            },
    {
        if !self.tasks.contains(id) {
            return false;
        }
        let _ = post(&mut self.sender, msg);
        true
    }

    /// Queues a run of the task for the supervision loop; false, with nothing
    /// queued, if the id is unknown. The process starts later, if at all.
    pub fn run_task(&mut self, id: u64) -> (r: bool)
        requires
            old(self).wf(),
        ensures
            final(self).wf(),
            r == has_task(old(self)@, id),
            final(self)@ == old(self)@,
            final(self).queued() == if r {
                old(self).queued().push(TaskMessage::Run(id))
            } else {
                old(self).queued()
            },
    {
        self.request(id, TaskMessage::Run(id))
    }

    /// Queues a stop of the task for the supervision loop; false, with nothing
    /// queued, if the id is unknown.
    pub fn stop_task(&mut self, id: u64) -> (r: bool)
        requires
            old(self).wf(),
        ensures
            final(self).wf(),
            r == has_task(old(self)@, id),
            final(self)@ == old(self)@,
            final(self).queued() == if r {
                old(self).queued().push(TaskMessage::Stop(id))
            } else {
                old(self).queued()
            },
    {
        self.request(id, TaskMessage::Stop(id))
    }

    /// Queues a kill of the task for the supervision loop; false, with nothing
    /// queued, if the id is unknown.
    pub fn kill_task(&mut self, id: u64) -> (r: bool)
        requires
            old(self).wf(),
        ensures
            final(self).wf(),
            r == has_task(old(self)@, id),
            final(self)@ == old(self)@,
            final(self).queued() == if r {
                old(self).queued().push(TaskMessage::Kill(id))
            } else {
                old(self).queued()
            },
    {
        self.request(id, TaskMessage::Kill(id))
    }

    pub fn get_task_status(&self, id: u64) -> (r: Option<TaskStatus>)
        ensures
            r == status_of(self@, id),
    {
        self.tasks.status(id)
    }

    /// Copies of every task record, in id order: each record once, the one
    /// with id `i + 1` at position `i`.
    pub fn get_all_tasks(&self) -> (r: Vec<Task>)
        requires
            self.wf(),
        ensures
            r@.map_values(|t: Task| t@) == self@,
            forall|i: int| 0 <= i < r@.len() ==> (#[trigger] r@[i]).id == i + 1,
    {
        let r = self.tasks.list();
        assert forall|i: int| 0 <= i < r@.len() implies (#[trigger] r@[i]).id == i + 1 by {
            assert(r@.map_values(|t: Task| t@)[i] == r@[i]@);
        }
        r
    }

    /// A copy of the task's output lines; empty if the id is unknown.
    pub fn get_task_output(&self, id: u64) -> (r: Vec<String>)
        ensures
            r@ == output_of(self@, id),
    {
        self.tasks.output(id)
    }

    /// One step of the supervision loop: applies a message taken from the
    /// channel and says what outside work follows.
    pub fn handle(&mut self, msg: TaskMessage) -> (a: Action)
        requires
            old(self).wf(),
        ensures
            final(self).wf(),
            final(self)@ == after_message(old(self)@, msg),
            expected_action(old(self)@, msg, a),
            final(self).queued() == old(self).queued(),
    {
        self.tasks.handle(msg)
    }

    /// Records the outcome of launching a task's process: its pid, or `None`
    /// when the launch failed.
    pub fn record_spawn(&mut self, id: u64, pid: Option<u32>)
        requires
            old(self).wf(),
        ensures
            final(self).wf(),
            final(self)@ == with_spawn(old(self)@, id, pid),
            final(self).queued() == old(self).queued(),
    {
        self.tasks.record_spawn(id, pid)
    }

    /// A sending end of the control channel, for the listeners of a process.
    pub fn sender(&self) -> Sender<TaskMessage> {
        self.sender.clone()
    }

    /// A receiving end of the control channel, for the supervision loop.
    pub fn receiver(&self) -> Receiver<TaskMessage> {
        self.receiver.clone()
    }
}

} // verus!
