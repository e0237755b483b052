use vstd::prelude::*;

use crate::task::TaskStatus;

verus! {

/// A message on the control channel: the first three come from callers, the
/// last two from the listeners that watch a running process.
#[derive(Debug)]
pub enum TaskMessage {
    Run(u64),
    Stop(u64),
    Kill(u64),
    UpdateStatus(u64, TaskStatus),
    WriteOutput(u64, String),
}

} // verus!
