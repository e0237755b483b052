//! A local task supervisor: a registry of shell-command tasks, the decisions of
//! the supervision loop that drives their lifecycle, and a facade that queues
//! commands on the control channel.

mod channel;
pub mod laws;
pub mod manager;
pub mod message;
pub mod registry;
pub mod supervisor;
pub mod task;

pub use manager::TaskManager;
pub use message::TaskMessage;
pub use supervisor::{exit_status, tag_line, Action, Signal, Stream};
pub use task::{Task, TaskStatus};
