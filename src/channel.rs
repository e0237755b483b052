use vstd::prelude::*;

use crate::message::TaskMessage;

verus! {

#[verifier::external_type_specification]
#[verifier::external_body]
#[verifier::reject_recursive_types(T)]
pub struct ExSender<T>(crossbeam_channel::Sender<T>);

#[verifier::external_type_specification]
#[verifier::external_body]
#[verifier::reject_recursive_types(T)]
pub struct ExReceiver<T>(crossbeam_channel::Receiver<T>);

#[verifier::external_type_specification]
#[verifier::external_body]
#[verifier::reject_recursive_types(T)]
pub struct ExSendError<T>(crossbeam_channel::SendError<T>);

/// The control messages handed to the channel through this sending handle, in
/// the order they were handed over.
pub uninterp spec fn sent_of(s: crossbeam_channel::Sender<TaskMessage>) -> Seq<TaskMessage>;

/// Relies on crossbeam_channel::unbounded: opens a fresh channel with no
/// capacity limit; nothing has been handed to its sending end yet.
#[verifier::external_body]
pub(crate) fn open_channel() -> (r: (
    crossbeam_channel::Sender<TaskMessage>,
    crossbeam_channel::Receiver<TaskMessage>,
))
    ensures
        sent_of(r.0) == Seq::<TaskMessage>::empty(),
{
    crossbeam_channel::unbounded()
}

/// Relies on crossbeam_channel::Sender::send: hands `msg` to the channel behind
/// `s`. On an unbounded channel it never blocks; it returns an error (and the
/// message is dropped) only when every receiver is gone.
#[verifier::external_body]
pub(crate) fn post(s: &mut crossbeam_channel::Sender<TaskMessage>, msg: TaskMessage) -> (delivered: bool)
    ensures
        sent_of(*final(s)) == sent_of(*old(s)).push(msg),
{
    s.send(msg).is_ok()
}

/// Relies on crossbeam_channel's Clone for Sender: another handle on the same
/// channel.
pub assume_specification<T>[ <crossbeam_channel::Sender<T> as Clone>::clone ](
    s: &crossbeam_channel::Sender<T>,
) -> crossbeam_channel::Sender<T>;

/// Relies on crossbeam_channel's Clone for Receiver: another handle on the same
/// channel.
pub assume_specification<T>[ <crossbeam_channel::Receiver<T> as Clone>::clone ](
    r: &crossbeam_channel::Receiver<T>,
) -> crossbeam_channel::Receiver<T>;

} // verus!
