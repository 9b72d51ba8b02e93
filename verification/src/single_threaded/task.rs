//! Tasks, task handles and joining.
use futures::channel::oneshot::{Canceled, Receiver};
use vstd::prelude::*;

verus! {

/// Task information: the token that identifies a task within its executor.
///
/// Two tasks are equal, and ordered, exactly as their tokens are.
#[derive(Clone, Copy, Debug, PartialEq, Eq, Structural, PartialOrd, Ord, Hash)]
pub struct Task {
    token: usize,
}

impl Task {
    /// The number that identifies the task within its executor.
    pub closed spec fn token_view(&self) -> usize {
        self.token
    }

    /// A task is determined by its token.
    pub broadcast proof fn lemma_token_determines_task(a: Task, b: Task)
        ensures
            #![trigger a.token_view(), b.token_view()]
            a.token_view() == b.token_view() ==> a == b,
    {
    }

    /// The task with the given token.
    pub(crate) fn with_token(token: usize) -> (task: Task)
        ensures
            task.token_view() == token,
    {
        Task { token }
    }

    /// Returns the number that identifies the task within its executor.
    pub fn token(&self) -> (token: usize)
        ensures
            token == self.token_view(),
    {
        self.token
    }
}

/// The receiving end of the one-shot channel on which a task delivers its output.
#[verifier::external_type_specification]
#[verifier::external_body]
#[verifier::reject_recursive_types(T)]
pub struct ExReceiver<T>(Receiver<T>);

/// The error a one-shot receiver reports once its sender is gone with no value sent.
#[verifier::external_type_specification]
#[verifier::external_body]
pub struct ExCanceled(Canceled);

/// Calls `futures::channel::oneshot::Receiver::try_recv`.
///
/// Nothing is stated of the result: it depends on what the sending side has done by
/// the time of the call (sent a value: `Ok(Some(value))`, once; dropped the sender
/// without sending: `Err(Canceled)`; neither yet: `Ok(None)`).
#[verifier::external_body]
fn try_recv<T>(receiver: &mut Receiver<T>) -> Result<Option<T>, Canceled> {
    receiver.try_recv()
}

/// Task joining error
#[derive(Debug, Clone, Copy, PartialEq, Eq, Structural)]
pub enum JoinError {
    /// Task was canceled
    Canceled,
}

/// What joining a task gives for one outcome of a receive on its output channel:
/// `None` while no output is there yet, the output once it arrived, and
/// [`JoinError::Canceled`] when the task's sending side is gone without an output.
pub open spec fn join_outcome_spec<T>(received: Result<Option<T>, Canceled>) -> Option<Result<T, JoinError>> {
    match received {
        Ok(Some(value)) => Some(Ok(value)),
        Ok(None) => None,
        Err(_) => Some(Err(JoinError::Canceled)),
    }
}

/// Turns one outcome of a receive on a task's output channel into the state of the join.
pub fn join_outcome<T>(received: Result<Option<T>, Canceled>) -> (joined: Option<Result<T, JoinError>>)
    ensures
        joined == join_outcome_spec(received),
{
    match received {
        Err(_) => Some(Err(JoinError::Canceled)),
        Ok(Some(value)) => Some(Ok(value)),
        Ok(None) => None,
    }
}

/// What waiting for a value on a one-shot channel gives for one outcome of a receive:
/// the value if one arrived, otherwise nothing.
pub open spec fn received_value_spec<T>(received: Result<Option<T>, Canceled>) -> Option<T> {
    match received {
        Ok(value) => value,
        Err(_) => None,
    }
}

/// Turns one outcome of a receive into the value that arrived, if any.
pub fn received_value<T>(received: Result<Option<T>, Canceled>) -> (value: Option<T>)
    ensures
        value == received_value_spec(received),
{
    match received {
        Ok(value) => value,
        Err(_) => None,
    }
}

/// Takes the value that arrived on a one-shot channel, if any (the outcome of
/// `block_on` once its task has been run): [`received_value`] of one receive on it.
pub fn take_received<T>(receiver: &mut Receiver<T>) -> (value: Option<T>) {
    received_value(try_recv(receiver))
}

/// Task handle: the task, and the channel on which its output arrives.
#[verifier::reject_recursive_types(T)]
pub struct TaskHandle<T> {
    receiver: Receiver<T>,
    task: Task,
}

impl<T> TaskHandle<T> {
    /// The task this handle refers to.
    pub closed spec fn task_spec(&self) -> Task {
        self.task
    }

    /// A handle for `task` whose output arrives on `receiver`.
    pub(crate) fn new(receiver: Receiver<T>, task: Task) -> (handle: TaskHandle<T>)
        ensures
            handle.task_spec() == task,
    {
        TaskHandle { receiver, task }
    }

    /// Returns a copy of task information record
    pub fn task(&self) -> (task: Task)
        ensures
            task == self.task_spec(),
    {
        self.task
    }

    /// Checks, once, whether the task has finished: `None` while it has not, its output
    /// once it has, and [`JoinError::Canceled`] when it can no longer deliver one.
    ///
    /// Whatever the channel held, the result is [`join_outcome`] of one receive on it.
    pub fn try_join(&mut self) -> (joined: Option<Result<T, JoinError>>)
        ensures
            final(self).task_spec() == old(self).task_spec(),
    {
        join_outcome(try_recv(&mut self.receiver))
    }
}

} // verus!
