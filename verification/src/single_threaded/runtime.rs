//! The executor together with the flags that steer its run loop, and the decisions of
//! that loop.
use super::executor::{Executor, ExecutorState};
use super::task::{Task, TaskHandle};
use futures::channel::oneshot::Receiver;
use vstd::prelude::*;

verus! {

/// The token of an optional task.
pub open spec fn token_of(task: Option<Task>) -> Option<usize> {
    match task {
        Some(task) => Some(task.token_view()),
        None => None,
    }
}

/// What a runtime holds, as plain values.
pub struct RuntimeState {
    /// The executor.
    pub executor: ExecutorState,
    /// The token of the task whose completion ends the current run, if any.
    pub until: Option<usize>,
    /// Whether the current run has reached its end.
    pub until_satisfied: bool,
    /// Whether a request to leave the run loop is honoured.
    pub yield_enabled: bool,
    /// Whether leaving the run loop has been requested.
    pub exit_loop: bool,
}

impl RuntimeState {
    /// The state is one a runtime can be in.
    pub open spec fn valid(self) -> bool {
        self.executor.valid()
    }

    /// A fresh runtime: an empty executor, no run under way, yielding enabled.
    pub open spec fn initial() -> RuntimeState {
        RuntimeState {
            executor: ExecutorState::initial(),
            until: None,
            until_satisfied: false,
            yield_enabled: true,
            exit_loop: false,
        }
    }

    /// The state once a run has been started for `until`.
    pub open spec fn run(self, until: Option<usize>) -> RuntimeState {
        RuntimeState { until, until_satisfied: false, ..self }
    }

    /// Taking the next task off the run queue: the new state, and the task to poll, if
    /// the task taken is still pending.
    pub open spec fn next_task(self) -> (RuntimeState, Option<usize>) {
        let queue = self.executor.queue;
        if queue.len() == 0 {
            (self, None)
        } else {
            let after = RuntimeState {
                executor: ExecutorState { queue: queue.drop_last(), ..self.executor },
                ..self
            };
            if self.executor.is_pending(queue.last()) {
                (after, Some(queue.last()))
            } else {
                (after, None)
            }
        }
    }

    /// Whether the run ends once `completed` (the task just polled, if it completed) has
    /// been accounted for: the run's own task completed, or, for a run without one, no
    /// task is pending any more.
    pub open spec fn run_ends(self, completed: Option<usize>) -> bool {
        ||| (completed is Some && self.until == completed)
        ||| (self.until is None && self.executor.tasks.len() == 0)
    }

    /// The decision of the run loop after a poll: the new state, and whether the loop
    /// returns (`Some(true)`: the run has reached its end; `Some(false)`: leaving the loop
    /// was requested) or goes on (`None`).
    ///
    /// The completed task, if any, is no longer pending. If the run has not ended, the
    /// request to leave is consumed, and honoured only while yielding is enabled. If the
    /// loop goes on with nothing queued but tasks pending, every pending task is woken.
    pub open spec fn after_poll(self, completed: Option<usize>) -> (RuntimeState, Option<bool>) {
        let done = match completed {
            Some(token) => RuntimeState { executor: self.executor.complete(token), ..self },
            None => self,
        };
        if done.run_ends(completed) {
            (RuntimeState { until_satisfied: true, ..done }, Some(true))
        } else {
            let cleared = RuntimeState { exit_loop: false, ..done };
            if self.exit_loop && self.yield_enabled {
                (cleared, Some(false))
            } else if cleared.executor.queue.len() == 0 && cleared.executor.tasks.len() > 0 {
                (RuntimeState { executor: cleared.executor.wake_all(), ..cleared }, None)
            } else {
                (cleared, None)
            }
        }
    }
}

/// The whole state of a single-threaded executor: the executor and the flags of its
/// run loop.
pub struct Runtime {
    executor: Executor,
    until: Option<Task>,
    until_satisfied: bool,
    yield_enabled: bool,
    exit_loop: bool,
}

impl View for Runtime {
    type V = RuntimeState;

    closed spec fn view(&self) -> RuntimeState {
        RuntimeState {
            executor: self.executor@,
            until: token_of(self.until),
            until_satisfied: self.until_satisfied,
            yield_enabled: self.yield_enabled,
            exit_loop: self.exit_loop,
        }
    }
}

impl Runtime {
    /// A fresh runtime.
    pub fn new() -> (runtime: Runtime)
        ensures
            runtime@ == RuntimeState::initial(),
            runtime@.valid(),
    {
        Runtime {
            executor: Executor::new(),
            until: None,
            until_satisfied: false,
            yield_enabled: true,
            exit_loop: false,
        }
    }

    /// Spawn a task whose output arrives on `receiver`; returns its handle.
    pub fn spawn<T>(&mut self, receiver: Receiver<T>) -> (handle: TaskHandle<T>)
        ensures
            handle.task_spec().token_view() == old(self)@.executor.counter,
            old(self)@.executor.spawned(final(self)@.executor),
            final(self)@ == (RuntimeState { executor: final(self)@.executor, ..old(self)@ }),
            final(self)@.valid(),
    {
        self.executor.spawn(receiver)
    }

    /// Spawn a task without an output channel; returns the task.
    pub fn spawn_non_static(&mut self) -> (task: Task)
        ensures
            task.token_view() == old(self)@.executor.counter,
            old(self)@.executor.spawned(final(self)@.executor),
            final(self)@ == (RuntimeState { executor: final(self)@.executor, ..old(self)@ }),
            final(self)@.valid(),
    {
        self.executor.spawn_non_static()
    }

    /// Wake the task: queue it again if it is still pending.
    pub fn wake_by_ref(&mut self, task: Task)
        ensures
            final(self)@ == (RuntimeState {
                executor: old(self)@.executor.wake(task.token_view()),
                ..old(self)@
            }),
            final(self)@.valid(),
    {
        self.executor.enqueue(task);
    }

    /// Start a run: until the given task completes, or, without one, until every task
    /// has completed.
    pub fn run(&mut self, until: Option<Task>)
        ensures
            final(self)@ == old(self)@.run(token_of(until)),
    {
        self.until = until;
        self.until_satisfied = false;
    }

    /// Whether the current run has already reached its end.
    pub fn exit_condition_met(&self) -> (met: bool)
        ensures
            met == self@.until_satisfied,
    {
        self.until_satisfied
    }

    /// Take the next task off the run queue; returns it if it is still pending, that is,
    /// if it is to be polled.
    pub fn next_task(&mut self) -> (task: Option<Task>)
        ensures
            (final(self)@, token_of(task)) == old(self)@.next_task(),
            final(self)@.valid(),
    {
        proof {
            self.executor.lemma_valid();
        }
        match self.executor.pop_queued() {
            Some(token) => {
                let task = Task::with_token(token);
                if self.executor.is_pending(task) {
                    Some(task)
                } else {
                    None
                }
            },
            None => None,
        }
    }

    /// Whether the task is registered and has not completed.
    pub fn is_pending(&self, task: Task) -> (pending: bool)
        ensures
            pending == self@.executor.is_pending(task.token_view()),
    {
        self.executor.is_pending(task)
    }

    /// The decision of the run loop after a poll, given the task that completed in it
    /// (if any); see [`RuntimeState::after_poll`].
    pub fn after_poll(&mut self, completed: Option<Task>) -> (outcome: Option<bool>)
        ensures
            (final(self)@, outcome) == old(self)@.after_poll(token_of(completed)),
            final(self)@.valid(),
    {
        proof {
            self.executor.lemma_valid();
        }
        if let Some(task) = completed {
            self.executor.complete(task);
            if let Some(until) = self.until {
                if until.token() == task.token() {
                    self.until_satisfied = true;
                    return Some(true);
                }
            }
        }
        if self.until.is_none() && self.executor.tasks_count() == 0 {
            self.until_satisfied = true;
            return Some(true);
        }
        let exit_requested = self.exit_loop && self.yield_enabled;
        self.exit_loop = false;
        if exit_requested {
            return Some(false);
        }
        if self.executor.queued_tasks_count() == 0 && self.executor.tasks_count() != 0 {
            self.executor.wake_all();
        }
        None
    }

    /// Request that the run loop be left (honoured while yielding is enabled).
    pub fn request_exit(&mut self)
        ensures
            final(self)@ == (RuntimeState { exit_loop: true, ..old(self)@ }),
    {
        self.exit_loop = true;
    }

    /// Enable or disable honouring requests to leave the run loop.
    pub fn set_yield(&mut self, enabled: bool)
        ensures
            final(self)@ == (RuntimeState { yield_enabled: enabled, ..old(self)@ }),
    {
        self.yield_enabled = enabled;
    }

    /// Returns the number of tasks currently registered with the executor
    pub fn tasks_count(&self) -> (count: usize)
        ensures
            count == self@.executor.tasks.len(),
    {
        self.executor.tasks_count()
    }

    /// Returns the number of tasks currently in the queue to execute
    pub fn queued_tasks_count(&self) -> (count: usize)
        ensures
            count == self@.executor.queue.len(),
    {
        self.executor.queued_tasks_count()
    }

    /// Returns all tasks that haven't completed yet, in token order
    pub fn tasks(&self) -> (tasks: Vec<Task>)
        ensures
            super::executor::tokens(tasks@) == self@.executor.tasks,
    {
        self.executor.tasks()
    }

    /// Returns the queued tasks, in queue order (the last one runs next)
    pub fn queued_tasks(&self) -> (tasks: Vec<Task>)
        ensures
            super::executor::tokens(tasks@) == self@.executor.queue,
    {
        self.executor.queued_tasks()
    }

    /// Removes all tasks from the executor
    ///
    /// Evicted tasks won't be able to get re-scheduled when they will be woken up: the
    /// token counter carries on, so tasks spawned afterwards get fresh tokens.
    pub fn evict_all(&mut self)
        ensures
            final(self)@ == (RuntimeState { executor: old(self)@.executor.evicted(), ..old(self)@ }),
            final(self)@.valid(),
    {
        self.executor.evict_all();
    }

    /// Sets the token that the next spawned task gets.
    pub fn set_counter(&mut self, counter: usize)
        ensures
            final(self)@ == (RuntimeState {
                executor: ExecutorState { counter, ..old(self)@.executor },
                ..old(self)@
            }),
    {
        self.executor.set_counter(counter);
    }
}

} // verus!
