//! The executor proper: the token counter, the pending tasks and the run queue.
use super::laws::{law_completion_removes_only_that_task, law_listing_is_determined};
use super::listing::{lemma_btree_listing, sorted_listing};
use super::task::{Task, TaskHandle};
use futures::channel::oneshot::Receiver;
use std::collections::BTreeSet;
use vstd::prelude::*;
use vstd::std_specs::iter::IteratorSpec;

verus! {

/// The tokens of `s` strictly increase: each token is listed once, in token order.
pub open spec fn ascending(s: Seq<usize>) -> bool {
    forall|i: int, j: int| 0 <= i < j < s.len() ==> s[i] < s[j]
}

/// `after` lists, in token order, the tokens of `before` and `token`.
pub open spec fn listed_with(before: Seq<usize>, after: Seq<usize>, token: usize) -> bool {
    &&& ascending(after)
    &&& forall|x: usize| #[trigger] after.contains(x) <==> (before.contains(x) || x == token)
}

/// The token that follows `counter`: one more, wrapping round to zero after the largest.
pub open spec fn next_token(counter: usize) -> usize {
    if counter == usize::MAX {
        0
    } else {
        (counter + 1) as usize
    }
}

/// The tokens of a sequence of tasks.
pub open spec fn tokens(tasks: Seq<Task>) -> Seq<usize> {
    tasks.map_values(|task: Task| task.token_view())
}

/// What an executor holds, as plain values.
pub struct ExecutorState {
    /// The token that the next spawned task gets.
    pub counter: usize,
    /// The tokens of the tasks that are registered and have not completed, in token order.
    pub tasks: Seq<usize>,
    /// The run queue, as tokens; the next task to run is the last one.
    pub queue: Seq<usize>,
}

impl ExecutorState {
    /// The state is one an executor can be in: its pending tasks are listed in token order.
    pub open spec fn valid(self) -> bool {
        ascending(self.tasks)
    }

    /// Whether the task with this token is registered and has not completed.
    pub open spec fn is_pending(self, token: usize) -> bool {
        self.tasks.contains(token)
    }

    /// The empty executor: no task, an empty queue, and tokens starting from zero.
    pub open spec fn initial() -> ExecutorState {
        ExecutorState { counter: 0, tasks: Seq::empty(), queue: Seq::empty() }
    }

    /// The state after waking the task with this token: a pending task goes to the front
    /// of the queue (it will run after everything queued before it); waking any other
    /// task changes nothing.
    pub open spec fn wake(self, token: usize) -> ExecutorState {
        if self.is_pending(token) {
            ExecutorState { queue: seq![token].add(self.queue), ..self }
        } else {
            self
        }
    }

    /// The state after the task with this token completed: it is no longer pending.
    pub open spec fn complete(self, token: usize) -> ExecutorState {
        ExecutorState { tasks: self.tasks.remove_value(token), ..self }
    }

    /// `after` is this state with one task spawned: the task gets the current counter as
    /// its token, the counter moves on, the task is pending and is queued at the back.
    pub open spec fn spawned(self, after: ExecutorState) -> bool {
        &&& after.counter == next_token(self.counter)
        &&& listed_with(self.tasks, after.tasks, self.counter)
        &&& after.queue == self.queue.push(self.counter)
        &&& after.tasks.len() == self.tasks.len() + if self.is_pending(self.counter) { 0int } else { 1int }
    }

    /// The state after every task has been evicted: nothing is pending or queued, and the
    /// counter carries on, so that no task spawned afterwards takes the token of an
    /// evicted one before the counter has wrapped round.
    pub open spec fn evicted(self) -> ExecutorState {
        ExecutorState { counter: self.counter, tasks: Seq::empty(), queue: Seq::empty() }
    }

    /// The state after every pending task has been woken in token order, as a starving
    /// executor does: the pending tasks go to the front of the queue, the first in token
    /// order last, so that it runs first.
    pub open spec fn wake_all(self) -> ExecutorState {
        ExecutorState { queue: self.tasks.reverse().add(self.queue), ..self }
    }
}

/// Single-threaded executor: hands out task tokens, keeps the set of pending tasks and
/// the run queue.
pub struct Executor {
    counter: usize,
    tasks: BTreeSet<usize>,
    queue: Vec<usize>,
}

impl View for Executor {
    type V = ExecutorState;

    closed spec fn view(&self) -> ExecutorState {
        ExecutorState {
            counter: self.counter,
            tasks: sorted_listing(self.tasks@),
            queue: self.queue@,
        }
    }
}

impl Executor {
    /// Every executor is in a valid state: its pending tasks are listed in token order.
    pub proof fn lemma_valid(&self)
        ensures
            self@.valid(),
    {
        lemma_btree_listing(&self.tasks);
    }

    /// An executor with no task.
    pub fn new() -> (executor: Executor)
        ensures
            executor@ == ExecutorState::initial(),
            executor@.valid(),
    {
        let executor = Executor { counter: 0, tasks: BTreeSet::new(), queue: Vec::new() };
        proof {
            lemma_btree_listing(&executor.tasks);
            assert(executor@.tasks =~= Seq::<usize>::empty());
        }
        executor
    }

    /// Whether the task is registered and has not completed.
    pub fn is_pending(&self, task: Task) -> (pending: bool)
        ensures
            pending == self@.is_pending(task.token_view()),
            self@.valid(),
    {
        proof {
            lemma_btree_listing(&self.tasks);
        }
        self.tasks.contains(&task.token())
    }

    /// Queues the task again, ahead of the queue's order, if it is still pending.
    pub fn enqueue(&mut self, task: Task)
        ensures
            final(self)@ == old(self)@.wake(task.token_view()),
            final(self)@.valid(),
    {
        if self.is_pending(task) {
            self.queue.insert(0, task.token());
            proof {
                assert(self.queue@ =~= seq![task.token_view()].add(old(self)@.queue));
            }
        }
    }

    /// Registers a new task and queues it; returns the task.
    ///
    /// The task gets the current counter as its token; the counter then moves on,
    /// wrapping round after the largest token.
    pub fn spawn_non_static(&mut self) -> (task: Task)
        ensures
            task.token_view() == old(self)@.counter,
            old(self)@.spawned(final(self)@),
            final(self)@.valid(),
    {
        proof {
            lemma_btree_listing(&self.tasks);
        }
        let token = self.counter;
        self.counter = self.counter.wrapping_add(1);
        self.tasks.insert(token);
        self.queue.push(token);
        proof {
            lemma_btree_listing(&self.tasks);
        }
        Task::with_token(token)
    }

    /// Registers a new task whose output will arrive on `receiver`, queues it, and
    /// returns the handle to join it by.
    pub fn spawn<T>(&mut self, receiver: Receiver<T>) -> (handle: TaskHandle<T>)
        ensures
            handle.task_spec().token_view() == old(self)@.counter,
            old(self)@.spawned(final(self)@),
            final(self)@.valid(),
    {
        let task = self.spawn_non_static();
        TaskHandle::new(receiver, task)
    }

    /// Sets the token that the next spawned task gets.
    pub fn set_counter(&mut self, counter: usize)
        ensures
            final(self)@ == (ExecutorState { counter, ..old(self)@ }),
    {
        self.counter = counter;
    }

    /// Marks the task as completed: it is no longer pending.
    pub fn complete(&mut self, task: Task)
        ensures
            final(self)@ == old(self)@.complete(task.token_view()),
            final(self)@.valid(),
    {
        proof {
            lemma_btree_listing(&self.tasks);
            law_completion_removes_only_that_task(self@, task.token_view());
        }
        let ghost before = self@;
        let ghost before_set = self.tasks@;
        self.tasks.remove(&task.token());
        proof {
            lemma_btree_listing(&self.tasks);
            let expected = before.complete(task.token_view()).tasks;
            assert(self.tasks@ == before_set.remove(task.token_view()));
            assert forall|x: usize| self@.tasks.contains(x) <==> expected.contains(x) by {
                assert(before.complete(task.token_view()).is_pending(x)
                    <==> (before.is_pending(x) && x != task.token_view()));
            }
            law_listing_is_determined(self@.tasks, expected);
        }
    }

    /// Evicts every task: nothing is pending or queued any more; the counter carries on.
    pub fn evict_all(&mut self)
        ensures
            final(self)@ == old(self)@.evicted(),
            final(self)@.valid(),
    {
        self.tasks = BTreeSet::new();
        self.queue = Vec::new();
        proof {
            lemma_btree_listing(&self.tasks);
            assert(self@.tasks =~= Seq::<usize>::empty());
            assert(self@.queue =~= Seq::<usize>::empty());
        }
    }

    /// Takes the next task off the run queue, if there is one.
    pub fn pop_queued(&mut self) -> (token: Option<usize>)
        ensures
            old(self)@.queue.len() == 0 ==> token is None && final(self)@ == old(self)@,
            old(self)@.queue.len() > 0 ==> token == Some(old(self)@.queue.last())
                && final(self)@ == (ExecutorState { queue: old(self)@.queue.drop_last(), ..old(self)@ }),
    {
        self.queue.pop()
    }

    /// Wakes every pending task, in token order.
    pub fn wake_all(&mut self)
        ensures
            final(self)@ == old(self)@.wake_all(),
            final(self)@.valid(),
    {
        proof {
            lemma_btree_listing(&self.tasks);
        }
        let ghost start = self@;
        let ghost start_set = self.tasks@;
        let ghost listing = start.tasks;
        for token in it: self.tasks.iter()
            invariant
                it.seq().unref() == listing,
                self.tasks@ == start_set,
                self.counter == start.counter,
                self.queue@ == listing.take(it.index()).reverse().add(start.queue),
        {
            let ghost i = it.index();
            self.queue.insert(0, *token);
            proof {
                assert(listing.take(i + 1).reverse() =~= seq![*token].add(listing.take(i).reverse()));
                assert(self.queue@ =~= listing.take(i + 1).reverse().add(start.queue));
            }
        }
        proof {
            assert(listing.take(listing.len() as int) =~= listing);
        }
    }

    /// The pending tasks, in token order.
    pub fn tasks(&self) -> (tasks: Vec<Task>)
        ensures
            tokens(tasks@) == self@.tasks,
            self@.valid(),
    {
        proof {
            lemma_btree_listing(&self.tasks);
        }
        let ghost listing = self@.tasks;
        let mut tasks: Vec<Task> = Vec::new();
        for token in it: self.tasks.iter()
            invariant
                it.seq().unref() == listing,
                tokens(tasks@) == listing.take(it.index()),
        {
            let ghost i = it.index();
            let ghost before = tasks@;
            let task = Task::with_token(*token);
            tasks.push(task);
            proof {
                assert(tokens(tasks@) =~= tokens(before).push(task.token_view()));
                assert(listing.take(i + 1) =~= listing.take(i).push(listing[i]));
            }
        }
        proof {
            assert(listing.take(listing.len() as int) =~= listing);
        }
        tasks
    }

    /// The queued tasks, in queue order (the last one runs next).
    pub fn queued_tasks(&self) -> (tasks: Vec<Task>)
        ensures
            tokens(tasks@) == self@.queue,
    {
        let mut tasks: Vec<Task> = Vec::new();
        let mut i: usize = 0;
        while i < self.queue.len()
            invariant
                i <= self.queue@.len(),
                tokens(tasks@) == self.queue@.take(i as int),
            decreases self.queue@.len() - i,
        {
            let ghost before = tasks@;
            let task = Task::with_token(self.queue[i]);
            tasks.push(task);
            proof {
                assert(tokens(tasks@) =~= tokens(before).push(task.token_view()));
                assert(self.queue@.take(i + 1) =~= self.queue@.take(i as int).push(self.queue@[i as int]));
            }
            i = i + 1;
        }
        proof {
            assert(self.queue@.take(i as int) =~= self.queue@);
        }
        tasks
    }

    /// The number of pending tasks.
    pub fn tasks_count(&self) -> (count: usize)
        ensures
            count == self@.tasks.len(),
    {
        proof {
            lemma_btree_listing(&self.tasks);
        }
        self.tasks.len()
    }

    /// The number of queued tasks.
    pub fn queued_tasks_count(&self) -> (count: usize)
        ensures
            count == self@.queue.len(),
    {
        self.queue.len()
    }
}

} // verus!
