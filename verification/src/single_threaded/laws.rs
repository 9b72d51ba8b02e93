//! Properties of the executor that span several of its operations.
use super::cooperative::{
    CallbackStep, CallbackYieldState, TimeoutFinish, TimeoutStart, TimeoutYieldState,
    timer_limit, timer_span_spec,
};
use super::task::{join_outcome_spec, received_value_spec, JoinError};
use super::executor::{ascending, next_token, ExecutorState};
use super::runtime::RuntimeState;
use vstd::prelude::*;

verus! {

/// Two listings in token order of the same tasks are the same listing: the order in
/// which pending tasks are listed is determined by which tasks are pending.
pub proof fn law_listing_is_determined(a: Seq<usize>, b: Seq<usize>)
    requires
        ascending(a),
        ascending(b),
        forall|x: usize| a.contains(x) <==> b.contains(x),
    ensures
        a == b,
    decreases a.len() + b.len(),
{
    if a.len() == 0 || b.len() == 0 {
        if a.len() > 0 {
            assert(a.contains(a[0]));
        }
        if b.len() > 0 {
            assert(b.contains(b[0]));
        }
        assert(a =~= b);
    } else {
        assert(a.contains(a[0]));
        assert(b.contains(b[0]));
        let ka = choose|k: int| 0 <= k < b.len() && b[k] == a[0];
        let kb = choose|k: int| 0 <= k < a.len() && a[k] == b[0];
        if ka > 0 {
            assert(b[0] < b[ka]);
            assert(a[0] <= a[kb]);
        }
        if kb > 0 {
            assert(a[0] < a[kb]);
        }
        assert(a[0] == b[0]);
        let ra = a.drop_first();
        let rb = b.drop_first();
        assert forall|x: usize| ra.contains(x) <==> rb.contains(x) by {
            if ra.contains(x) {
                let k = choose|k: int| 0 <= k < ra.len() && ra[k] == x;
                assert(a[k + 1] == x && a[0] < x);
                assert(a.contains(x));
                let j = choose|j: int| 0 <= j < b.len() && b[j] == x;
                assert(j != 0);
                assert(rb[j - 1] == x);
            }
            if rb.contains(x) {
                let k = choose|k: int| 0 <= k < rb.len() && rb[k] == x;
                assert(b[k + 1] == x && b[0] < x);
                assert(b.contains(x));
                let j = choose|j: int| 0 <= j < a.len() && a[j] == x;
                assert(j != 0);
                assert(ra[j - 1] == x);
            }
        }
        law_listing_is_determined(ra, rb);
        assert(a =~= seq![a[0]].add(ra));
        assert(b =~= seq![b[0]].add(rb));
    }
}

/// A spawned task is pending and is the next to run; the task count grows by one
/// unless a pending task already had that token.
pub proof fn law_spawned_task_is_pending_and_queued(before: ExecutorState, after: ExecutorState)
    requires
        before.valid(),
        before.spawned(after),
    ensures
        after.valid(),
        after.is_pending(before.counter),
        after.queue.last() == before.counter,
        after.queue.drop_last() == before.queue,
        !before.is_pending(before.counter) ==> after.tasks.len() == before.tasks.len() + 1,
        forall|x: usize| before.is_pending(x) ==> after.is_pending(x),
{
    assert(after.queue.drop_last() =~= before.queue);
}

/// Two tasks spawned one after the other get different tokens, the second the one
/// following the first, wrapping round to zero after the largest token.
pub proof fn law_successive_spawns_get_distinct_tokens(
    first: ExecutorState,
    second: ExecutorState,
    third: ExecutorState,
)
    requires
        first.spawned(second),
        second.spawned(third),
    ensures
        second.counter == next_token(first.counter),
        second.counter != first.counter,
        first.counter == usize::MAX ==> second.counter == 0,
{
}

/// Waking a task that is not pending changes nothing. In particular, waking an evicted
/// task queues nothing, neither right after the eviction nor after further tasks have
/// been spawned, as long as the counter has not wrapped round onto its token.
pub proof fn law_evicted_tasks_dont_requeue(
    state: ExecutorState,
    respawned: ExecutorState,
    token: usize,
)
    requires
        state.evicted().spawned(respawned),
        token != state.counter,
    ensures
        !state.is_pending(token) ==> state.wake(token) == state,
        state.evicted().wake(token) == state.evicted(),
        state.evicted().tasks.len() == 0,
        state.evicted().queue.len() == 0,
        state.evicted().counter == state.counter,
        respawned.wake(token) == respawned,
{
    assert(!state.evicted().tasks.contains(token));
    assert(!respawned.tasks.contains(token));
}

/// Removing a token from a listing in token order keeps it in token order, and removes
/// that token only.
pub proof fn law_completion_removes_only_that_task(state: ExecutorState, token: usize)
    requires
        state.valid(),
    ensures
        state.complete(token).valid(),
        forall|x: usize| #[trigger] state.complete(token).is_pending(x)
            <==> (state.is_pending(x) && x != token),
        state.is_pending(token) ==> state.complete(token).tasks.len() == state.tasks.len() - 1,
        !state.is_pending(token) ==> state.complete(token) == state,
        state.complete(token).queue == state.queue,
        state.complete(token).counter == state.counter,
{
    let s = state.tasks;
    s.index_of_first_ensures(token);
    if s.contains(token) {
        let i = s.index_of_first(token).unwrap();
        let r = s.remove(i);
        assert(r == state.complete(token).tasks);
        assert forall|j: int, k: int| 0 <= j < k < r.len() implies r[j] < r[k] by {
            let oj = if j < i { j } else { j + 1 };
            let ok = if k < i { k } else { k + 1 };
            assert(r[j] == s[oj] && r[k] == s[ok]);
        }
        assert forall|x: usize| #[trigger] r.contains(x) <==> (s.contains(x) && x != token) by {
            if r.contains(x) {
                let k = choose|k: int| 0 <= k < r.len() && r[k] == x;
                let ok = if k < i { k } else { k + 1 };
                assert(s[ok] == x);
                assert(ok != i);
                if x == token {
                    if ok < i {
                        assert(s[ok] < s[i]);
                    } else {
                        assert(s[i] < s[ok]);
                    }
                }
            }
            if s.contains(x) && x != token {
                let k = choose|k: int| 0 <= k < s.len() && s[k] == x;
                assert(k != i);
                if k < i {
                    assert(r[k] == x);
                } else {
                    assert(r[k - 1] == x);
                }
            }
        }
    }
}

/// Every step of the run loop leaves the executor in a valid state.
pub proof fn law_run_loop_keeps_validity(state: RuntimeState, completed: Option<usize>)
    requires
        state.valid(),
    ensures
        state.next_task().0.valid(),
        state.after_poll(completed).0.valid(),
{
    if let Some(token) = completed {
        law_completion_removes_only_that_task(state.executor, token);
    }
}

/// A run started for a task ends as soon as that task completes: the loop returns
/// `true`, the task is no longer pending, and until the next run is started the run
/// counts as having reached its end.
pub proof fn law_run_until_ends_when_its_task_completes(state: RuntimeState, token: usize)
    requires
        state.valid(),
        state.until == Some(token),
    ensures
        state.after_poll(Some(token)).1 == Some(true),
        state.after_poll(Some(token)).0.until_satisfied,
        !state.after_poll(Some(token)).0.executor.is_pending(token),
        !state.after_poll(Some(token)).0.run(state.until).until_satisfied,
{
    law_completion_removes_only_that_task(state.executor, token);
}

/// A run without a task of its own returns `true` exactly when no task is pending
/// any more.
pub proof fn law_run_to_completion_ends_only_when_idle(state: RuntimeState, completed: Option<usize>)
    requires
        state.valid(),
        state.until is None,
    ensures
        (state.after_poll(completed).1 == Some(true))
            <==> state.after_poll(completed).0.executor.tasks.len() == 0,
{
}

/// The run loop does not starve: whenever it goes on with tasks pending, something is
/// queued; when nothing was queued, every pending task is.
pub proof fn law_run_loop_does_not_starve(state: RuntimeState, completed: Option<usize>)
    requires
        state.valid(),
        state.after_poll(completed).1 is None,
    ensures
        state.after_poll(completed).0.executor.tasks.len() > 0
            ==> state.after_poll(completed).0.executor.queue.len() > 0,
        state.executor.queue.len() == 0 ==> forall|x: usize|
            #[trigger] state.after_poll(completed).0.executor.is_pending(x)
                ==> state.after_poll(completed).0.executor.queue.contains(x),
{
    let post = state.after_poll(completed).0;
    if state.executor.queue.len() == 0 {
        assert forall|x: usize| #[trigger] post.executor.is_pending(x) implies post.executor.queue.contains(x) by {
            let t = post.executor.tasks;
            let k = choose|k: int| 0 <= k < t.len() && t[k] == x;
            assert(post.executor.queue =~= t.reverse());
            assert(t.reverse()[t.len() - 1 - k] == x);
        }
    }
}

/// The run loop is left on request only while yielding is enabled, and a request is
/// consumed by the first step that does not end the run.
pub proof fn law_exit_requests_honoured_only_when_yielding(state: RuntimeState, completed: Option<usize>)
    requires
        state.valid(),
    ensures
        state.after_poll(completed).1 == Some(false) ==> state.exit_loop && state.yield_enabled,
        !state.yield_enabled ==> state.after_poll(completed).1 != Some(false),
        state.after_poll(completed).1 != Some(true) ==> !state.after_poll(completed).0.exit_loop,
        state.exit_loop && state.yield_enabled && !state.after_poll(completed).0.until_satisfied
            ==> state.after_poll(completed).1 == Some(false),
{
}

/// Once a yielding future has delivered its output it stays pending, without asking
/// to be polled again.
pub proof fn law_delivered_yields_stay_pending<O>(
    timeout: TimeoutYieldState<O>,
    callback: CallbackYieldState,
    elapsed: bool,
    ready: bool,
)
    requires
        timeout.done,
        callback.done,
    ensures
        timeout.start(elapsed).0 == timeout,
        timeout.start(elapsed).1 is Pending,
        callback.poll(ready) == (callback, CallbackStep::Pending),
{
}

/// The first poll of a timeout yield hands control to the host, whatever the inner
/// future does: it asks for the timer to be set to the timeout (or its first span, zero
/// without a timeout), does not have the executor run again before that timer fires,
/// and keeps the inner future's output if it was ready.
pub proof fn law_timeout_yield_first_poll_yields<O>(delay: Option<u128>, elapsed: bool, inner: Option<O>)
    ensures
        TimeoutYieldState::<O>::initial(delay).start(elapsed)
            == (TimeoutYieldState::<O>::initial(delay), TimeoutStart::<O>::PollInner),
        TimeoutYieldState::<O>::initial(delay).finish(inner).1 == (TimeoutFinish::<O>::Yield {
            rerun_now: false,
            ready_after: Some(timer_span_spec(if delay is Some { delay.unwrap() } else { 0 })),
        }),
        TimeoutYieldState::<O>::initial(delay).finish(inner).0.yielded,
        TimeoutYieldState::<O>::initial(delay).finish(inner).0.output == inner,
        !TimeoutYieldState::<O>::initial(delay).finish(inner).0.done,
        TimeoutYieldState::<O>::initial(delay).finish(inner).0.remaining + timer_span_spec(
            if delay is Some { delay.unwrap() } else { 0 },
        ) == if delay is Some { delay.unwrap() } else { 0 },
{
}

/// A timeout yield completes only once its timer has fired for the whole timeout: each
/// timer it asks for covers part of what remains (a non-zero part while anything
/// remains), the rest is asked for when a timer fires, and it completes only when a timer
/// has fired and nothing remains. It never has the executor run again while a timer is
/// running.
pub proof fn law_timeout_yield_waits_for_whole_timeout<O>(
    state: TimeoutYieldState<O>,
    elapsed: bool,
    inner: Option<O>,
)
    ensures
        state.start(elapsed).1 is Ready ==> elapsed && state.yielded && state.remaining == 0,
        state.start(elapsed).1 is PollInner && state.yielded ==> elapsed && state.remaining == 0,
        (state.start(elapsed).1 matches TimeoutStart::Rearm(span) ==> span > 0 && elapsed
            && state.start(elapsed).0.remaining + span == state.remaining),
        (state.finish(inner).1 matches TimeoutFinish::Yield { rerun_now, ready_after } ==> (
            rerun_now <==> state.yielded) && (ready_after matches Some(span)
            ==> state.finish(inner).0.remaining + span == state.remaining)),
        state.finish(inner).1 is Ready ==> state.yielded,
{
}

/// Once its timer has fired for the whole timeout, a timeout yield whose inner future is
/// still pending has the executor run again at each turn of the host, so that it
/// completes as soon as the inner future does.
pub proof fn law_timeout_yield_keeps_polling_after_timeout<O>(state: TimeoutYieldState<O>, output: O)
    requires
        state.yielded,
        !state.done,
    ensures
        state.finish(None).0 == state,
        state.finish(None).1 == (TimeoutFinish::<O>::Yield { rerun_now: true, ready_after: None }),
        state.finish(Some(output)).1 == TimeoutFinish::<O>::Ready(output),
        state.finish(Some(output)).0.done,
{
}

/// Once the whole timeout has elapsed, a timeout yield that kept its inner future's
/// output completes with it, and only once.
pub proof fn law_timeout_yield_completes_once<O>(state: TimeoutYieldState<O>, elapsed: bool)
    requires
        state.yielded,
        !state.done,
        state.output is Some,
        state.remaining == 0,
        elapsed,
    ensures
        state.start(elapsed).1 == TimeoutStart::Ready(state.output.unwrap()),
        state.start(elapsed).0.done,
        state.start(elapsed).0.start(elapsed).1 is Pending,
{
}

/// A callback yield requests its host callback exactly once: on its first poll, and
/// never again.
pub proof fn law_callback_requested_once(state: CallbackYieldState, ready: bool)
    ensures
        state.poll(ready).1 is Request <==> (!state.done && !state.yielded),
        !state.done ==> state.poll(ready).0.yielded,
        state.yielded ==> state.poll(ready).0.yielded,
        state.poll(ready).1 is Request ==> !(state.poll(ready).0.poll(ready).1 is Request),
        CallbackYieldState::initial().poll(ready).1 is Request,
{
}

/// One whole poll of a timeout yield, given whether the host's timer has fired and what
/// the inner future gives if it is polled: the new state, and the output it completes
/// with, if it completes.
pub open spec fn timeout_step<O>(state: TimeoutYieldState<O>, elapsed: bool, inner: Option<O>) -> (TimeoutYieldState<O>, Option<O>) {
    let (started, step) = state.start(elapsed);
    match step {
        TimeoutStart::Ready(output) => (started, Some(output)),
        TimeoutStart::PollInner => {
            let (finished, last) = started.finish(inner);
            match last {
                TimeoutFinish::Ready(output) => (finished, Some(output)),
                _ => (finished, None),
            }
        },
        _ => (started, None),
    }
}

/// The outputs a timeout yield completes with over a sequence of polls, in order; each
/// poll gives whether the host's timer has fired and what the inner future gives if it
/// is polled.
pub open spec fn timeout_outputs<O>(state: TimeoutYieldState<O>, polls: Seq<(bool, Option<O>)>) -> Seq<O>
    decreases polls.len(),
{
    if polls.len() == 0 {
        Seq::empty()
    } else {
        let (next, output) = timeout_step(state, polls[0].0, polls[0].1);
        let first = match output {
            Some(o) => seq![o],
            None => Seq::empty(),
        };
        first.add(timeout_outputs(next, polls.drop_first()))
    }
}

/// A timeout yield that has delivered its output completes no more, whatever polls follow.
proof fn lemma_delivered_timeout_completes_no_more<O>(state: TimeoutYieldState<O>, polls: Seq<(bool, Option<O>)>)
    requires
        state.done,
    ensures
        timeout_outputs(state, polls).len() == 0,
    decreases polls.len(),
{
    if polls.len() > 0 {
        lemma_delivered_timeout_completes_no_more(state, polls.drop_first());
    }
}

/// Over any sequence of polls, a timeout yield completes at most once; once it has
/// completed, no later poll completes.
pub proof fn law_timeout_yield_completes_at_most_once<O>(state: TimeoutYieldState<O>, polls: Seq<(bool, Option<O>)>)
    ensures
        timeout_outputs(state, polls).len() <= 1,
        state.done ==> timeout_outputs(state, polls).len() == 0,
    decreases polls.len(),
{
    if state.done {
        lemma_delivered_timeout_completes_no_more(state, polls);
    } else if polls.len() > 0 {
        let (next, output) = timeout_step(state, polls[0].0, polls[0].1);
        if output is Some {
            assert(next.done);
            lemma_delivered_timeout_completes_no_more(next, polls.drop_first());
        } else {
            law_timeout_yield_completes_at_most_once(next, polls.drop_first());
        }
    }
}

/// A timeout yield completes only with an output its inner future gave: the one it kept,
/// or one given at a poll.
proof fn lemma_timeout_outputs_come_from_inner<O>(state: TimeoutYieldState<O>, polls: Seq<(bool, Option<O>)>)
    ensures
        timeout_outputs(state, polls).len() > 0 ==> (state.output == Some(
            timeout_outputs(state, polls)[0],
        ) || exists|i: int|
            0 <= i < polls.len() && #[trigger] polls[i].1 == Some(timeout_outputs(state, polls)[0])),
    decreases polls.len(),
{
    if polls.len() > 0 {
        let rest = polls.drop_first();
        let (next, output) = timeout_step(state, polls[0].0, polls[0].1);
        lemma_timeout_outputs_come_from_inner(next, rest);
        if output is None {
            let outs = timeout_outputs(state, polls);
            assert(outs =~= timeout_outputs(next, rest));
            if outs.len() > 0 {
                if next.output == Some(outs[0]) {
                    if state.output != Some(outs[0]) {
                        assert(polls[0].1 == Some(outs[0]));
                    }
                } else {
                    let i = choose|i: int| 0 <= i < rest.len() && #[trigger] rest[i].1 == Some(outs[0]);
                    assert(polls[i + 1].1 == Some(outs[0]));
                }
            }
        }
    }
}

/// Once a timeout yield has handed control to the host and its whole timeout is covered,
/// a poll at which the timer has fired and the inner future is ready makes it complete,
/// unless it completed before.
proof fn lemma_timeout_completes_when_ready<O>(
    state: TimeoutYieldState<O>,
    polls: Seq<(bool, Option<O>)>,
    k: int,
    output: O,
)
    requires
        state.yielded,
        state.remaining == 0,
        !state.done,
        0 <= k < polls.len(),
        polls[k] == (true, Some(output)),
    ensures
        timeout_outputs(state, polls).len() >= 1,
    decreases k,
{
    let (next, out) = timeout_step(state, polls[0].0, polls[0].1);
    if out is None && k > 0 {
        assert(polls.drop_first()[k - 1] == polls[k]);
        lemma_timeout_completes_when_ready(next, polls.drop_first(), k - 1, output);
    }
}

/// `yield_async`, and a timeout that one host timer covers: over any run of polls in
/// which, after the first poll, the timer has fired and the inner future is ready at some
/// poll, the yield completes exactly once, with an output the inner future gave, and not
/// on its first poll.
pub proof fn law_timeout_yield_completes_once_with_inner_output<O>(
    delay: Option<u128>,
    polls: Seq<(bool, Option<O>)>,
    k: int,
    output: O,
)
    requires
        delay is None || delay.unwrap() <= super::cooperative::timer_limit(),
        1 <= k < polls.len(),
        polls[k] == (true, Some(output)),
    ensures
        timeout_outputs(TimeoutYieldState::<O>::initial(delay), polls).len() == 1,
        exists|i: int|
            0 <= i < polls.len() && #[trigger] polls[i].1 == Some(
                timeout_outputs(TimeoutYieldState::<O>::initial(delay), polls)[0],
            ),
        timeout_step(TimeoutYieldState::<O>::initial(delay), polls[0].0, polls[0].1).1 is None,
{
    let init = TimeoutYieldState::<O>::initial(delay);
    let (next, out) = timeout_step(init, polls[0].0, polls[0].1);
    assert(out is None);
    assert(next.yielded && next.remaining == 0 && !next.done);
    let rest = polls.drop_first();
    assert(rest[k - 1] == polls[k]);
    lemma_timeout_completes_when_ready(next, rest, k - 1, output);
    law_timeout_yield_completes_at_most_once(init, polls);
    assert(timeout_outputs(init, polls) =~= timeout_outputs(next, rest));
    lemma_timeout_outputs_come_from_inner(init, polls);
}

/// How many of a sequence of polls of a callback yield complete, given at each poll
/// whether the host's callback has left its output.
pub open spec fn callback_completions(state: CallbackYieldState, polls: Seq<bool>) -> nat
    decreases polls.len(),
{
    if polls.len() == 0 {
        0
    } else {
        let (next, step) = state.poll(polls[0]);
        (if step is TakeOutput { 1nat } else { 0nat }) + callback_completions(next, polls.drop_first())
    }
}

/// How many of a sequence of polls of a callback yield request the host callback.
pub open spec fn callback_requests(state: CallbackYieldState, polls: Seq<bool>) -> nat
    decreases polls.len(),
{
    if polls.len() == 0 {
        0
    } else {
        let (next, step) = state.poll(polls[0]);
        (if step is Request { 1nat } else { 0nat }) + callback_requests(next, polls.drop_first())
    }
}

/// Over any sequence of polls, a callback yield requests its host callback at most once
/// and completes at most once, and never before the callback was requested.
pub proof fn law_callback_yield_requests_and_completes_once(state: CallbackYieldState, polls: Seq<bool>)
    requires
        state.done ==> state.yielded,
    ensures
        callback_completions(state, polls) <= 1,
        callback_requests(state, polls) <= 1,
        state.yielded ==> callback_requests(state, polls) == 0,
        state.done ==> callback_completions(state, polls) == 0,
        !state.yielded && polls.len() > 0 ==> !(state.poll(polls[0]).1 is TakeOutput),
    decreases polls.len(),
{
    if polls.len() > 0 {
        let (next, step) = state.poll(polls[0]);
        law_callback_yield_requests_and_completes_once(next, polls.drop_first());
    }
}

/// Waking a pending task always queues it at the front, whatever the queue held, and
/// changes nothing else; waking a task that is not pending changes nothing at all.
pub proof fn law_wake_queues_pending_task_at_front(state: ExecutorState, token: usize)
    ensures
        state.is_pending(token) ==> state.wake(token).queue == seq![token].add(state.queue),
        state.is_pending(token) ==> state.wake(token).queue.len() == state.queue.len() + 1,
        state.is_pending(token) ==> state.wake(token).queue[0] == token,
        state.wake(token).tasks == state.tasks,
        state.wake(token).counter == state.counter,
        !state.is_pending(token) ==> state.wake(token) == state,
{
}

/// Starting a run sets its target to exactly the given task, or to none, clears whether
/// the run has ended, and changes nothing else.
pub proof fn law_run_sets_its_target(state: RuntimeState, until: Option<usize>)
    ensures
        state.run(until).until == until,
        !state.run(until).until_satisfied,
        state.run(until).executor == state.executor,
        state.run(until).yield_enabled == state.yield_enabled,
        state.run(until).exit_loop == state.exit_loop,
{
}

/// A run without a task of its own, started after any earlier run, ends as soon as no
/// task is pending: completing the last pending task ends it.
pub proof fn law_run_without_target_ends_with_last_task(state: RuntimeState, token: usize)
    requires
        state.valid(),
        state.executor.tasks == seq![token],
    ensures
        state.run(None).after_poll(Some(token)).1 == Some(true),
        state.run(None).after_poll(Some(token)).0.until_satisfied,
{
    law_completion_removes_only_that_task(state.run(None).executor, token);
    let after = state.run(None).executor.complete(token);
    if after.tasks.len() > 0 {
        assert(after.tasks.contains(after.tasks[0]));
        assert(state.executor.tasks.contains(after.tasks[0]));
    }
}

/// Taking the next task removes exactly the last queue entry and nothing else, and gives
/// that entry's task exactly when it is still pending; with an empty queue it changes
/// nothing and gives nothing.
pub proof fn law_next_task_takes_exactly_the_last_entry(state: RuntimeState)
    ensures
        state.executor.queue.len() > 0 ==> state.next_task().0.executor.queue
            == state.executor.queue.drop_last(),
        state.executor.queue.len() > 0 ==> (state.next_task().1 == Some(state.executor.queue.last())
            <==> state.executor.is_pending(state.executor.queue.last())),
        state.executor.queue.len() > 0 && !state.executor.is_pending(state.executor.queue.last())
            ==> state.next_task().1 is None,
        state.next_task().1 matches Some(token) ==> state.executor.is_pending(token),
        state.next_task().0.executor.tasks == state.executor.tasks,
        state.next_task().0.executor.counter == state.executor.counter,
        state.next_task().0.until == state.until,
        state.next_task().0.until_satisfied == state.until_satisfied,
        state.next_task().0.yield_enabled == state.yield_enabled,
        state.next_task().0.exit_loop == state.exit_loop,
        state.executor.queue.len() == 0 ==> state.next_task() == (state, None::<usize>),
{
}

/// What a step of the run loop after a poll does, whatever its outcome: the task that
/// completed in it is no longer pending, every other task stays as pending as it was, the
/// counter, the run's target and the yield setting stay, and the outcome is: `Some(true)`
/// exactly when the run's task completed or, for a run without a task, nothing is pending
/// any more (and the run is then marked as ended); otherwise `Some(false)` exactly when
/// leaving was requested while yielding is enabled; otherwise `None`. Unless the run
/// ended, the request to leave is consumed. The queue changes only when the loop goes on
/// with nothing queued and tasks pending, and then holds every pending task.
pub proof fn law_after_poll_step(state: RuntimeState, completed: Option<usize>)
    requires
        state.valid(),
    ensures
        completed matches Some(token) ==> !state.after_poll(completed).0.executor.is_pending(token),
        forall|x: usize| completed != Some(x) ==> (
            #[trigger] state.after_poll(completed).0.executor.is_pending(x)
                <==> state.executor.is_pending(x)),
        state.after_poll(completed).0.executor.counter == state.executor.counter,
        state.after_poll(completed).0.until == state.until,
        state.after_poll(completed).0.yield_enabled == state.yield_enabled,
        (state.after_poll(completed).1 == Some(true)) <==> (
            (completed is Some && state.until == completed)
            || (state.until is None && state.after_poll(completed).0.executor.tasks.len() == 0)),
        state.after_poll(completed).1 == Some(true) ==> state.after_poll(completed).0.until_satisfied
            && state.after_poll(completed).0.exit_loop == state.exit_loop,
        state.after_poll(completed).1 != Some(true) ==> (
            (state.after_poll(completed).1 == Some(false)) <==> (state.exit_loop && state.yield_enabled)),
        state.after_poll(completed).1 != Some(true) ==> !state.after_poll(completed).0.exit_loop
            && state.after_poll(completed).0.until_satisfied == state.until_satisfied,
        state.after_poll(completed).1 is Some ==> state.after_poll(completed).0.executor.queue
            == state.executor.queue,
        state.after_poll(completed).1 is None && state.executor.queue.len() > 0
            ==> state.after_poll(completed).0.executor.queue == state.executor.queue,
        state.after_poll(completed).1 is None && state.executor.queue.len() == 0 ==> (
            forall|x: usize| #[trigger] state.after_poll(completed).0.executor.queue.contains(x)
                <==> state.after_poll(completed).0.executor.is_pending(x)),
{
    let post = state.after_poll(completed).0;
    if let Some(token) = completed {
        law_completion_removes_only_that_task(state.executor, token);
        assert(post.executor.tasks == state.executor.complete(token).tasks);
        assert(!state.executor.complete(token).is_pending(token));
        assert(!post.executor.is_pending(token));
        assert forall|x: usize| completed != Some(x) implies (
            #[trigger] post.executor.is_pending(x) <==> state.executor.is_pending(x)) by {
            assert(state.executor.complete(token).is_pending(x) <==> (state.executor.is_pending(x) && x != token));
        }
    } else {
        assert(post.executor.tasks == state.executor.tasks);
    }
    if state.after_poll(completed).1 is None && state.executor.queue.len() == 0 {
        assert forall|x: usize| #[trigger] post.executor.queue.contains(x)
            <==> post.executor.is_pending(x) by {
            let t = post.executor.tasks;
            if t.len() > 0 {
                assert(post.executor.queue =~= t.reverse());
                if post.executor.is_pending(x) {
                    let k = choose|k: int| 0 <= k < t.len() && t[k] == x;
                    assert(t.reverse()[t.len() - 1 - k] == x);
                }
                if post.executor.queue.contains(x) {
                    let k = choose|k: int| 0 <= k < t.len() && t.reverse()[k] == x;
                    assert(t[t.len() - 1 - k] == x);
                }
            } else {
                assert(post.executor.queue =~= Seq::<usize>::empty());
            }
        }
    }
}

/// What the first part of a poll of a timeout yield answers, for every state: it stays
/// pending without asking to be polled again only once the output has been delivered;
/// before the host's timer has fired it waits, changing nothing; once a timer has fired
/// it sets the next timer while part of the timeout remains, then completes with the kept
/// output, or else polls the inner future; before handing control to the host it always
/// polls the inner future.
pub proof fn law_timeout_yield_start_answers<O>(state: TimeoutYieldState<O>, elapsed: bool)
    ensures
        (state.start(elapsed).1 is Pending) <==> state.done,
        state.done ==> state.start(elapsed).0 == state,
        !state.done && state.yielded && !elapsed ==> state.start(elapsed) == (state, TimeoutStart::<O>::Wait),
        !state.done && state.yielded && elapsed && state.remaining > 0 ==> state.start(elapsed).1
            == TimeoutStart::<O>::Rearm(timer_span_spec(state.remaining)),
        !state.done && state.yielded && elapsed && state.remaining > 0 ==> state.start(elapsed).0
            == (TimeoutYieldState { remaining: (state.remaining - timer_span_spec(state.remaining)) as u128, ..state }),
        !state.done && state.yielded && elapsed && state.remaining == 0 && state.output is Some
            ==> state.start(elapsed).1 == TimeoutStart::Ready(state.output.unwrap())
            && state.start(elapsed).0.done && state.start(elapsed).0.output is None,
        !state.done && state.yielded && elapsed && state.remaining == 0 && state.output is None
            ==> state.start(elapsed) == (state, TimeoutStart::<O>::PollInner),
        !state.done && !state.yielded ==> state.start(elapsed) == (state, TimeoutStart::<O>::PollInner),
{
}

/// What the second part of a poll of a timeout yield answers, for every state: before it
/// has handed control to the host it hands it over, setting the timer for the first span
/// of the timeout and keeping what the inner future gave; afterwards it completes with the
/// inner future's output if there is one, and otherwise has the executor run again at the
/// host's next turn, changing nothing.
pub proof fn law_timeout_yield_finish_answers<O>(state: TimeoutYieldState<O>, inner: Option<O>)
    ensures
        !state.yielded ==> state.finish(inner).1 == (TimeoutFinish::<O>::Yield {
            rerun_now: false,
            ready_after: Some(timer_span_spec(state.remaining)),
        }),
        !state.yielded ==> state.finish(inner).0 == (TimeoutYieldState {
            yielded: true,
            output: inner,
            remaining: (state.remaining - timer_span_spec(state.remaining)) as u128,
            ..state
        }),
        state.yielded && inner is Some ==> state.finish(inner).1 == TimeoutFinish::Ready(inner.unwrap())
            && state.finish(inner).0.done,
        state.yielded && inner is None ==> state.finish(inner) == (state, TimeoutFinish::<O>::Yield {
            rerun_now: true,
            ready_after: None,
        }),
{
}

/// What a poll of a callback yield answers, for every state: it stays pending without
/// asking to be polled again only once the output has been delivered; its first poll
/// requests the host callback; afterwards it completes once the callback has left its
/// output, and waits, changing nothing, until then.
pub proof fn law_callback_yield_poll_answers(state: CallbackYieldState, ready: bool)
    ensures
        (state.poll(ready).1 is Pending) <==> state.done,
        state.done ==> state.poll(ready).0 == state,
        !state.done && !state.yielded ==> state.poll(ready) == (CallbackYieldState { yielded: true, done: false }, CallbackStep::Request),
        !state.done && state.yielded && ready ==> state.poll(ready) == (CallbackYieldState { yielded: true, done: true }, CallbackStep::TakeOutput),
        !state.done && state.yielded && !ready ==> state.poll(ready) == (state, CallbackStep::Wait),
{
}

/// Joining gives the task's output once one has been received, `Canceled` once the
/// sending side is gone without one, and nothing while neither has happened; taking a
/// received value gives the value, and nothing otherwise.
pub proof fn law_join_outcomes<T>(value: T, canceled: futures::channel::oneshot::Canceled)
    ensures
        join_outcome_spec::<T>(Ok(Some(value))) == Some(Ok::<T, JoinError>(value)),
        join_outcome_spec::<T>(Ok(None)) is None,
        join_outcome_spec::<T>(Err(canceled)) == Some(Err::<T, JoinError>(JoinError::Canceled)),
        received_value_spec::<T>(Ok(Some(value))) == Some(value),
        received_value_spec::<T>(Ok(None)) is None,
        received_value_spec::<T>(Err(canceled)) is None,
{
}

/// Waking every pending task puts each of them once in front of what was queued, the
/// first in token order nearest the back (so that it runs first), and changes nothing else.
pub proof fn law_wake_all_queues_every_pending_task(state: ExecutorState)
    requires
        state.valid(),
    ensures
        state.wake_all().queue.len() == state.tasks.len() + state.queue.len(),
        state.wake_all().queue.skip(state.tasks.len() as int) == state.queue,
        forall|i: int| 0 <= i < state.tasks.len() ==> #[trigger] state.wake_all().queue[i]
            == state.tasks[state.tasks.len() - 1 - i],
        forall|i: int, j: int| 0 <= i < j < state.tasks.len() ==> state.wake_all().queue[i]
            > state.wake_all().queue[j],
        state.wake_all().tasks == state.tasks,
        state.wake_all().counter == state.counter,
{
    let t = state.tasks;
    let q = state.wake_all().queue;
    if t.len() == 0 {
        assert(t.reverse() =~= Seq::<usize>::empty());
    }
    assert(q.skip(t.len() as int) =~= state.queue);
    assert forall|i: int, j: int| 0 <= i < j < t.len() implies q[i] > q[j] by {
        assert(q[i] == t[t.len() - 1 - i]);
        assert(q[j] == t[t.len() - 1 - j]);
    }
}

/// One host timer covers all of a wait up to the timer's limit, and the limit of a longer
/// one.
pub proof fn law_timer_span_is_capped(millis: u128)
    ensures
        millis <= timer_limit() ==> timer_span_spec(millis) == millis,
        millis > timer_limit() ==> timer_span_spec(millis) == timer_limit(),
        timer_span_spec(millis) <= millis,
{
}

} // verus!
