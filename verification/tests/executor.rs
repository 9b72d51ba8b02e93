use futures::channel::oneshot;
use wasm_rs_async_executor::single_threaded::{
    join_outcome, received_value, take_received, JoinError, Runtime, Task,
};

/// Runs the loop of the executor the way a driver does, with `poll` standing for the
/// futures: it says whether the polled task completed.
fn drive(rt: &mut Runtime, until: Option<Task>, mut poll: impl FnMut(&mut Runtime, Task) -> bool) -> bool {
    rt.run(until);
    if rt.exit_condition_met() {
        return true;
    }
    loop {
        let mut completed = None;
        if let Some(task) = rt.next_task() {
            if poll(rt, task) {
                completed = Some(task);
            }
        }
        if let Some(result) = rt.after_poll(completed) {
            return result;
        }
    }
}

#[test]
fn test() {
    let mut rt = Runtime::new();
    let (_sender, receiver) = oneshot::channel::<()>();
    let handle = rt.spawn(receiver);
    assert_eq!(rt.tasks_count(), 1);
    assert_eq!(rt.queued_tasks_count(), 1);
    let target = handle.task();
    let finished = drive(&mut rt, None, |_, task| task == target);
    assert!(finished);
    assert_eq!(rt.tasks_count(), 0);
    rt.evict_all();
}

#[test]
fn test_until() {
    let mut rt = Runtime::new();
    let (_s1, r1) = oneshot::channel::<()>();
    let handle1 = rt.spawn(r1);
    let (_s2, r2) = oneshot::channel::<()>();
    let handle2 = rt.spawn(r2);
    let first = handle1.task();
    // the first task never completes; the run ends with the second one
    let finished = drive(&mut rt, Some(handle2.task()), |_, task| task != first);
    assert!(finished);
    assert!(rt.exit_condition_met());
    assert_eq!(rt.tasks_count(), 1);
    assert_eq!(rt.tasks(), vec![first]);
    rt.evict_all();
}

#[test]
fn test_counts() {
    let mut rt = Runtime::new();
    let (_s1, r1) = oneshot::channel::<()>();
    let handle1 = rt.spawn(r1);
    let (_s2, r2) = oneshot::channel::<()>();
    let handle2 = rt.spawn(r2);
    let one = handle1.task();
    let two = handle2.task();
    let mut seen = None;
    let mut released = false;
    let finished = drive(&mut rt, Some(one), |rt, task| {
        if task == two {
            // the second task releases the first and stays pending for ever
            released = true;
            false
        } else if released {
            seen = Some((rt.tasks_count(), rt.queued_tasks_count()));
            true
        } else {
            false
        }
    });
    assert!(finished);
    // both tasks were registered, and nothing was queued while the first one ran
    assert_eq!(seen, Some((2, 0)));
    assert_eq!(rt.tasks_count(), 1);
    assert_eq!(rt.queued_tasks_count(), 0);
    rt.evict_all();
}

#[test]
fn evicted_tasks_dont_requeue() {
    let mut rt = Runtime::new();
    let (_sender, receiver) = oneshot::channel::<()>();
    let handle = rt.spawn(receiver);
    assert_eq!(rt.tasks_count(), 1);
    rt.evict_all();
    assert_eq!(rt.tasks_count(), 0);
    rt.wake_by_ref(handle.task());
    assert_eq!(rt.tasks_count(), 0);
    assert_eq!(rt.queued_tasks_count(), 0);
    // a task spawned after the eviction gets a fresh token
    let fresh = rt.spawn_non_static();
    assert!(fresh != handle.task());
    let queued = rt.queued_tasks();
    rt.wake_by_ref(handle.task());
    assert_eq!(rt.queued_tasks(), queued);
}

#[test]
fn token_exhaustion() {
    let mut rt = Runtime::new();
    rt.set_counter(usize::MAX);
    let handle0 = rt.spawn_non_static();
    let handle = rt.spawn_non_static();
    assert!(handle.token() != handle0.token());
    assert_eq!(handle0.token(), usize::MAX);
    assert_eq!(handle.token(), 0);
    rt.evict_all();
}

#[test]
fn starvation() {
    let mut rt = Runtime::new();
    let a = rt.spawn_non_static();
    let b = rt.spawn_non_static();
    let c = rt.spawn_non_static();
    // every task is polled once without being woken: the queue runs dry
    assert_eq!(rt.next_task(), Some(c));
    assert_eq!(rt.after_poll(None), None);
    assert_eq!(rt.next_task(), Some(b));
    assert_eq!(rt.after_poll(None), None);
    assert_eq!(rt.next_task(), Some(a));
    assert_eq!(rt.queued_tasks_count(), 0);
    // the starving executor wakes every pending task, the first in token order runs first
    assert_eq!(rt.after_poll(None), None);
    assert_eq!(rt.queued_tasks(), vec![c, b, a]);
    assert_eq!(rt.next_task(), Some(a));
}

#[test]
fn starvation_drives_pending_tasks_to_completion() {
    let mut rt = Runtime::new();
    let first = rt.spawn_non_static();
    let second = rt.spawn_non_static();
    let mut polls = 0;
    let finished = drive(&mut rt, None, |_, _| {
        polls += 1;
        // each task needs two polls and never wakes itself
        polls > 2
    });
    assert!(finished);
    assert_eq!(polls, 4);
    assert_eq!(rt.tasks_count(), 0);
    assert!(!rt.is_pending(first));
    assert!(!rt.is_pending(second));
}

#[test]
fn spawn_assigns_consecutive_tokens_and_queues_at_the_back() {
    let mut rt = Runtime::new();
    let a = rt.spawn_non_static();
    let b = rt.spawn_non_static();
    assert_eq!(a.token(), 0);
    assert_eq!(b.token(), 1);
    assert_eq!(rt.queued_tasks(), vec![a, b]);
    assert_eq!(rt.tasks(), vec![a, b]);
    assert!(a < b);
}

#[test]
fn wake_puts_pending_task_at_the_front() {
    let mut rt = Runtime::new();
    let a = rt.spawn_non_static();
    let b = rt.spawn_non_static();
    rt.wake_by_ref(b);
    assert_eq!(rt.queued_tasks(), vec![b, a, b]);
    assert_eq!(rt.queued_tasks_count(), 3);
}

#[test]
fn wrapped_token_reuses_pending_slot() {
    let mut rt = Runtime::new();
    let zero = rt.spawn_non_static();
    rt.set_counter(usize::MAX);
    let max = rt.spawn_non_static();
    let again = rt.spawn_non_static();
    assert_eq!(again, zero);
    assert_eq!(rt.tasks(), vec![zero, max]);
    assert_eq!(rt.tasks_count(), 2);
    assert_eq!(rt.queued_tasks_count(), 3);
}

#[test]
fn completed_tasks_are_listed_in_token_order() {
    let mut rt = Runtime::new();
    rt.set_counter(5);
    let five = rt.spawn_non_static();
    rt.set_counter(2);
    let two = rt.spawn_non_static();
    rt.set_counter(9);
    let nine = rt.spawn_non_static();
    assert_eq!(rt.tasks(), vec![two, five, nine]);
    assert_eq!(rt.next_task(), Some(nine));
    assert_eq!(rt.after_poll(Some(nine)), None);
    assert_eq!(rt.tasks(), vec![two, five]);
    // the run without a task of its own ends when the last task completes
    rt.run(None);
    assert_eq!(rt.after_poll(Some(two)), None);
    assert_eq!(rt.after_poll(Some(five)), Some(true));
    assert!(rt.exit_condition_met());
}

#[test]
fn stale_queue_entries_are_skipped() {
    let mut rt = Runtime::new();
    let a = rt.spawn_non_static();
    rt.wake_by_ref(a);
    assert_eq!(rt.next_task(), Some(a));
    rt.run(Some(a));
    assert_eq!(rt.after_poll(Some(a)), Some(true));
    // the second queue entry of the completed task is dropped without a poll
    assert_eq!(rt.queued_tasks_count(), 1);
    assert_eq!(rt.next_task(), None);
    assert_eq!(rt.queued_tasks_count(), 0);
}

#[test]
fn exit_request_leaves_the_loop_only_when_yielding() {
    let mut rt = Runtime::new();
    let a = rt.spawn_non_static();
    let _b = rt.spawn_non_static();
    rt.run(Some(a));
    rt.request_exit();
    assert_eq!(rt.after_poll(None), Some(false));
    // the request is consumed
    assert_eq!(rt.after_poll(None), None);
    rt.set_yield(false);
    rt.request_exit();
    assert_eq!(rt.after_poll(None), None);
    // and cleared even when not honoured
    rt.set_yield(true);
    assert_eq!(rt.after_poll(None), None);
}

#[test]
fn satisfied_run_returns_at_once_until_restarted() {
    let mut rt = Runtime::new();
    let a = rt.spawn_non_static();
    rt.run(Some(a));
    assert!(!rt.exit_condition_met());
    assert_eq!(rt.after_poll(Some(a)), Some(true));
    assert!(rt.exit_condition_met());
    rt.run(None);
    assert!(!rt.exit_condition_met());
}

#[test]
fn joinining() {
    let mut rt = Runtime::new();
    // the first task sends on a channel; the second waits for it and returns 100; the
    // third joins the second and passes its result on
    let (sender, mut receiver) = oneshot::channel::<()>();
    let (sender1, mut receiver1) = oneshot::channel::<Result<u8, JoinError>>();
    let (out1, in1) = oneshot::channel::<()>();
    let handle1 = rt.spawn(in1);
    let (out2, in2) = oneshot::channel::<u8>();
    let mut handle2 = Some(rt.spawn(in2));
    let task2 = handle2.as_ref().unwrap().task();
    let (_out3, in3) = oneshot::channel::<()>();
    let handle3 = rt.spawn(in3);
    let (t1, t3) = (handle1.task(), handle3.task());
    let mut sender = Some(sender);
    let mut out1 = Some(out1);
    let mut out2 = Some(out2);
    let mut sender1 = Some(sender1);
    let finished = drive(&mut rt, Some(t3), |rt, task| {
        if task == t1 {
            let _ = sender.take().unwrap().send(());
            let _ = out1.take().unwrap().send(());
            // sending wakes the task waiting on the channel
            rt.wake_by_ref(task2);
            true
        } else if task == task2 {
            match take_received(&mut receiver) {
                Some(()) => {
                    let _ = out2.take().unwrap().send(100);
                    true
                }
                None => false,
            }
        } else if task == t3 {
            match handle2.as_mut().unwrap().try_join() {
                Some(result) => {
                    let _ = sender1.take().unwrap().send(result);
                    true
                }
                None => {
                    // a pending join asks to be polled again
                    rt.wake_by_ref(task);
                    false
                }
            }
        } else {
            false
        }
    });
    assert!(finished);
    assert_eq!(take_received(&mut receiver1), Some(Ok(100)));
    assert_eq!(rt.tasks_count(), 0);
    rt.evict_all();
}

#[test]
fn join_through_the_handle() {
    let mut rt = Runtime::new();
    let (sender, receiver) = oneshot::channel::<u8>();
    let mut handle = rt.spawn(receiver);
    assert_eq!(handle.try_join(), None);
    let _ = sender.send(100);
    assert_eq!(handle.try_join(), Some(Ok(100)));
}

#[test]
fn join_after_sender_dropped_is_canceled() {
    let mut rt = Runtime::new();
    let (sender, receiver) = oneshot::channel::<u8>();
    let mut handle = rt.spawn(receiver);
    drop(sender);
    assert_eq!(handle.try_join(), Some(Err(JoinError::Canceled)));
}

#[test]
fn join_outcomes() {
    assert_eq!(join_outcome::<u8>(Ok(None)), None);
    assert_eq!(join_outcome(Ok(Some(7u8))), Some(Ok(7)));
    assert_eq!(join_outcome::<u8>(Err(oneshot::Canceled)), Some(Err(JoinError::Canceled)));
    assert_eq!(received_value(Ok(Some(3u8))), Some(3));
    assert_eq!(received_value::<u8>(Ok(None)), None);
    assert_eq!(received_value::<u8>(Err(oneshot::Canceled)), None);
}

#[test]
fn blocking_on() {
    let mut rt = Runtime::new();
    // a spawned task sends 1; the blocked-on task waits for it
    let (sender, mut receiver) = oneshot::channel::<u8>();
    let (_out, spawned_in) = oneshot::channel::<()>();
    let spawned = rt.spawn(spawned_in).task();
    let (block_out, mut block_in) = oneshot::channel::<u8>();
    let blocked = rt.spawn_non_static();
    rt.set_yield(false);
    let mut sender = Some(sender);
    let mut block_out = Some(block_out);
    let finished = drive(&mut rt, Some(blocked), |_, task| {
        if task == spawned {
            let _ = sender.take().unwrap().send(1);
            true
        } else if task == blocked {
            match take_received(&mut receiver) {
                Some(value) => {
                    let _ = block_out.take().unwrap().send(value);
                    true
                }
                None => false,
            }
        } else {
            false
        }
    });
    rt.set_yield(true);
    assert!(finished);
    assert_eq!(take_received(&mut block_in), Some(1));
    rt.evict_all();
}

#[test]
fn take_received_from_channel() {
    let (sender, mut receiver) = oneshot::channel::<u8>();
    assert_eq!(take_received(&mut receiver), None);
    let _ = sender.send(1);
    assert_eq!(take_received(&mut receiver), Some(1));
}

#[test]
fn blocking_on_canceled_gives_nothing() {
    let (sender, mut receiver) = oneshot::channel::<u8>();
    drop(sender);
    assert_eq!(take_received(&mut receiver), None);
}
