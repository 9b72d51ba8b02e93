use wasm_rs_async_executor::single_threaded::cooperative::timer_span;
use wasm_rs_async_executor::single_threaded::{
    CallbackStep, CallbackYield, TimeoutFinish, TimeoutStart, TimeoutYield,
};

#[test]
fn timeout_yield_with_delay() {
    let mut y: TimeoutYield<()> = TimeoutYield::new(Some(1000));
    assert!(matches!(y.start(false), TimeoutStart::PollInner));
    match y.finish(Some(())) {
        TimeoutFinish::Yield { rerun_now, ready_after } => {
            // the executor is not run again before the timer fires
            assert!(!rerun_now);
            assert_eq!(ready_after, Some(1000));
        }
        TimeoutFinish::Ready(_) => panic!("the first poll must yield"),
    }
    // the timer has not fired yet: leave the loop and wait
    assert!(matches!(y.start(false), TimeoutStart::Wait));
    // the timer fired: the kept output is delivered
    assert!(matches!(y.start(true), TimeoutStart::Ready(())));
    // and never again
    assert!(matches!(y.start(true), TimeoutStart::Pending));
    assert!(matches!(y.start(false), TimeoutStart::Pending));
}

#[test]
fn timeout_yield_longer_than_one_timer_rearms() {
    let delay: u128 = (1u128 << 32) + 5;
    let mut y: TimeoutYield<()> = TimeoutYield::new(Some(delay));
    assert!(matches!(y.start(false), TimeoutStart::PollInner));
    match y.finish(Some(())) {
        TimeoutFinish::Yield { rerun_now, ready_after } => {
            assert!(!rerun_now);
            assert_eq!(ready_after, Some(0x7fff_ffff));
        }
        TimeoutFinish::Ready(_) => panic!("the first poll must yield"),
    }
    // the first timer fired, another full span is still to come
    assert!(matches!(y.start(true), TimeoutStart::Rearm(0x7fff_ffff)));
    assert!(matches!(y.start(false), TimeoutStart::Wait));
    // the second timer fired, seven milliseconds are still to come
    assert!(matches!(y.start(true), TimeoutStart::Rearm(7)));
    assert!(matches!(y.start(false), TimeoutStart::Wait));
    // the whole timeout has elapsed now
    assert!(matches!(y.start(true), TimeoutStart::Ready(())));
    assert!(matches!(y.start(true), TimeoutStart::Pending));
}

#[test]
fn timeout_yield_without_delay_waits_for_inner_future() {
    let mut y: TimeoutYield<u32> = TimeoutYield::new(None);
    assert!(matches!(y.start(false), TimeoutStart::PollInner));
    match y.finish(None) {
        TimeoutFinish::Yield { rerun_now, ready_after } => {
            assert!(!rerun_now);
            assert_eq!(ready_after, Some(0));
        }
        TimeoutFinish::Ready(_) => panic!("the first poll must yield"),
    }
    assert!(matches!(y.start(true), TimeoutStart::PollInner));
    // inner future still pending: have the executor run again at the host's next turn
    match y.finish(None) {
        TimeoutFinish::Yield { rerun_now, ready_after } => {
            assert!(rerun_now);
            assert_eq!(ready_after, None);
        }
        TimeoutFinish::Ready(_) => panic!("inner future was pending"),
    }
    assert!(matches!(y.start(true), TimeoutStart::PollInner));
    assert!(matches!(y.finish(Some(5)), TimeoutFinish::Ready(5)));
    assert!(matches!(y.start(true), TimeoutStart::Pending));
}

#[test]
fn timeout_yield_zero_delay() {
    let mut y: TimeoutYield<()> = TimeoutYield::new(Some(0));
    assert!(matches!(y.start(true), TimeoutStart::PollInner));
    match y.finish(Some(())) {
        TimeoutFinish::Yield { rerun_now, ready_after } => {
            assert!(!rerun_now);
            assert_eq!(ready_after, Some(0));
        }
        TimeoutFinish::Ready(_) => panic!("the first poll must yield"),
    }
    assert!(matches!(y.start(true), TimeoutStart::Ready(())));
}

#[test]
fn timer_spans_are_capped() {
    assert_eq!(timer_span(0), 0);
    assert_eq!(timer_span(1500), 1500);
    assert_eq!(timer_span(0x7fff_ffff), 0x7fff_ffff);
    assert_eq!(timer_span(0x8000_0000), 0x7fff_ffff);
    assert_eq!(timer_span((1u128 << 32) + 7), 0x7fff_ffff);
}

#[test]
fn callback_yield_requests_once_then_delivers() {
    let mut y = CallbackYield::new();
    // output is not looked at before the callback was requested
    assert!(matches!(y.poll(true), CallbackStep::Request));
    assert!(matches!(y.poll(false), CallbackStep::Wait));
    assert!(matches!(y.poll(false), CallbackStep::Wait));
    assert!(matches!(y.poll(true), CallbackStep::TakeOutput));
    assert!(matches!(y.poll(true), CallbackStep::Pending));
    assert!(matches!(y.poll(false), CallbackStep::Pending));
}
