//! The decisions of the futures that yield to the host environment.
//!
//! Each such future is polled by the executor; between polls it hands control back to
//! the host (a timer, an animation frame, an idle callback) and asks the run loop to be
//! left, so that the host gets to run what it was asked for. What the host calls back
//! with, and the inner future it may wrap, stay with the caller: the state machines here
//! take what was observed and say what to do.
use vstd::prelude::*;

verus! {

/// The longest span, in milliseconds, that the host's timer takes at once: its delay is
/// a signed 32-bit number, and a larger one fires at once.
pub open spec fn timer_limit() -> u128 {
    0x7fff_ffffu128
}

/// The part of a wait of `millis` milliseconds that one host timer covers: all of it,
/// or the longest span the timer takes.
pub open spec fn timer_span_spec(millis: u128) -> u32 {
    if millis > timer_limit() {
        0x7fff_ffffu32
    } else {
        millis as u32
    }
}

/// The part of a wait of `millis` milliseconds that one host timer covers.
pub fn timer_span(millis: u128) -> (span: u32)
    ensures
        span == timer_span_spec(millis),
        span <= millis,
        millis > 0 ==> span > 0,
        span <= timer_limit(),
{
    if millis > 0x7fff_ffffu128 {
        0x7fff_ffffu32
    } else {
        millis as u32
    }
}

/// The state of a timeout yield, as plain values.
pub struct TimeoutYieldState<O> {
    /// Whether control has been handed to the host already.
    pub yielded: bool,
    /// Whether the output has been delivered.
    pub done: bool,
    /// The inner future's output, kept until the whole timeout has elapsed.
    pub output: Option<O>,
    /// The milliseconds of the timeout that no host timer has covered yet.
    pub remaining: u128,
}

/// What a poll of a timeout yield does before the inner future is polled.
pub enum TimeoutStart<O> {
    /// Stay pending, without asking to be polled again.
    Pending,
    /// The host's timer is still running: ask the run loop to be left (so that the host
    /// gets to fire it), ask to be polled again, and stay pending.
    Wait,
    /// The host's timer fired but part of the timeout is still to come: clear the
    /// timer's mark, have the host set it again after this many milliseconds and then
    /// run the executor, ask the run loop to be left, ask to be polled again, and stay
    /// pending.
    Rearm(u32),
    /// Complete with this output.
    Ready(O),
    /// Poll the inner future and report back with [`TimeoutYield::finish`].
    PollInner,
}

/// What a poll of a timeout yield does once the inner future has been polled.
pub enum TimeoutFinish<O> {
    /// Complete with this output.
    Ready(O),
    /// Hand control to the host: if `ready_after` holds a span, have the host mark the
    /// timer as fired after that many milliseconds and run the executor again; if
    /// `rerun_now`, have the host run the executor again as soon as it has had its turn;
    /// ask the run loop to be left; ask to be polled again; stay pending.
    Yield { rerun_now: bool, ready_after: Option<u32> },
}

impl<O> TimeoutYieldState<O> {
    /// A fresh timeout yield; without a timeout, it waits for one turn of the host.
    pub open spec fn initial(delay: Option<u128>) -> TimeoutYieldState<O> {
        TimeoutYieldState {
            yielded: false,
            done: false,
            output: None,
            remaining: if delay is Some { delay.unwrap() } else { 0 },
        }
    }

    /// The first part of a poll, given whether the host's timer has fired.
    pub open spec fn start(self, elapsed: bool) -> (TimeoutYieldState<O>, TimeoutStart<O>) {
        if self.done {
            (self, TimeoutStart::Pending)
        } else if self.yielded && !elapsed {
            (self, TimeoutStart::Wait)
        } else if self.yielded && self.remaining > 0 {
            let span = timer_span_spec(self.remaining);
            (
                TimeoutYieldState { remaining: (self.remaining - span) as u128, ..self },
                TimeoutStart::Rearm(span),
            )
        } else if self.yielded && self.output is Some {
            (
                TimeoutYieldState { done: true, output: None, ..self },
                TimeoutStart::Ready(self.output.unwrap()),
            )
        } else {
            (self, TimeoutStart::PollInner)
        }
    }

    /// The second part of a poll, given the inner future's output if it was ready.
    ///
    /// The first poll always hands control to the host, setting its timer for the
    /// timeout (or the first span of it) and keeping the output of an inner future that
    /// was ready already; once the whole timeout has elapsed, the yield completes as
    /// soon as the inner future does, and until then has the host run the executor again
    /// at each of its turns.
    pub open spec fn finish(self, inner: Option<O>) -> (TimeoutYieldState<O>, TimeoutFinish<O>) {
        if self.yielded && inner is Some {
            (TimeoutYieldState { done: true, ..self }, TimeoutFinish::Ready(inner.unwrap()))
        } else if self.yielded {
            (self, TimeoutFinish::Yield { rerun_now: true, ready_after: None })
        } else {
            let span = timer_span_spec(self.remaining);
            (
                TimeoutYieldState {
                    yielded: true,
                    output: inner,
                    remaining: (self.remaining - span) as u128,
                    ..self
                },
                TimeoutFinish::Yield { rerun_now: false, ready_after: Some(span) },
            )
        }
    }
}

/// A future that yields to the host through a timer, then completes with the output of
/// an inner future: the decisions, without the inner future and the timer.
pub struct TimeoutYield<O> {
    yielded: bool,
    done: bool,
    output: Option<O>,
    remaining: u128,
}

impl<O> View for TimeoutYield<O> {
    type V = TimeoutYieldState<O>;

    closed spec fn view(&self) -> TimeoutYieldState<O> {
        TimeoutYieldState {
            yielded: self.yielded,
            done: self.done,
            output: self.output,
            remaining: self.remaining,
        }
    }
}

impl<O> TimeoutYield<O> {
    /// A fresh timeout yield with the given timeout in milliseconds, if any.
    pub fn new(delay: Option<u128>) -> (state: TimeoutYield<O>)
        ensures
            state@ == TimeoutYieldState::<O>::initial(delay),
    {
        let remaining = match delay {
            Some(delay) => delay,
            None => 0,
        };
        TimeoutYield { yielded: false, done: false, output: None, remaining }
    }

    /// The first part of a poll, given whether the host's timer has fired.
    pub fn start(&mut self, elapsed: bool) -> (step: TimeoutStart<O>)
        ensures
            (final(self)@, step) == old(self)@.start(elapsed),
    {
        if self.done {
            return TimeoutStart::Pending;
        }
        if self.yielded && !elapsed {
            return TimeoutStart::Wait;
        }
        if self.yielded && self.remaining > 0 {
            let span = timer_span(self.remaining);
            self.remaining = self.remaining - span as u128;
            return TimeoutStart::Rearm(span);
        }
        if self.yielded {
            if let Some(output) = self.output.take() {
                self.done = true;
                return TimeoutStart::Ready(output);
            }
        }
        TimeoutStart::PollInner
    }

    /// The second part of a poll, given the inner future's output if it was ready.
    pub fn finish(&mut self, inner: Option<O>) -> (step: TimeoutFinish<O>)
        ensures
            (final(self)@, step) == old(self)@.finish(inner),
    {
        if self.yielded {
            match inner {
                Some(output) => {
                    self.done = true;
                    TimeoutFinish::Ready(output)
                },
                None => TimeoutFinish::Yield { rerun_now: true, ready_after: None },
            }
        } else {
            self.yielded = true;
            self.output = inner;
            let span = timer_span(self.remaining);
            self.remaining = self.remaining - span as u128;
            TimeoutFinish::Yield { rerun_now: false, ready_after: Some(span) }
        }
    }
}

/// The state of a yield that waits for one host callback, as plain values.
pub struct CallbackYieldState {
    /// Whether the host callback has been requested.
    pub yielded: bool,
    /// Whether the callback's output has been delivered.
    pub done: bool,
}

/// What a poll of a callback yield does.
pub enum CallbackStep {
    /// Stay pending, without asking to be polled again.
    Pending,
    /// Complete with the output the host's callback left.
    TakeOutput,
    /// Request the host callback, ask the run loop to be left, ask to be polled again,
    /// and stay pending.
    Request,
    /// The host callback has not run yet: ask the run loop to be left (so that the host
    /// gets to run it), ask to be polled again, and stay pending.
    Wait,
}

impl CallbackYieldState {
    /// A fresh callback yield.
    pub open spec fn initial() -> CallbackYieldState {
        CallbackYieldState { yielded: false, done: false }
    }

    /// A poll, given whether the host's callback has left its output.
    pub open spec fn poll(self, output_ready: bool) -> (CallbackYieldState, CallbackStep) {
        if self.done {
            (self, CallbackStep::Pending)
        } else if self.yielded && output_ready {
            (CallbackYieldState { done: true, ..self }, CallbackStep::TakeOutput)
        } else if !self.yielded {
            (CallbackYieldState { yielded: true, ..self }, CallbackStep::Request)
        } else {
            (self, CallbackStep::Wait)
        }
    }
}

/// A future that yields to the host until one host callback (an animation frame, an
/// idle period) has run, then completes with what the callback left: the decisions,
/// without the callback and its output.
pub struct CallbackYield {
    yielded: bool,
    done: bool,
}

impl View for CallbackYield {
    type V = CallbackYieldState;

    closed spec fn view(&self) -> CallbackYieldState {
        CallbackYieldState { yielded: self.yielded, done: self.done }
    }
}

impl CallbackYield {
    /// A fresh callback yield.
    pub fn new() -> (state: CallbackYield)
        ensures
            state@ == CallbackYieldState::initial(),
    {
        CallbackYield { yielded: false, done: false }
    }

    /// A poll, given whether the host's callback has left its output.
    pub fn poll(&mut self, output_ready: bool) -> (step: CallbackStep)
        ensures
            (final(self)@, step) == old(self)@.poll(output_ready),
    {
        if self.done {
            return CallbackStep::Pending;
        }
        let should_yield = !self.yielded;
        if self.yielded && output_ready {
            self.done = true;
            return CallbackStep::TakeOutput;
        }
        if should_yield {
            self.yielded = true;
            CallbackStep::Request
        } else {
            CallbackStep::Wait
        }
    }
}

} // verus!
