//! # Single-threaded executor
//!
//! The state of the executor is a [`Runtime`]: the [`Executor`] (token counter,
//! pending tasks and run queue) together with the flags that steer the run loop.
pub mod cooperative;
pub mod executor;
pub mod laws;
pub mod listing;
pub mod runtime;
pub mod task;

pub use cooperative::{CallbackStep, CallbackYield, TimeoutFinish, TimeoutStart, TimeoutYield};
pub use executor::Executor;
pub use runtime::Runtime;
pub use task::{join_outcome, received_value, take_received, JoinError, Task, TaskHandle};
