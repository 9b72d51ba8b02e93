//! # Async executor for WebAssembly
//!
//! The scheduling core of a single-threaded task executor: task tokens, the set of
//! pending tasks, the run queue, the decisions of the run loop and of the futures that
//! yield to the host environment, each with its contract and its proof.
//!
//! The futures themselves (the values that are polled) never enter this crate: whoever
//! drives the executor keeps them, keyed by the task tokens handed out here.
pub mod single_threaded;
