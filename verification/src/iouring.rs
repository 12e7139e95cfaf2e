//! The io_uring worker: waits for completions on an io_uring and hands events to the backend.
//!
//! [`handler`] holds what other threads register, and starts the worker; [`worker`] decides on the
//! steps of the worker; [`context`] is what the backend gets to submit entries of its own.

pub mod config;
pub mod context;
pub mod handler;
pub mod handler_laws;
pub mod push;
pub mod submission;
pub mod types;
pub mod worker;
pub mod worker_laws;
pub mod worker_step_laws;
