//! Event handling for vhost-user backends.
//!
//! A vhost-user worker thread waits for queue kicks, listener events and an exit event, and hands
//! them to the backend. There are two kinds of worker: one on `epoll` ([`event_loop`]) and one on
//! `io_uring` ([`iouring`]). Each is a step machine: a value of [`event_loop::EpollStep`] or
//! [`iouring::worker::WorkerStep`] is what the worker asks of its surroundings, and `resume` takes
//! the answer and gives the next step. System calls, locks and the backend's own code stay
//! outside, with whoever drives the machine.

pub mod batch;
pub mod error;
pub mod event_loop;
pub mod event_loop_laws;
pub mod event_loop_step_laws;
pub mod event_set;
pub mod gate;
pub mod iouring;
pub mod os;
pub mod user_data;
