//! What passes between an io_uring worker and its surroundings.

use vstd::prelude::*;

use crate::event_set::EventSet;

verus! {

/// Completion for an SQE submitted by a backend through
/// [`VhostUserBackendContext`](crate::iouring::context::VhostUserBackendContext).
#[derive(Clone, Copy, Debug, PartialEq, Eq, Structural)]
pub struct IoUringCompletion {
    /// Backend-provided user data with the library-reserved high bits stripped.
    pub user_data: u64,
    /// Operation result from the CQE.
    pub result: i32,
    /// CQE flags.
    pub flags: u32,
}

/// Event delivered to an io_uring-aware backend callback.
#[derive(Clone, Copy, Debug, PartialEq, Eq, Structural)]
pub enum VhostUserBackendEvent {
    /// A queue kick or backend-registered file descriptor became ready.
    Fd { device_event: u16, evset: EventSet },
    /// An SQE submitted by the backend completed.
    IoUringCompletion(IoUringCompletion),
}

/// A completion queue entry.
#[derive(Clone, Copy, Debug, PartialEq, Eq, Structural)]
pub struct Completion {
    /// The user data of the submission that completed.
    pub user_data: u64,
    /// The result.
    pub result: i32,
    /// The flags.
    pub flags: u32,
}

/// What a descriptor has been registered with.
#[derive(Clone, Copy, Debug, PartialEq, Eq, Structural)]
pub struct RegisteredEvent {
    /// The number of the poll that watches it.
    pub token: u64,
    /// The events to be told of.
    pub evset: EventSet,
    /// What those events are to be reported with.
    pub data: u64,
}

/// What a poll of the worker is for.
#[derive(Clone, Copy, Debug, PartialEq, Eq, Structural)]
pub enum PollKind {
    /// Commands from other threads.
    Command,
    /// The exit event.
    Exit,
    /// A queue kick, or a descriptor that the backend registered.
    BackendFd,
}

/// A poll that the worker keeps going.
#[derive(Clone, Copy, Debug, PartialEq, Eq, Structural)]
pub struct PollRegistration {
    /// The descriptor to poll.
    pub fd: i32,
    /// The events to be told of.
    pub evset: EventSet,
    /// What those events are to be reported with.
    pub data: u64,
    /// What the poll is for.
    pub kind: PollKind,
    /// Whether the poll stays armed after it has reported an event.
    pub multishot: bool,
}

/// A command to the worker.
#[derive(Clone, Copy, Debug, PartialEq, Eq, Structural)]
pub enum IoUringCommand {
    /// Start the poll numbered `token`.
    Add { token: u64, fd: i32, evset: EventSet, data: u64 },
    /// End the poll numbered `token`.
    Remove { token: u64 },
}

} // verus!
