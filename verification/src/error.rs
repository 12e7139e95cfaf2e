//! What can go wrong in a worker.
//!
//! Failures of the surroundings (system calls, the backend) reach the library as values of a type
//! `E` that it never looks into: what it has to know of them, an [`IoFailure`] says beside the
//! value.

use vstd::prelude::*;

use crate::os::OsError;

verus! {

/// What the library has to know of a failed operation.
#[derive(Clone, Copy, Debug, PartialEq, Eq, Structural)]
pub enum IoErrorKind {
    /// A signal interrupted the operation before it did anything.
    Interrupted,
    /// The operation would have had to wait.
    WouldBlock,
    /// Anything else.
    Other,
}

/// A failed operation: its kind, and the error itself.
#[derive(Debug)]
pub struct IoFailure<E> {
    /// The kind of the failure.
    pub kind: IoErrorKind,
    /// The error as the surroundings reported it.
    pub error: E,
}

/// The error inside a [`VringIoUringError`] that the library may have made itself.
#[derive(Debug)]
pub enum IoError<E> {
    /// An error number.
    Os(OsError),
    /// The submission queue had no room, not even after a submit.
    SubmissionQueueFull,
    /// An error that the surroundings reported.
    Reported(E),
}

/// Errors related to vring epoll event handling.
#[derive(Debug)]
pub enum VringEpollError<E> {
    /// Failed to create epoll file descriptor.
    EpollCreateFd(E),
    /// Failed while waiting for events.
    EpollWait(E),
    /// Could not register exit event
    RegisterExitEvent(E),
    /// Failed to read the event from kick EventFd.
    HandleEventReadKick(E),
    /// Failed to handle the event from the backend.
    HandleEventBackendHandling(E),
}

/// Result of vring epoll operations.
pub type VringEpollResult<T, E> = Result<T, VringEpollError<E>>;

/// Errors related to vring io_uring event handling.
#[derive(Debug)]
pub enum VringIoUringError<E> {
    /// Failed to create an io_uring instance.
    IoUringCreate(E),
    /// Failed to create an internal eventfd.
    CreateEvent(E),
    /// Failed to queue an SQE.
    QueueSubmission(IoError<E>),
    /// Failed while submitting or waiting for events.
    SubmitAndWait(IoError<E>),
    /// Failed to read an internal event.
    ConsumeEvent(E),
    /// Failed to read the event from kick EventFd.
    HandleEventReadKick(E),
    /// Failed to handle the event from the backend.
    HandleEventBackendHandling(E),
    /// The io_uring worker was already started.
    AlreadyStarted,
}

/// Result of vring io_uring operations.
pub type VringIoUringResult<T, E> = Result<T, VringIoUringError<E>>;

impl<E> IoError<E> {
    /// The kind that the library gives to an error of its own. An error number and an error that
    /// the surroundings reported have a kind of their own, which is not the library's to say.
    pub open spec fn spec_kind(self) -> Option<IoErrorKind> {
        match self {
            IoError::SubmissionQueueFull => Some(IoErrorKind::WouldBlock),
            IoError::Os(_) | IoError::Reported(_) => None,
        }
    }

    /// The kind that the library gives to an error of its own: a queue that stays full would have
    /// had to be waited for. `None` where the error number or the reported error says the kind.
    pub fn kind(&self) -> (kind: Option<IoErrorKind>)
        ensures
            kind == self.spec_kind(),
    {
        match self {
            IoError::SubmissionQueueFull => Some(IoErrorKind::WouldBlock),
            IoError::Os(_) | IoError::Reported(_) => None,
        }
    }
}

/// The text of [`IoError::SubmissionQueueFull`].
pub fn submission_queue_full_text() -> (text: &'static str)
    ensures
        text@ == "submission queue is full"@,
{
    "submission queue is full"
}

impl<E> VringEpollError<E> {
    /// What precedes the text of the cause in the text of an error.
    pub open spec fn preamble(self) -> Seq<char> {
        match self {
            VringEpollError::EpollCreateFd(_) => "cannot create epoll fd: "@,
            VringEpollError::EpollWait(_) => "failed to wait for epoll event: "@,
            VringEpollError::RegisterExitEvent(_) => "cannot register exit event: "@,
            VringEpollError::HandleEventReadKick(_) => "cannot read vring kick event: "@,
            VringEpollError::HandleEventBackendHandling(_) => "failed to handle epoll event: "@,
        }
    }

    /// The text of the error, given the text of the error that caused it.
    pub fn describe(&self, cause: &str) -> (text: String)
        ensures
            text@ == self.preamble() + cause@,
    {
        let preamble = match self {
            VringEpollError::EpollCreateFd(_) => "cannot create epoll fd: ",
            VringEpollError::EpollWait(_) => "failed to wait for epoll event: ",
            VringEpollError::RegisterExitEvent(_) => "cannot register exit event: ",
            VringEpollError::HandleEventReadKick(_) => "cannot read vring kick event: ",
            VringEpollError::HandleEventBackendHandling(_) => "failed to handle epoll event: ",
        };
        let mut text = preamble.to_owned();
        text.append(cause);
        text
    }
}

impl<E> VringIoUringError<E> {
    /// What precedes the text of the cause in the text of an error.
    pub open spec fn preamble(self) -> Seq<char> {
        match self {
            VringIoUringError::IoUringCreate(_) => "cannot create io_uring: "@,
            VringIoUringError::CreateEvent(_) => "cannot create eventfd: "@,
            VringIoUringError::QueueSubmission(_) => "cannot queue SQE: "@,
            VringIoUringError::SubmitAndWait(_) => "failed to submit or wait for io_uring event: "@,
            VringIoUringError::ConsumeEvent(_) => "cannot consume eventfd: "@,
            VringIoUringError::HandleEventReadKick(_) => "cannot read vring kick event: "@,
            VringIoUringError::HandleEventBackendHandling(_) => "failed to handle io_uring event: "@,
            VringIoUringError::AlreadyStarted => "io_uring worker already started"@,
        }
    }

    /// The text of the error, given the text of the error that caused it. `AlreadyStarted` has no
    /// cause, and `cause` is not looked at.
    pub fn describe(&self, cause: &str) -> (text: String)
        ensures
            self is AlreadyStarted ==> text@ == self.preamble(),
            !(self is AlreadyStarted) ==> text@ == self.preamble() + cause@,
    {
        let preamble = match self {
            VringIoUringError::IoUringCreate(_) => "cannot create io_uring: ",
            VringIoUringError::CreateEvent(_) => "cannot create eventfd: ",
            VringIoUringError::QueueSubmission(_) => "cannot queue SQE: ",
            VringIoUringError::SubmitAndWait(_) => "failed to submit or wait for io_uring event: ",
            VringIoUringError::ConsumeEvent(_) => "cannot consume eventfd: ",
            VringIoUringError::HandleEventReadKick(_) => "cannot read vring kick event: ",
            VringIoUringError::HandleEventBackendHandling(_) => "failed to handle io_uring event: ",
            VringIoUringError::AlreadyStarted => {
                return "io_uring worker already started".to_owned();
            },
        };
        let mut text = preamble.to_owned();
        text.append(cause);
        text
    }
}

/// The text of an error names what was being done, and nothing of the cause changes that part.
pub proof fn texts_name_what_was_done<E>(error: E, cause: IoError<E>)
    ensures
        VringEpollError::EpollCreateFd(error).preamble() == "cannot create epoll fd: "@,
        VringEpollError::EpollWait(error).preamble() == "failed to wait for epoll event: "@,
        VringEpollError::RegisterExitEvent(error).preamble() == "cannot register exit event: "@,
        VringEpollError::HandleEventReadKick(error).preamble() == "cannot read vring kick event: "@,
        VringEpollError::HandleEventBackendHandling(error).preamble()
            == "failed to handle epoll event: "@,
        VringIoUringError::IoUringCreate(error).preamble() == "cannot create io_uring: "@,
        VringIoUringError::CreateEvent(error).preamble() == "cannot create eventfd: "@,
        VringIoUringError::QueueSubmission(cause).preamble() == "cannot queue SQE: "@,
        VringIoUringError::SubmitAndWait(cause).preamble()
            == "failed to submit or wait for io_uring event: "@,
        VringIoUringError::ConsumeEvent(error).preamble() == "cannot consume eventfd: "@,
        VringIoUringError::HandleEventReadKick(error).preamble()
            == "cannot read vring kick event: "@,
        VringIoUringError::HandleEventBackendHandling(error).preamble()
            == "failed to handle io_uring event: "@,
        VringIoUringError::<E>::AlreadyStarted.preamble() == "io_uring worker already started"@,
{
}

/// The library gives a kind to one error only: a full queue, and that is "would block".
pub proof fn only_a_full_queue_has_a_kind<E>(error: IoError<E>)
    ensures
        error is SubmissionQueueFull ==> error.spec_kind() == Some(IoErrorKind::WouldBlock),
        !(error is SubmissionQueueFull) ==> error.spec_kind() is None,
{
}

} // verus!
