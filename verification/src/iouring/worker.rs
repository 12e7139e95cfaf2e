//! The steps of an io_uring worker.
//!
//! The worker keeps a poll going for each descriptor it watches: one for commands from other
//! threads, one for the exit event, and one for each queue and listener of the backend. Each poll
//! has a number, its token, which comes back with every completion of the poll.

use vstd::prelude::*;

use std::collections::HashMap;

use crate::batch::Batch;
use crate::error::{IoError, IoErrorKind, IoFailure, VringIoUringError};
use crate::event_loop::{device_event, device_event_of};
use crate::event_set::{
    event_set_to_poll_flags, events_of, poll_flags_of, poll_flags_to_event_set, EventSet, EVENT_IN,
};
use crate::iouring::submission::Submission;
use crate::iouring::types::{
    Completion, IoUringCommand, IoUringCompletion, PollKind, PollRegistration,
    VhostUserBackendEvent,
};
use crate::os::{OsError, EINVAL};
use crate::user_data::{
    decode_user_data_kind, decode_user_data_payload, encode_user_data, encoded, word_kind,
    word_payload, USER_DATA_KIND_BACKEND, USER_DATA_KIND_CANCEL, USER_DATA_KIND_POLL,
};

verus! {

/// The token of the poll for commands from other threads.
pub const COMMAND_POLL_TOKEN: u64 = 0;

/// The token of the poll for the exit event.
pub const EXIT_POLL_TOKEN: u64 = 1;

/// The first token for the polls of queues and listeners.
pub const FIRST_BACKEND_POLL_TOKEN: u64 = 2;

/// How many completions a wait has to see at least.
pub const WANTED_COMPLETIONS: usize = 1;

/// Whether the flags of a completion announce more completions of the same submission.
pub open spec fn more_announced(flags: u32) -> bool {
    flags & 0x2 != 0
}

/// `io_uring::cqueue::more`: whether the flag `IORING_CQE_F_MORE`, which is 0x2, is set.
pub assume_specification[ io_uring::cqueue::more ](flags: u32) -> (more: bool)
    ensures
        more == more_announced(flags),
;

/// The completion of a poll that the worker is serving.
#[derive(Clone, Copy, Debug, PartialEq, Eq, Structural)]
pub struct PollTurn {
    /// The token of the poll.
    pub token: u64,
    /// The poll.
    pub registration: PollRegistration,
    /// Whether the poll is still armed.
    pub more: bool,
}

/// What comes after an entry has been put on the submission queue.
#[derive(Clone, Copy, Debug, PartialEq, Eq, Structural)]
pub enum AfterPush {
    /// Start the poll for the exit event.
    AddExitPoll,
    /// Wait for completions.
    Wait,
    /// Go on with the next completion.
    NextCompletion,
    /// Go on with the next command.
    DrainCommands(PollTurn),
}

/// What the io_uring worker asks of its surroundings next.
#[derive(Debug)]
pub enum WorkerStep<E> {
    /// Put the entry on the submission queue.
    Push { submission: Submission, after: AfterPush },
    /// Submit the queue and wait for at least [`WANTED_COMPLETIONS`] completions.
    SubmitAndWait,
    /// Take all completions from the completion queue.
    Collect,
    /// Read the event that announces commands.
    ConsumeCommandEvent { turn: PollTurn },
    /// Take the first command from the queue of commands.
    PopCommand { turn: PollTurn },
    /// Read the exit event.
    ConsumeExitEvent,
    /// Read the kick of the vring numbered `data`, which is one of this worker's.
    ReadKick { data: u64, evset: EventSet, turn: PollTurn },
    /// Have the backend handle the event.
    CallBackend { event: VhostUserBackendEvent, served: Option<PollTurn> },
    /// Nothing: the worker is done.
    Done(Result<(), VringIoUringError<E>>),
}

/// What the surroundings answer to a [`WorkerStep`].
#[derive(Debug)]
pub enum WorkerAnswer<E> {
    /// To `Push`.
    Pushed(Result<(), IoError<E>>),
    /// To `SubmitAndWait`.
    Waited(Result<(), IoFailure<E>>),
    /// To `Collect`: the completions, in their order.
    Collected(Vec<Completion>),
    /// To `ConsumeCommandEvent` and `ConsumeExitEvent`.
    Consumed(Result<(), IoFailure<E>>),
    /// To `PopCommand`: the command, or `None` if there is none.
    Popped(Option<IoUringCommand>),
    /// To `ReadKick`: whether the vring is enabled.
    Kicked(Result<bool, E>),
    /// To `CallBackend`: what the backend returned.
    Handled(Result<(), E>),
}

/// An answer as a mathematical value.
pub enum WorkerAnswerView<E> {
    Pushed(Result<(), IoError<E>>),
    Waited(Result<(), IoFailure<E>>),
    Collected(Seq<Completion>),
    Consumed(Result<(), IoFailure<E>>),
    Popped(Option<IoUringCommand>),
    Kicked(Result<bool, E>),
    Handled(Result<(), E>),
}

impl<E> View for WorkerAnswer<E> {
    type V = WorkerAnswerView<E>;

    open spec fn view(&self) -> WorkerAnswerView<E> {
        match *self {
            WorkerAnswer::Pushed(result) => WorkerAnswerView::Pushed(result),
            WorkerAnswer::Waited(result) => WorkerAnswerView::Waited(result),
            WorkerAnswer::Collected(completions) => WorkerAnswerView::Collected(completions@),
            WorkerAnswer::Consumed(result) => WorkerAnswerView::Consumed(result),
            WorkerAnswer::Popped(command) => WorkerAnswerView::Popped(command),
            WorkerAnswer::Kicked(result) => WorkerAnswerView::Kicked(result),
            WorkerAnswer::Handled(result) => WorkerAnswerView::Handled(result),
        }
    }
}

/// What an io_uring worker keeps between steps.
#[verifier::ext_equal]
pub struct WorkerState {
    /// The polls to be kept going, by their tokens.
    pub active: Map<u64, PollRegistration>,
    /// The completions that have not been looked at yet.
    pub pending: Seq<Completion>,
    /// The descriptor that announces commands.
    pub command_fd: i32,
    /// The descriptor of the exit event, if there is one.
    pub exit_fd: Option<i32>,
    /// Whether polls are tried in multishot mode first.
    pub multishot_poll: bool,
    /// The number of vrings of this worker.
    pub num_vrings: usize,
}

/// The request that arms a poll, or the error if its token does not fit in the user data.
pub open spec fn arm_request(token: u64, registration: PollRegistration) -> Result<
    Submission,
    OsError,
> {
    match encoded(USER_DATA_KIND_POLL, token) {
        Ok(user_data) => Ok(
            Submission::PollAdd {
                fd: registration.fd,
                flags: poll_flags_of(registration.evset@),
                multishot: registration.multishot,
                user_data,
            },
        ),
        Err(error) => Err(error),
    }
}

/// The request that ends a poll, or the error if its token does not fit in the user data.
pub open spec fn cancel_request(token: u64) -> Result<Submission, OsError> {
    match (encoded(USER_DATA_KIND_POLL, token), encoded(USER_DATA_KIND_CANCEL, token)) {
        (Ok(target), Ok(user_data)) => Ok(Submission::PollRemove { target, user_data }),
        (Err(error), _) => Err(error),
        (_, Err(error)) => Err(error),
    }
}

/// The step that queues a request. If there is no request to queue, that ends the worker.
pub open spec fn queueing<E>(request: Result<Submission, OsError>, after: AfterPush) -> WorkerStep<
    E,
> {
    match request {
        Ok(submission) => WorkerStep::Push { submission, after },
        Err(error) => WorkerStep::Done(Err(VringIoUringError::QueueSubmission(IoError::Os(error)))),
    }
}

/// The step that has the backend handle an event of a descriptor registered with `data`.
pub open spec fn fd_call<E>(data: u64, evset: EventSet, turn: PollTurn) -> WorkerStep<E> {
    WorkerStep::CallBackend {
        event: VhostUserBackendEvent::Fd { device_event: device_event_of(data), evset },
        served: Some(turn),
    }
}

impl WorkerState {
    /// A worker that has not taken a step yet.
    pub open spec fn initial(
        command_fd: i32,
        exit_fd: Option<i32>,
        multishot_poll: bool,
        num_vrings: usize,
    ) -> WorkerState {
        WorkerState {
            active: Map::empty(),
            pending: Seq::empty(),
            command_fd,
            exit_fd,
            multishot_poll,
            num_vrings,
        }
    }

    /// The poll of a descriptor of the worker's own.
    pub open spec fn internal_poll(self, token: u64, fd: i32, kind: PollKind) -> PollRegistration {
        PollRegistration {
            fd,
            evset: EventSet::of_bits(EVENT_IN),
            data: token,
            kind,
            multishot: self.multishot_poll,
        }
    }

    /// The poll of a descriptor that a queue or listener was registered with.
    pub open spec fn backend_poll(self, fd: i32, evset: EventSet, data: u64) -> PollRegistration {
        PollRegistration {
            fd,
            evset,
            data,
            kind: PollKind::BackendFd,
            multishot: self.multishot_poll,
        }
    }

    /// Keeps a poll going from now on, and arms it.
    pub open spec fn start_poll<E>(
        self,
        token: u64,
        registration: PollRegistration,
        after: AfterPush,
    ) -> (WorkerState, WorkerStep<E>) {
        (
            WorkerState { active: self.active.insert(token, registration), ..self },
            queueing(arm_request(token, registration), after),
        )
    }

    /// The first step: the poll for commands is started.
    pub open spec fn start<E>(self) -> (WorkerState, WorkerStep<E>) {
        self.start_poll(
            COMMAND_POLL_TOKEN,
            self.internal_poll(COMMAND_POLL_TOKEN, self.command_fd, PollKind::Command),
            AfterPush::AddExitPoll,
        )
    }

    /// The first step for a ready descriptor of a queue or listener. A queue's kick is read first.
    pub open spec fn fd_event<E>(
        self,
        data: u64,
        evset: EventSet,
        turn: PollTurn,
    ) -> WorkerStep<E> {
        if data < self.num_vrings {
            WorkerStep::ReadKick { data, evset, turn }
        } else {
            fd_call(data, evset, turn)
        }
    }

    /// The first step for a completion of the poll numbered `token`, or `None` if the worker does
    /// not keep that poll going (any more).
    pub open spec fn poll_completion<E>(self, token: u64, result: i32, flags: u32) -> Option<
        (WorkerState, WorkerStep<E>),
    > {
        if !self.active.contains_key(token) {
            None
        } else {
            let registration = self.active[token];
            let turn = PollTurn {
                token,
                registration,
                more: registration.multishot && more_announced(flags),
            };
            if result == -EINVAL && registration.multishot {
                // The kernel does not know multishot polls.
                Some(
                    self.start_poll(
                        token,
                        PollRegistration { multishot: false, ..registration },
                        AfterPush::NextCompletion,
                    ),
                )
            } else if result < 0 {
                Some(
                    (
                        self,
                        WorkerStep::Done(
                            Err(
                                VringIoUringError::SubmitAndWait(
                                    IoError::Os(OsError { code: negated(result) }),
                                ),
                            ),
                        ),
                    ),
                )
            } else {
                Some(
                    (
                        self,
                        match registration.kind {
                            PollKind::Command => WorkerStep::ConsumeCommandEvent { turn },
                            PollKind::Exit => if self.exit_fd is Some {
                                WorkerStep::ConsumeExitEvent
                            } else {
                                WorkerStep::Done(Ok(()))
                            },
                            PollKind::BackendFd => self.fd_event(
                                registration.data,
                                EventSet::of_bits(events_of(result as u32)),
                                turn,
                            ),
                        },
                    ),
                )
            }
        }
    }

    /// The first step for a completion, or `None` if nothing is to be done about it.
    pub open spec fn completion<E>(self, completion: Completion) -> Option<
        (WorkerState, WorkerStep<E>),
    > {
        let kind = word_kind(completion.user_data);
        let payload = word_payload(completion.user_data);
        if kind == USER_DATA_KIND_BACKEND {
            Some(
                (
                    self,
                    WorkerStep::CallBackend {
                        event: VhostUserBackendEvent::IoUringCompletion(
                            IoUringCompletion {
                                user_data: payload,
                                result: completion.result,
                                flags: completion.flags,
                            },
                        ),
                        served: None,
                    },
                ),
            )
        } else if kind == USER_DATA_KIND_POLL {
            self.poll_completion(payload, completion.result, completion.flags)
        } else {
            None
        }
    }

    /// Goes on with the first completion about which something is to be done. Where there is none,
    /// the worker waits for more.
    pub open spec fn next_completion<E>(self) -> (WorkerState, WorkerStep<E>)
        decreases self.pending.len(),
    {
        if self.pending.len() == 0 {
            (self, WorkerStep::SubmitAndWait)
        } else {
            let rest = WorkerState { pending: self.pending.drop_first(), ..self };
            match rest.completion(self.pending[0]) {
                Some(next) => next,
                None => rest.next_completion(),
            }
        }
    }

    /// Ends the service of a poll: it is armed again, unless it is still armed or is not to be
    /// kept going any more.
    pub open spec fn end_turn<E>(self, turn: PollTurn) -> (WorkerState, WorkerStep<E>) {
        if !turn.more && self.active.contains_key(turn.token) {
            (
                self,
                queueing(
                    arm_request(turn.token, turn.registration),
                    AfterPush::NextCompletion,
                ),
            )
        } else {
            self.next_completion()
        }
    }

    /// Carries out a command.
    pub open spec fn obey<E>(self, command: IoUringCommand, turn: PollTurn) -> (
        WorkerState,
        WorkerStep<E>,
    ) {
        match command {
            IoUringCommand::Add { token, fd, evset, data } => self.start_poll(
                token,
                self.backend_poll(fd, evset, data),
                AfterPush::DrainCommands(turn),
            ),
            IoUringCommand::Remove { token } => if self.active.contains_key(token) {
                (
                    WorkerState { active: self.active.remove(token), ..self },
                    queueing(cancel_request(token), AfterPush::DrainCommands(turn)),
                )
            } else {
                (self, WorkerStep::PopCommand { turn })
            },
        }
    }

    /// What comes after an entry has been put on the submission queue.
    pub open spec fn pushed<E>(self, after: AfterPush) -> (WorkerState, WorkerStep<E>) {
        match after {
            AfterPush::AddExitPoll => match self.exit_fd {
                Some(fd) => self.start_poll(
                    EXIT_POLL_TOKEN,
                    self.internal_poll(EXIT_POLL_TOKEN, fd, PollKind::Exit),
                    AfterPush::Wait,
                ),
                None => (self, WorkerStep::SubmitAndWait),
            },
            AfterPush::Wait => (self, WorkerStep::SubmitAndWait),
            AfterPush::NextCompletion => self.next_completion(),
            AfterPush::DrainCommands(turn) => (self, WorkerStep::PopCommand { turn }),
        }
    }

    /// What comes after a step and the answer to it. An answer to some other request changes
    /// nothing.
    pub open spec fn next<E>(self, step: WorkerStep<E>, answer: WorkerAnswerView<E>) -> (
        WorkerState,
        WorkerStep<E>,
    ) {
        match (step, answer) {
            (WorkerStep::Push { after, .. }, WorkerAnswerView::Pushed(result)) => match result {
                Ok(()) => self.pushed(after),
                Err(error) => (
                    self,
                    WorkerStep::Done(Err(VringIoUringError::QueueSubmission(error))),
                ),
            },
            (WorkerStep::SubmitAndWait, WorkerAnswerView::Waited(result)) => (
                self,
                match result {
                    Ok(()) => WorkerStep::Collect,
                    Err(failure) => if failure.kind == IoErrorKind::Interrupted {
                        WorkerStep::SubmitAndWait
                    } else {
                        WorkerStep::Done(
                            Err(VringIoUringError::SubmitAndWait(IoError::Reported(failure.error))),
                        )
                    },
                },
            ),
            (WorkerStep::Collect, WorkerAnswerView::Collected(completions)) => WorkerState {
                pending: completions,
                ..self
            }.next_completion(),
            (WorkerStep::ConsumeCommandEvent { turn }, WorkerAnswerView::Consumed(result)) => (
                self,
                match result {
                    Ok(()) => WorkerStep::ConsumeCommandEvent { turn },
                    Err(failure) => if failure.kind == IoErrorKind::WouldBlock {
                        WorkerStep::PopCommand { turn }
                    } else {
                        WorkerStep::Done(Err(VringIoUringError::ConsumeEvent(failure.error)))
                    },
                },
            ),
            (WorkerStep::PopCommand { turn }, WorkerAnswerView::Popped(command)) => match command {
                Some(command) => self.obey(command, turn),
                None => self.end_turn(turn),
            },
            (WorkerStep::ConsumeExitEvent, WorkerAnswerView::Consumed(result)) => (
                self,
                match result {
                    Ok(()) => WorkerStep::Done(Ok(())),
                    Err(failure) => WorkerStep::Done(
                        Err(VringIoUringError::ConsumeEvent(failure.error)),
                    ),
                },
            ),
            (
                WorkerStep::ReadKick { data, evset, turn },
                WorkerAnswerView::Kicked(result),
            ) => match result {
                Ok(true) => (self, fd_call(data, evset, turn)),
                Ok(false) => self.end_turn(turn),
                Err(error) => (
                    self,
                    WorkerStep::Done(Err(VringIoUringError::HandleEventReadKick(error))),
                ),
            },
            (
                WorkerStep::CallBackend { served, .. },
                WorkerAnswerView::Handled(result),
            ) => match result {
                Ok(()) => match served {
                    Some(turn) => self.end_turn(turn),
                    None => self.next_completion(),
                },
                Err(error) => (
                    self,
                    WorkerStep::Done(Err(VringIoUringError::HandleEventBackendHandling(error))),
                ),
            },
            _ => (self, step),
        }
    }
}

/// A number negated, wrapping around where the result does not fit.
pub open spec fn negated(number: i32) -> i32 {
    if number == i32::MIN {
        i32::MIN
    } else {
        (-number) as i32
    }
}

/// A number negated, wrapping around where the result does not fit.
fn negate(number: i32) -> (negation: i32)
    ensures
        negation == negated(number),
{
    if number == i32::MIN {
        number
    } else {
        -number
    }
}

/// The part of an io_uring worker that decides what to do next.
#[derive(Debug)]
pub struct Dispatcher {
    active_polls: HashMap<u64, PollRegistration>,
    completions: Batch<Completion>,
    command_fd: i32,
    exit_fd: Option<i32>,
    multishot_poll: bool,
    num_vrings: usize,
}

impl View for Dispatcher {
    type V = WorkerState;

    closed spec fn view(&self) -> WorkerState {
        WorkerState {
            active: self.active_polls@,
            pending: self.completions@,
            command_fd: self.command_fd,
            exit_fd: self.exit_fd,
            multishot_poll: self.multishot_poll,
            num_vrings: self.num_vrings,
        }
    }
}

impl Dispatcher {
    /// A dispatcher that watches nothing yet.
    pub fn new(
        command_fd: i32,
        exit_fd: Option<i32>,
        multishot_poll: bool,
        num_vrings: usize,
    ) -> (dispatcher: Dispatcher)
        ensures
            dispatcher@ == WorkerState::initial(command_fd, exit_fd, multishot_poll, num_vrings),
    {
        broadcast use vstd::std_specs::hash::group_hash_axioms;

        let dispatcher = Dispatcher {
            active_polls: HashMap::new(),
            completions: Batch::new(Vec::new()),
            command_fd,
            exit_fd,
            multishot_poll,
            num_vrings,
        };
        assert(dispatcher@.active =~= Map::empty());
        assert(dispatcher@.pending =~= Seq::empty());
        dispatcher
    }

    /// The step that arms a poll.
    pub fn arm_poll<E>(token: u64, registration: PollRegistration, after: AfterPush) -> (step:
        WorkerStep<E>)
        ensures
            step == queueing::<E>(arm_request(token, registration), after),
    {
        match encode_user_data(USER_DATA_KIND_POLL, token) {
            Ok(user_data) => WorkerStep::Push {
                submission: Submission::PollAdd {
                    fd: registration.fd,
                    flags: event_set_to_poll_flags(registration.evset),
                    multishot: registration.multishot,
                    user_data,
                },
                after,
            },
            Err(error) => WorkerStep::Done(
                Err(VringIoUringError::QueueSubmission(IoError::Os(error))),
            ),
        }
    }

    /// The step that ends a poll.
    pub fn cancel_poll<E>(token: u64, after: AfterPush) -> (step: WorkerStep<E>)
        ensures
            step == queueing::<E>(cancel_request(token), after),
    {
        let target = match encode_user_data(USER_DATA_KIND_POLL, token) {
            Ok(target) => target,
            Err(error) => {
                return WorkerStep::Done(Err(VringIoUringError::QueueSubmission(IoError::Os(error))));
            },
        };
        match encode_user_data(USER_DATA_KIND_CANCEL, token) {
            Ok(user_data) => WorkerStep::Push {
                submission: Submission::PollRemove { target, user_data },
                after,
            },
            Err(error) => WorkerStep::Done(
                Err(VringIoUringError::QueueSubmission(IoError::Os(error))),
            ),
        }
    }

    /// Keeps a poll going from now on, and arms it.
    fn add_poll<E>(
        &mut self,
        token: u64,
        registration: PollRegistration,
        after: AfterPush,
    ) -> (step: WorkerStep<E>)
        ensures
            (final(self)@, step) == old(self)@.start_poll::<E>(token, registration, after),
    {
        broadcast use vstd::std_specs::hash::group_hash_axioms;

        self.active_polls.insert(token, registration);
        Self::arm_poll(token, registration, after)
    }

    /// Keeps the poll of a descriptor of the worker's own going from now on, and arms it.
    pub fn add_internal_poll<E>(
        &mut self,
        token: u64,
        fd: i32,
        kind: PollKind,
        after: AfterPush,
    ) -> (step: WorkerStep<E>)
        ensures
            (final(self)@, step) == old(self)@.start_poll::<E>(
                token,
                old(self)@.internal_poll(token, fd, kind),
                after,
            ),
    {
        broadcast use crate::event_set::event_set_of_bits;

        let registration = PollRegistration {
            fd,
            evset: EventSet::input(),
            data: token,
            kind,
            multishot: self.multishot_poll,
        };
        self.add_poll(token, registration, after)
    }

    /// The first step for a ready descriptor of a queue or listener.
    pub fn dispatch_fd_event<E>(
        &self,
        data: u64,
        evset: EventSet,
        turn: PollTurn,
    ) -> (step: WorkerStep<E>)
        ensures
            step == self@.fd_event::<E>(data, evset, turn),
    {
        if data < self.num_vrings as u64 {
            return WorkerStep::ReadKick { data, evset, turn };
        }
        Self::backend_call(data, evset, turn)
    }

    /// The step that has the backend handle an event of a descriptor registered with `data`.
    fn backend_call<E>(data: u64, evset: EventSet, turn: PollTurn) -> (step: WorkerStep<E>)
        ensures
            step == fd_call::<E>(data, evset, turn),
    {
        WorkerStep::CallBackend {
            event: VhostUserBackendEvent::Fd { device_event: device_event(data), evset },
            served: Some(turn),
        }
    }

    /// The first step for a completion of the poll numbered `token`, or `None` if nothing is to be
    /// done about it.
    pub fn dispatch_poll_completion<E>(
        &mut self,
        token: u64,
        result: i32,
        flags: u32,
    ) -> (step: Option<WorkerStep<E>>)
        ensures
            match old(self)@.poll_completion::<E>(token, result, flags) {
                Some(next) => step matches Some(step) && (final(self)@, step) == next,
                None => step is None && final(self)@ == old(self)@,
            },
    {
        broadcast use vstd::std_specs::hash::group_hash_axioms;
        broadcast use crate::event_set::event_set_of_bits;

        let registration: PollRegistration = match self.active_polls.get(&token) {
            Some(registration) => *registration,
            None => {
                return None;
            },
        };

        if result == -OsError::invalid_argument().code && registration.multishot {
            let single = PollRegistration { multishot: false, ..registration };
            return Some(self.add_poll(token, single, AfterPush::NextCompletion));
        }
        if result < 0 {
            return Some(
                WorkerStep::Done(
                    Err(
                        VringIoUringError::SubmitAndWait(
                            IoError::Os(OsError { code: negate(result) }),
                        ),
                    ),
                ),
            );
        }
        let evset = poll_flags_to_event_set(result as u32);
        let more = registration.multishot && io_uring::cqueue::more(flags);
        let turn = PollTurn { token, registration, more };

        Some(
            match registration.kind {
                PollKind::Command => WorkerStep::ConsumeCommandEvent { turn },
                PollKind::Exit => if self.exit_fd.is_some() {
                    WorkerStep::ConsumeExitEvent
                } else {
                    WorkerStep::Done(Ok(()))
                },
                PollKind::BackendFd => self.dispatch_fd_event(registration.data, evset, turn),
            },
        )
    }

    /// The first step for a completion, or `None` if nothing is to be done about it.
    pub fn dispatch_completion<E>(&mut self, completion: Completion) -> (step: Option<WorkerStep<E>>)
        ensures
            match old(self)@.completion::<E>(completion) {
                Some(next) => step matches Some(step) && (final(self)@, step) == next,
                None => step is None && final(self)@ == old(self)@,
            },
    {
        let kind: u64 = decode_user_data_kind(completion.user_data);
        let payload: u64 = decode_user_data_payload(completion.user_data);
        if kind == USER_DATA_KIND_BACKEND {
            let completion = IoUringCompletion {
                user_data: payload,
                result: completion.result,
                flags: completion.flags,
            };
            Some(
                WorkerStep::CallBackend {
                    event: VhostUserBackendEvent::IoUringCompletion(completion),
                    served: None,
                },
            )
        } else if kind == USER_DATA_KIND_POLL {
            self.dispatch_poll_completion(payload, completion.result, completion.flags)
        } else {
            None
        }
    }

    /// The first step for the completions that are left.
    fn next_completion<E>(&mut self) -> (step: WorkerStep<E>)
        ensures
            (final(self)@, step) == old(self)@.next_completion::<E>(),
    {
        loop
            invariant
                self@.next_completion::<E>() == old(self)@.next_completion::<E>(),
            decreases self@.pending.len(),
        {
            let ghost before = self@;
            match self.completions.take_next() {
                None => {
                    return WorkerStep::SubmitAndWait;
                },
                Some(completion) => {
                    assert(self@ == WorkerState { pending: before.pending.drop_first(), ..before });
                    if let Some(step) = self.dispatch_completion(completion) {
                        return step;
                    }
                },
            }
        }
    }

    /// Ends the service of a poll.
    fn end_turn<E>(&mut self, turn: PollTurn) -> (step: WorkerStep<E>)
        ensures
            (final(self)@, step) == old(self)@.end_turn::<E>(turn),
    {
        broadcast use vstd::std_specs::hash::group_hash_axioms;

        if !turn.more && self.active_polls.contains_key(&turn.token) {
            Self::arm_poll(turn.token, turn.registration, AfterPush::NextCompletion)
        } else {
            self.next_completion()
        }
    }

    /// Carries out one command, or ends the service of the poll for commands where there is none.
    pub fn drain_commands<E>(&mut self, command: Option<IoUringCommand>, turn: PollTurn) -> (step:
        WorkerStep<E>)
        ensures
            (final(self)@, step) == (match command {
                Some(command) => old(self)@.obey::<E>(command, turn),
                None => old(self)@.end_turn::<E>(turn),
            }),
    {
        broadcast use vstd::std_specs::hash::group_hash_axioms;

        match command {
            None => self.end_turn(turn),
            Some(IoUringCommand::Add { token, fd, evset, data }) => {
                let registration = PollRegistration {
                    fd,
                    evset,
                    data,
                    kind: PollKind::BackendFd,
                    multishot: self.multishot_poll,
                };
                self.add_poll(token, registration, AfterPush::DrainCommands(turn))
            },
            Some(IoUringCommand::Remove { token }) => if self.active_polls.remove(&token).is_some() {
                Self::cancel_poll(token, AfterPush::DrainCommands(turn))
            } else {
                WorkerStep::PopCommand { turn }
            },
        }
    }

    /// What comes after an entry has been put on the submission queue.
    fn after_push<E>(&mut self, after: AfterPush) -> (step: WorkerStep<E>)
        ensures
            (final(self)@, step) == old(self)@.pushed::<E>(after),
    {
        match after {
            AfterPush::AddExitPoll => match self.exit_fd {
                Some(fd) => self.add_internal_poll(
                    EXIT_POLL_TOKEN,
                    fd,
                    PollKind::Exit,
                    AfterPush::Wait,
                ),
                None => WorkerStep::SubmitAndWait,
            },
            AfterPush::Wait => WorkerStep::SubmitAndWait,
            AfterPush::NextCompletion => self.next_completion(),
            AfterPush::DrainCommands(turn) => WorkerStep::PopCommand { turn },
        }
    }

    /// The first step of the worker.
    pub fn run<E>(&mut self) -> (step: WorkerStep<E>)
        ensures
            (final(self)@, step) == old(self)@.start::<E>(),
    {
        self.add_internal_poll(
            COMMAND_POLL_TOKEN,
            self.command_fd,
            PollKind::Command,
            AfterPush::AddExitPoll,
        )
    }

    /// The next step of the worker, given the answer to the last one.
    pub fn resume<E>(&mut self, step: WorkerStep<E>, answer: WorkerAnswer<E>) -> (next: WorkerStep<
        E,
    >)
        ensures
            (final(self)@, next) == old(self)@.next::<E>(step, answer@),
    {
        match (step, answer) {
            (WorkerStep::Push { after, .. }, WorkerAnswer::Pushed(result)) => match result {
                Ok(()) => self.after_push(after),
                Err(error) => WorkerStep::Done(Err(VringIoUringError::QueueSubmission(error))),
            },
            (WorkerStep::SubmitAndWait, WorkerAnswer::Waited(result)) => match result {
                Ok(()) => WorkerStep::Collect,
                Err(failure) => if failure.kind == IoErrorKind::Interrupted {
                    WorkerStep::SubmitAndWait
                } else {
                    WorkerStep::Done(
                        Err(VringIoUringError::SubmitAndWait(IoError::Reported(failure.error))),
                    )
                },
            },
            (WorkerStep::Collect, WorkerAnswer::Collected(completions)) => {
                self.completions = Batch::new(completions);
                self.next_completion()
            },
            (
                WorkerStep::ConsumeCommandEvent { turn },
                WorkerAnswer::Consumed(result),
            ) => match result {
                Ok(()) => WorkerStep::ConsumeCommandEvent { turn },
                Err(failure) => if failure.kind == IoErrorKind::WouldBlock {
                    WorkerStep::PopCommand { turn }
                } else {
                    WorkerStep::Done(Err(VringIoUringError::ConsumeEvent(failure.error)))
                },
            },
            (WorkerStep::PopCommand { turn }, WorkerAnswer::Popped(command)) => self.drain_commands(
                command,
                turn,
            ),
            (WorkerStep::ConsumeExitEvent, WorkerAnswer::Consumed(result)) => match result {
                Ok(()) => WorkerStep::Done(Ok(())),
                Err(failure) => WorkerStep::Done(
                    Err(VringIoUringError::ConsumeEvent(failure.error)),
                ),
            },
            (
                WorkerStep::ReadKick { data, evset, turn },
                WorkerAnswer::Kicked(result),
            ) => match result {
                Ok(enabled) => if enabled {
                    Self::backend_call(data, evset, turn)
                } else {
                    self.end_turn(turn)
                },
                Err(error) => WorkerStep::Done(Err(VringIoUringError::HandleEventReadKick(error))),
            },
            (
                WorkerStep::CallBackend { served, .. },
                WorkerAnswer::Handled(result),
            ) => match result {
                Ok(()) => match served {
                    Some(turn) => self.end_turn(turn),
                    None => self.next_completion(),
                },
                Err(error) => WorkerStep::Done(
                    Err(VringIoUringError::HandleEventBackendHandling(error)),
                ),
            },
            (step, _) => step,
        }
    }
}

} // verus!
