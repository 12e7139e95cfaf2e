//! The epoll worker: waits for events on an epoll descriptor and hands them to the backend.

use vstd::prelude::*;

use crate::batch::Batch;
use crate::error::{IoErrorKind, IoFailure, VringEpollError};
use crate::event_set::{known_events, EventSet, EVENT_IN};
use crate::os::{OsError, EINVAL};

verus! {

/// How many events one wait can report.
pub const EPOLL_EVENTS_LEN: usize = 100;

/// An event as a wait reports it.
#[derive(Clone, Copy, Debug, PartialEq, Eq, Structural)]
pub struct ReadyEvent {
    /// The events that occurred.
    pub events: u32,
    /// What the descriptor was registered with.
    pub data: u64,
}

/// The events that a wait reports that filled in `count` of `events`.
pub open spec fn reported(events: Seq<ReadyEvent>, count: nat) -> Seq<ReadyEvent> {
    if count < events.len() {
        events.take(count as int)
    } else {
        events
    }
}

/// What the epoll worker asks of its surroundings next.
#[derive(Debug)]
pub enum EpollStep<E> {
    /// Wait for events on the epoll descriptor, at most [`EPOLL_EVENTS_LEN`], without a time limit.
    Wait,
    /// Say that an event was ignored because of an unknown bit.
    ReportUnknown { bits: u32, rest: Batch<ReadyEvent> },
    /// Enter the event gate, waiting as long as it is suspended.
    EnterGate { data: u64, evset: EventSet, rest: Batch<ReadyEvent> },
    /// Read the kick of the vring numbered `data`, which is one of this worker's.
    ReadKick { data: u64, evset: EventSet, rest: Batch<ReadyEvent> },
    /// Have the backend handle the event.
    HandleEvent { device_event: u16, evset: EventSet, rest: Batch<ReadyEvent> },
    /// Leave the event gate.
    LeaveGate { verdict: Result<(), VringEpollError<E>>, rest: Batch<ReadyEvent> },
    /// Nothing: the worker is done.
    Done(Result<(), VringEpollError<E>>),
}

/// A step as a mathematical value, with sets of events as their bits.
pub enum EpollStepView<E> {
    Wait,
    ReportUnknown { bits: u32, rest: Seq<ReadyEvent> },
    EnterGate { data: u64, evset: u32, rest: Seq<ReadyEvent> },
    ReadKick { data: u64, evset: u32, rest: Seq<ReadyEvent> },
    HandleEvent { device_event: u16, evset: u32, rest: Seq<ReadyEvent> },
    LeaveGate { verdict: Result<(), VringEpollError<E>>, rest: Seq<ReadyEvent> },
    Done(Result<(), VringEpollError<E>>),
}

impl<E> View for EpollStep<E> {
    type V = EpollStepView<E>;

    open spec fn view(&self) -> EpollStepView<E> {
        match *self {
            EpollStep::Wait => EpollStepView::Wait,
            EpollStep::ReportUnknown { bits, rest } => EpollStepView::ReportUnknown {
                bits,
                rest: rest@,
            },
            EpollStep::EnterGate { data, evset, rest } => EpollStepView::EnterGate {
                data,
                evset: evset@,
                rest: rest@,
            },
            EpollStep::ReadKick { data, evset, rest } => EpollStepView::ReadKick {
                data,
                evset: evset@,
                rest: rest@,
            },
            EpollStep::HandleEvent { device_event, evset, rest } => EpollStepView::HandleEvent {
                device_event,
                evset: evset@,
                rest: rest@,
            },
            EpollStep::LeaveGate { verdict, rest } => EpollStepView::LeaveGate {
                verdict,
                rest: rest@,
            },
            EpollStep::Done(result) => EpollStepView::Done(result),
        }
    }
}

/// What the surroundings answer to an [`EpollStep`].
#[derive(Debug)]
pub enum EpollAnswer<E> {
    /// To `Wait`: how many events there are, and the events, or why the wait failed.
    Waited { result: Result<usize, IoFailure<E>>, events: Vec<ReadyEvent> },
    /// To `ReportUnknown`.
    Reported,
    /// To `EnterGate`: whether the event gate gave a permit. If not, it has been stopped.
    Entered(bool),
    /// To `ReadKick`: whether the vring is enabled.
    Kicked(Result<bool, E>),
    /// To `HandleEvent`: what the backend returned.
    Handled(Result<(), E>),
    /// To `LeaveGate`.
    Left,
}

/// An answer as a mathematical value.
pub enum EpollAnswerView<E> {
    Waited { result: Result<usize, IoFailure<E>>, events: Seq<ReadyEvent> },
    Reported,
    Entered(bool),
    Kicked(Result<bool, E>),
    Handled(Result<(), E>),
    Left,
}

impl<E> View for EpollAnswer<E> {
    type V = EpollAnswerView<E>;

    open spec fn view(&self) -> EpollAnswerView<E> {
        match *self {
            EpollAnswer::Waited { result, events } => EpollAnswerView::Waited {
                result,
                events: events@,
            },
            EpollAnswer::Reported => EpollAnswerView::Reported,
            EpollAnswer::Entered(permit) => EpollAnswerView::Entered(permit),
            EpollAnswer::Kicked(result) => EpollAnswerView::Kicked(result),
            EpollAnswer::Handled(result) => EpollAnswerView::Handled(result),
            EpollAnswer::Left => EpollAnswerView::Left,
        }
    }
}

/// The number under which the backend is told of an event of a descriptor registered with `data`.
/// It has sixteen bits: of a larger `data` it is the low sixteen. Only the backend is given it; the
/// workers themselves go by the whole `data`.
pub open spec fn device_event_of(data: u64) -> u16 {
    (data % 0x1_0000) as u16
}

/// The number under which the backend is told of an event of a descriptor registered with `data`.
pub fn device_event(data: u64) -> (device_event: u16)
    ensures
        device_event == device_event_of(data),
{
    assert(data as u16 == data % 0x1_0000) by (bit_vector);
    #[verifier::truncate]
    (data as u16)
}

/// What the steps of an epoll worker depend on: the number of its vrings, whether it has an exit
/// event, and the number of queues that its backend states.
pub struct EpollSetting {
    pub num_vrings: nat,
    pub has_exit_event: bool,
    pub num_queues: nat,
}

impl EpollSetting {
    /// Whether an event with this `data` is the exit event. It has the number after the last queue.
    pub open spec fn is_exit(self, data: u64) -> bool {
        self.has_exit_event && data == self.num_queues
    }

    /// The first step for an event.
    pub open spec fn handling<E>(
        self,
        data: u64,
        evset: u32,
        rest: Seq<ReadyEvent>,
    ) -> EpollStepView<E> {
        if self.is_exit(data) {
            EpollStepView::Done(Ok(()))
        } else {
            EpollStepView::EnterGate { data, evset, rest }
        }
    }

    /// The first step for the events that are left, or another wait if none is.
    pub open spec fn dispatch<E>(self, events: Seq<ReadyEvent>) -> EpollStepView<E> {
        if events.len() == 0 {
            EpollStepView::Wait
        } else if !known_events(events[0].events) {
            EpollStepView::ReportUnknown { bits: events[0].events, rest: events.drop_first() }
        } else {
            self.handling(events[0].data, events[0].events, events.drop_first())
        }
    }

    /// The step after a step and the answer to it. An answer to some other request changes
    /// nothing.
    pub open spec fn next<E>(
        self,
        step: EpollStepView<E>,
        answer: EpollAnswerView<E>,
    ) -> EpollStepView<E> {
        match (step, answer) {
            (EpollStepView::Wait, EpollAnswerView::Waited { result, events }) => match result {
                Ok(count) => self.dispatch(reported(events, count as nat)),
                Err(failure) => if failure.kind == IoErrorKind::Interrupted {
                    EpollStepView::Wait
                } else {
                    EpollStepView::Done(Err(VringEpollError::EpollWait(failure.error)))
                },
            },
            (
                EpollStepView::ReportUnknown { rest, .. },
                EpollAnswerView::Reported,
            ) => self.dispatch(rest),
            (
                EpollStepView::EnterGate { data, evset, rest },
                EpollAnswerView::Entered(permit),
            ) => if !permit {
                EpollStepView::Done(Ok(()))
            } else if data < self.num_vrings {
                EpollStepView::ReadKick { data, evset, rest }
            } else {
                EpollStepView::HandleEvent { device_event: device_event_of(data), evset, rest }
            },
            (
                EpollStepView::ReadKick { data, evset, rest },
                EpollAnswerView::Kicked(result),
            ) => match result {
                Ok(true) => EpollStepView::HandleEvent {
                    device_event: device_event_of(data),
                    evset,
                    rest,
                },
                Ok(false) => EpollStepView::LeaveGate { verdict: Ok(()), rest },
                Err(error) => EpollStepView::LeaveGate {
                    verdict: Err(VringEpollError::HandleEventReadKick(error)),
                    rest,
                },
            },
            (
                EpollStepView::HandleEvent { rest, .. },
                EpollAnswerView::Handled(result),
            ) => match result {
                Ok(()) => EpollStepView::LeaveGate { verdict: Ok(()), rest },
                Err(error) => EpollStepView::LeaveGate {
                    verdict: Err(VringEpollError::HandleEventBackendHandling(error)),
                    rest,
                },
            },
            (
                EpollStepView::LeaveGate { verdict, rest },
                EpollAnswerView::Left,
            ) => match verdict {
                Ok(()) => self.dispatch(rest),
                Err(error) => EpollStepView::Done(Err(error)),
            },
            _ => step,
        }
    }
}

/// What to do with a descriptor on the interest list of an epoll descriptor.
#[derive(Clone, Copy, Debug, PartialEq, Eq, Structural)]
pub enum ControlOperation {
    /// Put it on the list.
    Add,
    /// Take it off the list.
    Delete,
}

/// A change to the interest list of an epoll descriptor.
#[derive(Clone, Copy, Debug, PartialEq, Eq, Structural)]
pub struct EpollControl {
    /// What to do.
    pub operation: ControlOperation,
    /// The descriptor to do it with.
    pub fd: i32,
    /// The events to be told of.
    pub evset: EventSet,
    /// What those events are to be reported with.
    pub data: u64,
}

/// What a request about a listener is answered: the change, unless its `data` is one of those that
/// are reserved for the queues and the exit event.
pub open spec fn listener_control(
    num_queues: usize,
    control: EpollControl,
) -> Result<EpollControl, OsError> {
    if control.data <= num_queues {
        Err(OsError { code: EINVAL })
    } else {
        Ok(control)
    }
}

/// What the creation of an epoll handler asks of its surroundings next.
#[derive(Debug)]
pub enum EpollSetupStep<P, N, E> {
    /// Create the epoll descriptor.
    CreateEpoll,
    /// Ask the backend for the exit event of this worker.
    AskExitEvent { epoll: P },
    /// Make the change to the epoll descriptor.
    Control { epoll: P, notifier: N, control: EpollControl },
    /// Nothing: here is the handler, or why there is none.
    Done(Result<VringEpollHandler<P, N>, VringEpollError<E>>),
}

/// What the surroundings answer to an [`EpollSetupStep`].
#[derive(Debug)]
pub enum EpollSetupAnswer<P, N, E> {
    /// To `CreateEpoll`.
    Created(Result<P, E>),
    /// To `AskExitEvent`: the descriptor to watch and what raises the event, if there is one, and
    /// the number of queues that the backend states.
    ExitEvent { event: Option<(i32, N)>, num_queues: usize },
    /// To `Control`.
    Controlled(Result<(), E>),
}

/// Epoll event handler to manage and process epoll events for registered file descriptor.
///
/// The `VringEpollHandler` structure provides interfaces to:
/// - add file descriptors to be monitored by the epoll fd
/// - remove registered file descriptors from the epoll fd
/// - run the event loop to handle pending events on the epoll fd
///
/// `P` is the epoll descriptor, and `N` is what raises the exit event. The handler keeps them for
/// those who drive it and never looks into them.
#[derive(Debug)]
pub struct VringEpollHandler<P, N> {
    epoll: P,
    num_vrings: usize,
    thread_id: usize,
    exit_event_fd: Option<N>,
}

impl<P, N> VringEpollHandler<P, N> {
    /// The epoll descriptor.
    pub closed spec fn spec_epoll(self) -> P {
        self.epoll
    }

    /// What raises the exit event, if there is an exit event.
    pub closed spec fn spec_exit_event(self) -> Option<N> {
        self.exit_event_fd
    }

    /// The number of vrings of this worker.
    pub closed spec fn spec_num_vrings(self) -> usize {
        self.num_vrings
    }

    /// The number of this worker.
    pub closed spec fn spec_thread_id(self) -> usize {
        self.thread_id
    }

    /// What the steps of this worker depend on, when the backend states `num_queues` queues.
    pub open spec fn setting(self, num_queues: usize) -> EpollSetting {
        EpollSetting {
            num_vrings: self.spec_num_vrings() as nat,
            has_exit_event: self.spec_exit_event() is Some,
            num_queues: num_queues as nat,
        }
    }

    /// The epoll descriptor.
    pub fn epoll(&self) -> (epoll: &P)
        ensures
            *epoll == self.spec_epoll(),
    {
        &self.epoll
    }

    /// The number of this worker, which the backend is given with every event.
    pub fn thread_id(&self) -> (thread_id: usize)
        ensures
            thread_id == self.spec_thread_id(),
    {
        self.thread_id
    }

    /// What has to be notified to send the `exit event` that breaks the event loop, if there is
    /// such an event. Whether the notification succeeds is of no interest.
    pub fn send_exit_event(&self) -> (notifier: Option<&N>)
        ensures
            notifier == (match self.spec_exit_event() {
                Some(notifier) => Some(&notifier),
                None => None,
            }),
    {
        self.exit_event_fd.as_ref()
    }

    /// Register an event into the epoll fd: the change to make to it.
    ///
    /// When this event is later triggered, the backend implementation of `handle_event` will be
    /// called. The `data` range [0...num_queues] is reserved for queues and exit event, and is
    /// refused with `EINVAL`.
    pub fn register_listener(
        &self,
        num_queues: usize,
        fd: i32,
        ev_type: EventSet,
        data: u64,
    ) -> (control: Result<EpollControl, OsError>)
        ensures
            control == listener_control(
                num_queues,
                EpollControl { operation: ControlOperation::Add, fd, evset: ev_type, data },
            ),
    {
        if data <= num_queues as u64 {
            Err(OsError::invalid_argument())
        } else {
            Ok(self.register_event(fd, ev_type, data))
        }
    }

    /// Unregister an event from the epoll fd: the change to make to it.
    ///
    /// If the event is triggered after this change, the event will be silently dropped. The `data`
    /// range [0...num_queues] is reserved for queues and exit event, and is refused with `EINVAL`.
    pub fn unregister_listener(
        &self,
        num_queues: usize,
        fd: i32,
        ev_type: EventSet,
        data: u64,
    ) -> (control: Result<EpollControl, OsError>)
        ensures
            control == listener_control(
                num_queues,
                EpollControl { operation: ControlOperation::Delete, fd, evset: ev_type, data },
            ),
    {
        if data <= num_queues as u64 {
            Err(OsError::invalid_argument())
        } else {
            Ok(self.unregister_event(fd, ev_type, data))
        }
    }

    /// The change to the epoll fd that registers a descriptor, for a queue or for a listener.
    pub fn register_event(&self, fd: i32, ev_type: EventSet, data: u64) -> (control: EpollControl)
        ensures
            control == (EpollControl {
                operation: ControlOperation::Add,
                fd,
                evset: ev_type,
                data,
            }),
    {
        EpollControl { operation: ControlOperation::Add, fd, evset: ev_type, data }
    }

    /// The change to the epoll fd that takes a descriptor out, of a queue or of a listener.
    pub fn unregister_event(
        &self,
        fd: i32,
        ev_type: EventSet,
        data: u64,
    ) -> (control: EpollControl)
        ensures
            control == (EpollControl {
                operation: ControlOperation::Delete,
                fd,
                evset: ev_type,
                data,
            }),
    {
        EpollControl { operation: ControlOperation::Delete, fd, evset: ev_type, data }
    }

    /// The first step in creating a handler.
    pub fn new_with_gate<E>() -> (step: EpollSetupStep<P, N, E>)
        ensures
            step == EpollSetupStep::<P, N, E>::CreateEpoll,
    {
        EpollSetupStep::CreateEpoll
    }

    /// The next step in creating a handler for `num_vrings` vrings and the worker `thread_id`,
    /// given the answer to the last one.
    pub fn resume_new<E>(
        num_vrings: usize,
        thread_id: usize,
        step: EpollSetupStep<P, N, E>,
        answer: EpollSetupAnswer<P, N, E>,
    ) -> (next: EpollSetupStep<P, N, E>)
        ensures
            Self::setup_next(num_vrings, thread_id, step, answer, next),
    {
        match (step, answer) {
            (EpollSetupStep::CreateEpoll, EpollSetupAnswer::Created(result)) => match result {
                Ok(epoll) => EpollSetupStep::AskExitEvent { epoll },
                Err(error) => EpollSetupStep::Done(Err(VringEpollError::EpollCreateFd(error))),
            },
            (
                EpollSetupStep::AskExitEvent { epoll },
                EpollSetupAnswer::ExitEvent { event, num_queues },
            ) => match event {
                Some((consumer, notifier)) => EpollSetupStep::Control {
                    epoll,
                    notifier,
                    control: EpollControl {
                        operation: ControlOperation::Add,
                        fd: consumer,
                        evset: EventSet::input(),
                        data: num_queues as u64,
                    },
                },
                None => EpollSetupStep::Done(
                    Ok(VringEpollHandler { epoll, num_vrings, thread_id, exit_event_fd: None }),
                ),
            },
            (
                EpollSetupStep::Control { epoll, notifier, .. },
                EpollSetupAnswer::Controlled(result),
            ) => match result {
                Ok(()) => EpollSetupStep::Done(
                    Ok(
                        VringEpollHandler {
                            epoll,
                            num_vrings,
                            thread_id,
                            exit_event_fd: Some(notifier),
                        },
                    ),
                ),
                Err(error) => EpollSetupStep::Done(Err(VringEpollError::RegisterExitEvent(error))),
            },
            (step, _) => step,
        }
    }

    /// Whether a handler is made of just these.
    pub open spec fn made_of(
        self,
        epoll: P,
        num_vrings: usize,
        thread_id: usize,
        exit_event: Option<N>,
    ) -> bool {
        &&& self.spec_epoll() == epoll
        &&& self.spec_num_vrings() == num_vrings
        &&& self.spec_thread_id() == thread_id
        &&& self.spec_exit_event() == exit_event
    }

    /// The step in creating a handler that comes after a step and the answer to it. The epoll
    /// descriptor is created first; then the backend is asked for its exit event; if it has one,
    /// the descriptor is made to watch it, under the number after the last queue.
    pub open spec fn setup_next<E>(
        num_vrings: usize,
        thread_id: usize,
        step: EpollSetupStep<P, N, E>,
        answer: EpollSetupAnswer<P, N, E>,
        next: EpollSetupStep<P, N, E>,
    ) -> bool {
        match (step, answer) {
            (
                EpollSetupStep::CreateEpoll,
                EpollSetupAnswer::Created(Err(error)),
            ) => next == EpollSetupStep::<P, N, E>::Done(
                Err(VringEpollError::EpollCreateFd(error)),
            ),
            (
                EpollSetupStep::CreateEpoll,
                EpollSetupAnswer::Created(Ok(epoll)),
            ) => next == EpollSetupStep::<P, N, E>::AskExitEvent { epoll },
            (
                EpollSetupStep::AskExitEvent { epoll },
                EpollSetupAnswer::ExitEvent { event: None, .. },
            ) => next matches EpollSetupStep::Done(Ok(handler)) && handler.made_of(
                epoll,
                num_vrings,
                thread_id,
                None,
            ),
            (
                EpollSetupStep::AskExitEvent { epoll },
                EpollSetupAnswer::ExitEvent { event: Some((consumer, notifier)), num_queues },
            ) => next matches EpollSetupStep::Control { epoll: e, notifier: n, control: c } && e
                == epoll && n == notifier && c.operation == ControlOperation::Add && c.fd
                == consumer && c.evset@ == EVENT_IN && c.data == num_queues,
            (
                EpollSetupStep::Control { epoll, notifier, .. },
                EpollSetupAnswer::Controlled(Ok(())),
            ) => next matches EpollSetupStep::Done(Ok(handler)) && handler.made_of(
                epoll,
                num_vrings,
                thread_id,
                Some(notifier),
            ),
            (
                EpollSetupStep::Control { .. },
                EpollSetupAnswer::Controlled(Err(error)),
            ) => next == EpollSetupStep::<P, N, E>::Done(
                Err(VringEpollError::RegisterExitEvent(error)),
            ),
            _ => next == step,
        }
    }

    /// The first step for an event: an event from the exit event fd ends the loop at once, any
    /// other has to pass the event gate.
    pub fn handle_event<E>(
        &self,
        num_queues: usize,
        data: u64,
        evset: EventSet,
        rest: Batch<ReadyEvent>,
    ) -> (step: EpollStep<E>)
        ensures
            step@ == self.setting(num_queues).handling::<E>(data, evset@, rest@),
    {
        if self.exit_event_fd.is_some() && data == num_queues as u64 {
            return EpollStep::Done(Ok(()));
        }
        EpollStep::EnterGate { data, evset, rest }
    }

    /// The first `count` of `events`, or all of them if there are fewer.
    fn batch(events: Vec<ReadyEvent>, count: usize) -> (batch: Batch<ReadyEvent>)
        ensures
            batch@ == reported(events@, count as nat),
    {
        let mut kept = events;
        kept.truncate(count);
        assert(kept@ =~= reported(events@, count as nat));
        Batch::new(kept)
    }

    /// The first step for the events that are left.
    fn next_event<E>(&self, num_queues: usize, rest: Batch<ReadyEvent>) -> (step: EpollStep<E>)
        ensures
            step@ == self.setting(num_queues).dispatch::<E>(rest@),
    {
        let mut rest = rest;
        match rest.take_next() {
            None => EpollStep::Wait,
            Some(event) => match EventSet::from_bits(event.events) {
                None => EpollStep::ReportUnknown { bits: event.events, rest },
                Some(evset) => self.handle_event(num_queues, event.data, evset, rest),
            },
        }
    }

    /// The first step of the event loop.
    ///
    /// The event loop will be terminated once an event is received from the `exit event fd`
    /// associated with the backend.
    pub fn run<E>(&self) -> (step: EpollStep<E>)
        ensures
            step@ == EpollStepView::<E>::Wait,
    {
        EpollStep::Wait
    }

    /// The next step of the event loop, given the answer to the last one. `num_queues` is what the
    /// backend states now.
    pub fn resume<E>(
        &self,
        num_queues: usize,
        step: EpollStep<E>,
        answer: EpollAnswer<E>,
    ) -> (next: EpollStep<E>)
        ensures
            next@ == self.setting(num_queues).next(step@, answer@),
    {
        match (step, answer) {
            (EpollStep::Wait, EpollAnswer::Waited { result, events }) => match result {
                Ok(count) => self.next_event(num_queues, Self::batch(events, count)),
                Err(failure) => if failure.kind == IoErrorKind::Interrupted {
                    // An interrupted wait is no error: no event has been lost, and the wait is
                    // simply made again.
                    EpollStep::Wait
                } else {
                    EpollStep::Done(Err(VringEpollError::EpollWait(failure.error)))
                },
            },
            (EpollStep::ReportUnknown { rest, .. }, EpollAnswer::Reported) => self.next_event(
                num_queues,
                rest,
            ),
            (
                EpollStep::EnterGate { data, evset, rest },
                EpollAnswer::Entered(permit),
            ) => if !permit {
                EpollStep::Done(Ok(()))
            } else if data < self.num_vrings as u64 {
                EpollStep::ReadKick { data, evset, rest }
            } else {
                EpollStep::HandleEvent { device_event: device_event(data), evset, rest }
            },
            (
                EpollStep::ReadKick { data, evset, rest },
                EpollAnswer::Kicked(result),
            ) => match result {
                Ok(enabled) => if enabled {
                    EpollStep::HandleEvent { device_event: device_event(data), evset, rest }
                } else {
                    // If the vring is not enabled, it should not be processed.
                    EpollStep::LeaveGate { verdict: Ok(()), rest }
                },
                Err(error) => EpollStep::LeaveGate {
                    verdict: Err(VringEpollError::HandleEventReadKick(error)),
                    rest,
                },
            },
            (EpollStep::HandleEvent { rest, .. }, EpollAnswer::Handled(result)) => match result {
                Ok(()) => EpollStep::LeaveGate { verdict: Ok(()), rest },
                Err(error) => EpollStep::LeaveGate {
                    verdict: Err(VringEpollError::HandleEventBackendHandling(error)),
                    rest,
                },
            },
            (EpollStep::LeaveGate { verdict, rest }, EpollAnswer::Left) => match verdict {
                Ok(()) => self.next_event(num_queues, rest),
                Err(error) => EpollStep::Done(Err(error)),
            },
            (step, _) => step,
        }
    }
}

} // verus!
