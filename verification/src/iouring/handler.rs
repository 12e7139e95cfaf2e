//! The handler of an io_uring worker: what other threads register with it, and what the worker is
//! started from.

use vstd::prelude::*;

use std::collections::{HashMap, VecDeque};

use crate::error::VringIoUringError;
use crate::event_set::EventSet;
use crate::iouring::config::{IoUringConfig, RingPlan};
use crate::iouring::types::{IoUringCommand, RegisteredEvent};
use crate::iouring::worker::{Dispatcher, WorkerState, FIRST_BACKEND_POLL_TOKEN};
use crate::os::{OsError, EBADF, EEXIST, EINVAL, ENOENT};

verus! {

/// A descriptor to watch, and what its events are read from.
#[derive(Debug)]
pub struct EventSource<C> {
    /// The descriptor.
    pub fd: i32,
    /// What reads the events.
    pub consumer: C,
}

/// What other threads have registered with a worker.
#[verifier::ext_equal]
pub struct Registry {
    /// The registered descriptors, and what they are registered with.
    pub registrations: Map<i32, RegisteredEvent>,
    /// The commands that the worker has not carried out yet, the oldest first.
    pub commands: Seq<IoUringCommand>,
    /// The token for the next poll.
    pub next_token: u64,
}

impl Registry {
    /// A registry without anything in it.
    pub open spec fn empty() -> Registry {
        Registry {
            registrations: Map::empty(),
            commands: Seq::empty(),
            next_token: FIRST_BACKEND_POLL_TOKEN,
        }
    }

    /// The token after the next one. Tokens start over once they have run out.
    pub open spec fn token_after(self) -> u64 {
        if self.next_token == u64::MAX {
            0
        } else {
            (self.next_token + 1) as u64
        }
    }

    /// Registers a descriptor: it is entered with a fresh token, and the worker is told to start a
    /// poll. A negative descriptor is refused with `EBADF`, and one that is registered already
    /// with `EEXIST`; the latter uses up a token all the same.
    pub open spec fn register(self, fd: i32, evset: EventSet, data: u64) -> (
        Registry,
        Result<(), OsError>,
    ) {
        let token = self.next_token;
        if fd < 0 {
            (self, Err(OsError { code: EBADF }))
        } else if self.registrations.contains_key(fd) {
            (Registry { next_token: self.token_after(), ..self }, Err(OsError { code: EEXIST }))
        } else {
            (
                Registry {
                    registrations: self.registrations.insert(
                        fd,
                        RegisteredEvent { token, evset, data },
                    ),
                    commands: self.commands.push(IoUringCommand::Add { token, fd, evset, data }),
                    next_token: self.token_after(),
                },
                Ok(()),
            )
        }
    }

    /// Takes a descriptor out, and tells the worker to end its poll. A descriptor that is not
    /// registered with just these events and data is refused with `ENOENT`.
    pub open spec fn unregister(self, fd: i32, evset: EventSet, data: u64) -> (
        Registry,
        Result<(), OsError>,
    ) {
        if self.registrations.contains_key(fd) && self.registrations[fd].evset == evset
            && self.registrations[fd].data == data {
            (
                Registry {
                    registrations: self.registrations.remove(fd),
                    commands: self.commands.push(
                        IoUringCommand::Remove { token: self.registrations[fd].token },
                    ),
                    ..self
                },
                Ok(()),
            )
        } else {
            (self, Err(OsError { code: ENOENT }))
        }
    }

    /// Registers a listener: a descriptor under a number that is not reserved for the queues and
    /// the exit event.
    pub open spec fn register_listener(
        self,
        num_queues: usize,
        fd: i32,
        evset: EventSet,
        data: u64,
    ) -> (Registry, Result<(), OsError>) {
        if data <= num_queues {
            (self, Err(OsError { code: EINVAL }))
        } else {
            self.register(fd, evset, data)
        }
    }

    /// Takes a listener out: a descriptor under a number that is not reserved for the queues and
    /// the exit event.
    pub open spec fn unregister_listener(
        self,
        num_queues: usize,
        fd: i32,
        evset: EventSet,
        data: u64,
    ) -> (Registry, Result<(), OsError>) {
        if data <= num_queues {
            (self, Err(OsError { code: EINVAL }))
        } else {
            self.unregister(fd, evset, data)
        }
    }

    /// Takes the oldest command out.
    pub open spec fn pop(self) -> (Registry, Option<IoUringCommand>) {
        if self.commands.len() == 0 {
            (self, None)
        } else {
            (
                Registry { commands: self.commands.drop_first(), ..self },
                Some(self.commands[0]),
            )
        }
    }
}

/// What a handler consists of.
#[verifier::ext_equal]
pub struct HandlerView<R, C, N> {
    pub ring: Option<R>,
    pub num_vrings: usize,
    pub thread_id: usize,
    pub config: IoUringConfig,
    pub exit_event_fd: Option<N>,
    pub exit_event_consumer: Option<EventSource<C>>,
    pub command_consumer: Option<EventSource<C>>,
    pub command_notifier: N,
    pub registry: Registry,
}

impl<R, C, N> HandlerView<R, C, N> {
    /// Whether a worker can be started: there are a ring and a source of commands for it.
    pub open spec fn can_start(self) -> bool {
        self.ring is Some && self.command_consumer is Some
    }

    /// The handler after an attempt to start a worker, which takes out what the worker needs.
    pub open spec fn started(self) -> HandlerView<R, C, N> {
        if self.can_start() {
            HandlerView {
                ring: None,
                command_consumer: None,
                exit_event_consumer: None,
                ..self
            }
        } else {
            HandlerView { ring: None, ..self }
        }
    }
}

/// io_uring event handler to manage and process registered file descriptors.
///
/// `R` is the ring, `C` is what events are read from, and `N` is what raises events. The handler
/// keeps them for those who drive it and never looks into them.
#[derive(Debug)]
pub struct VringIoUringHandler<R, C, N> {
    ring: Option<R>,
    num_vrings: usize,
    thread_id: usize,
    config: IoUringConfig,
    exit_event_fd: Option<N>,
    exit_event_consumer: Option<EventSource<C>>,
    command_consumer: Option<EventSource<C>>,
    command_notifier: N,
    commands: VecDeque<IoUringCommand>,
    registrations: HashMap<i32, RegisteredEvent>,
    next_token: u64,
}

impl<R, C, N> View for VringIoUringHandler<R, C, N> {
    type V = HandlerView<R, C, N>;

    closed spec fn view(&self) -> HandlerView<R, C, N> {
        HandlerView {
            ring: self.ring,
            num_vrings: self.num_vrings,
            thread_id: self.thread_id,
            config: self.config,
            exit_event_fd: self.exit_event_fd,
            exit_event_consumer: self.exit_event_consumer,
            command_consumer: self.command_consumer,
            command_notifier: self.command_notifier,
            registry: Registry {
                registrations: self.registrations@,
                commands: self.commands@,
                next_token: self.next_token,
            },
        }
    }
}

/// An io_uring worker, with what it works on.
#[derive(Debug)]
pub struct VringIoUringWorker<R, C> {
    /// The ring.
    pub ring: R,
    /// What announces commands.
    pub command_consumer: EventSource<C>,
    /// The exit event, if there is one.
    pub exit_event_consumer: Option<EventSource<C>>,
    /// What decides on the steps of the worker.
    pub dispatcher: Dispatcher,
}

/// How an event is to be created.
#[derive(Clone, Copy, Debug, PartialEq, Eq, Structural)]
pub struct EventOptions {
    /// Reading the event does not wait for it.
    pub nonblocking: bool,
    /// The event is closed when another program is executed.
    pub close_on_exec: bool,
}

/// What the creation of an io_uring handler asks of its surroundings next.
#[derive(Debug)]
pub enum UringSetupStep<R, C, N, E> {
    /// Create the ring.
    CreateRing { plan: RingPlan, config: IoUringConfig },
    /// Ask the backend for the exit event of this worker.
    AskExitEvent { ring: R, config: IoUringConfig },
    /// Create the event that announces commands.
    CreateCommandEvent {
        options: EventOptions,
        ring: R,
        config: IoUringConfig,
        exit_event: Option<(EventSource<C>, N)>,
    },
    /// Nothing: here is the handler, or why there is none.
    Done(Result<VringIoUringHandler<R, C, N>, VringIoUringError<E>>),
}

/// What the surroundings answer to a [`UringSetupStep`].
#[derive(Debug)]
pub enum UringSetupAnswer<R, C, N, E> {
    /// To `CreateRing`.
    RingCreated(Result<R, E>),
    /// To `AskExitEvent`: what the event is read from and what raises it, if there is one.
    ExitEvent(Option<(EventSource<C>, N)>),
    /// To `CreateCommandEvent`: what the event is read from and what raises it.
    CommandEventCreated(Result<(EventSource<C>, N), E>),
}

impl<R, C, N> VringIoUringHandler<R, C, N> {
    /// The first step in creating a handler.
    pub fn new<E>(config: IoUringConfig) -> (step: UringSetupStep<R, C, N, E>)
        ensures
            step matches UringSetupStep::CreateRing { plan, config: kept } && kept == config
                && plan.options@ == config.ring_options() && plan.entries == config.entries,
    {
        UringSetupStep::CreateRing { plan: config.build_ring(), config }
    }

    /// The next step in creating a handler for `num_vrings` vrings and the worker `thread_id`,
    /// given the answer to the last one.
    pub fn resume_new<E>(
        num_vrings: usize,
        thread_id: usize,
        step: UringSetupStep<R, C, N, E>,
        answer: UringSetupAnswer<R, C, N, E>,
    ) -> (next: UringSetupStep<R, C, N, E>)
        ensures
            Self::setup_next(num_vrings, thread_id, step, answer, next),
    {
        broadcast use vstd::std_specs::hash::group_hash_axioms;

        match (step, answer) {
            (
                UringSetupStep::CreateRing { config, .. },
                UringSetupAnswer::RingCreated(result),
            ) => match result {
                Ok(ring) => UringSetupStep::AskExitEvent { ring, config },
                Err(error) => UringSetupStep::Done(Err(VringIoUringError::IoUringCreate(error))),
            },
            (
                UringSetupStep::AskExitEvent { ring, config },
                UringSetupAnswer::ExitEvent(exit_event),
            ) => UringSetupStep::CreateCommandEvent {
                options: EventOptions { nonblocking: true, close_on_exec: true },
                ring,
                config,
                exit_event,
            },
            (
                UringSetupStep::CreateCommandEvent { ring, config, exit_event, .. },
                UringSetupAnswer::CommandEventCreated(result),
            ) => match result {
                Ok((command_consumer, command_notifier)) => {
                    let (exit_event_consumer, exit_event_fd) = match exit_event {
                        Some((consumer, notifier)) => (Some(consumer), Some(notifier)),
                        None => (None, None),
                    };
                    let handler = VringIoUringHandler {
                        ring: Some(ring),
                        num_vrings,
                        thread_id,
                        config,
                        exit_event_fd,
                        exit_event_consumer,
                        command_consumer: Some(command_consumer),
                        command_notifier,
                        commands: VecDeque::new(),
                        registrations: HashMap::new(),
                        next_token: FIRST_BACKEND_POLL_TOKEN,
                    };
                    assert(handler@.registry =~= Registry::empty());
                    UringSetupStep::Done(Ok(handler))
                },
                Err(error) => UringSetupStep::Done(Err(VringIoUringError::CreateEvent(error))),
            },
            (step, _) => step,
        }
    }

    /// The step in creating a handler that comes after a step and the answer to it. The ring is
    /// created first; then the backend is asked for its exit event; then the event that announces
    /// commands is created. A new handler has nothing registered.
    pub open spec fn setup_next<E>(
        num_vrings: usize,
        thread_id: usize,
        step: UringSetupStep<R, C, N, E>,
        answer: UringSetupAnswer<R, C, N, E>,
        next: UringSetupStep<R, C, N, E>,
    ) -> bool {
        match (step, answer) {
            (
                UringSetupStep::CreateRing { .. },
                UringSetupAnswer::RingCreated(Err(error)),
            ) => next == UringSetupStep::<R, C, N, E>::Done(
                Err(VringIoUringError::IoUringCreate(error)),
            ),
            (
                UringSetupStep::CreateRing { config, .. },
                UringSetupAnswer::RingCreated(Ok(ring)),
            ) => next == UringSetupStep::<R, C, N, E>::AskExitEvent { ring, config },
            (
                UringSetupStep::AskExitEvent { ring, config },
                UringSetupAnswer::ExitEvent(exit_event),
            ) => next == (UringSetupStep::<R, C, N, E>::CreateCommandEvent {
                options: EventOptions { nonblocking: true, close_on_exec: true },
                ring,
                config,
                exit_event,
            }),
            (
                UringSetupStep::CreateCommandEvent { .. },
                UringSetupAnswer::CommandEventCreated(Err(error)),
            ) => next == UringSetupStep::<R, C, N, E>::Done(
                Err(VringIoUringError::CreateEvent(error)),
            ),
            (
                UringSetupStep::CreateCommandEvent { ring, config, exit_event, .. },
                UringSetupAnswer::CommandEventCreated(Ok((command_consumer, command_notifier))),
            ) => next matches UringSetupStep::Done(Ok(handler)) && handler@ == (HandlerView {
                ring: Some(ring),
                num_vrings,
                thread_id,
                config,
                exit_event_fd: match exit_event {
                    Some((_, notifier)) => Some(notifier),
                    None => None,
                },
                exit_event_consumer: match exit_event {
                    Some((consumer, _)) => Some(consumer),
                    None => None,
                },
                command_consumer: Some(command_consumer),
                command_notifier,
                registry: Registry::empty(),
            }),
            _ => next == step,
        }
    }

    /// What has to be notified to send the `exit event` that breaks the event loop, if there is
    /// such an event. Whether the notification succeeds is of no interest.
    pub fn send_exit_event(&self) -> (notifier: Option<&N>)
        ensures
            notifier == (match self@.exit_event_fd {
                Some(notifier) => Some(&notifier),
                None => None,
            }),
    {
        self.exit_event_fd.as_ref()
    }

    /// What has to be notified when there are new commands for the worker.
    pub fn command_notifier(&self) -> (notifier: &N)
        ensures
            *notifier == self@.command_notifier,
    {
        &self.command_notifier
    }

    /// The number of this worker, which the backend is given with every event.
    pub fn thread_id(&self) -> (thread_id: usize)
        ensures
            thread_id == self@.thread_id,
    {
        self.thread_id
    }

    /// Register an event into the io_uring worker.
    ///
    /// When this event is later triggered, the backend implementation of
    /// `handle_event_with_context` will be called. The `data` range [0...num_queues] is reserved
    /// for queues and exit event, and is refused with `EINVAL`. On success the worker has a new
    /// command, and [`command_notifier`](VringIoUringHandler::command_notifier) has to be notified.
    pub fn register_listener(
        &mut self,
        num_queues: usize,
        fd: i32,
        ev_type: EventSet,
        data: u64,
    ) -> (result: Result<(), OsError>)
        ensures
            data <= num_queues ==> result == Err::<(), OsError>(OsError { code: EINVAL })
                && final(self)@ == old(self)@,
            data > num_queues ==> {
                let (registry, answer) = old(self)@.registry.register(fd, ev_type, data);
                result == answer && final(self)@ == (HandlerView { registry, ..old(self)@ })
            },
            (final(self)@.registry, result) == old(self)@.registry.register_listener(
                num_queues,
                fd,
                ev_type,
                data,
            ),
    {
        if data <= num_queues as u64 {
            Err(OsError::invalid_argument())
        } else {
            self.register_event(fd, ev_type, data)
        }
    }

    /// Unregister an event from the io_uring worker. The `data` range [0...num_queues] is reserved
    /// for queues and exit event, and is refused with `EINVAL`. On success the worker has a new
    /// command, and [`command_notifier`](VringIoUringHandler::command_notifier) has to be notified.
    pub fn unregister_listener(
        &mut self,
        num_queues: usize,
        fd: i32,
        ev_type: EventSet,
        data: u64,
    ) -> (result: Result<(), OsError>)
        ensures
            data <= num_queues ==> result == Err::<(), OsError>(OsError { code: EINVAL })
                && final(self)@ == old(self)@,
            data > num_queues ==> {
                let (registry, answer) = old(self)@.registry.unregister(fd, ev_type, data);
                result == answer && final(self)@ == (HandlerView { registry, ..old(self)@ })
            },
            (final(self)@.registry, result) == old(self)@.registry.unregister_listener(
                num_queues,
                fd,
                ev_type,
                data,
            ),
    {
        if data <= num_queues as u64 {
            Err(OsError::invalid_argument())
        } else {
            self.unregister_event(fd, ev_type, data)
        }
    }

    /// Registers a descriptor, of a queue or of a listener. On success the worker has a new
    /// command, and [`command_notifier`](VringIoUringHandler::command_notifier) has to be notified.
    pub fn register_event(&mut self, fd: i32, ev_type: EventSet, data: u64) -> (result: Result<
        (),
        OsError,
    >)
        ensures
            ({
                let (registry, answer) = old(self)@.registry.register(fd, ev_type, data);
                result == answer && final(self)@ == (HandlerView { registry, ..old(self)@ })
            }),
    {
        broadcast use vstd::std_specs::hash::group_hash_axioms;

        if fd < 0 {
            return Err(OsError::bad_descriptor());
        }
        let token: u64 = self.next_token;
        self.next_token = token.wrapping_add(1);
        if self.registrations.contains_key(&fd) {
            return Err(OsError::already_exists());
        }
        self.registrations.insert(fd, RegisteredEvent { token, evset: ev_type, data });
        self.enqueue_command(IoUringCommand::Add { token, fd, evset: ev_type, data });
        Ok(())
    }

    /// Takes a descriptor out, of a queue or of a listener. On success the worker has a new
    /// command, and [`command_notifier`](VringIoUringHandler::command_notifier) has to be notified.
    pub fn unregister_event(&mut self, fd: i32, ev_type: EventSet, data: u64) -> (result: Result<
        (),
        OsError,
    >)
        ensures
            ({
                let (registry, answer) = old(self)@.registry.unregister(fd, ev_type, data);
                result == answer && final(self)@ == (HandlerView { registry, ..old(self)@ })
            }),
    {
        broadcast use vstd::std_specs::hash::group_hash_axioms;

        let registered: RegisteredEvent = match self.registrations.get(&fd) {
            Some(registered) => *registered,
            None => {
                return Err(OsError::not_found());
            },
        };
        if registered.data != data || registered.evset != ev_type {
            return Err(OsError::not_found());
        }
        self.registrations.remove(&fd);
        self.enqueue_command(IoUringCommand::Remove { token: registered.token });
        Ok(())
    }

    /// Puts a command at the end of the queue of commands.
    fn enqueue_command(&mut self, command: IoUringCommand)
        ensures
            final(self)@ == (HandlerView {
                registry: Registry {
                    commands: old(self)@.registry.commands.push(command),
                    ..old(self)@.registry
                },
                ..old(self)@
            }),
    {
        self.commands.push_back(command);
    }

    /// Takes the first command from the queue of commands, for the worker.
    pub fn pop_command(&mut self) -> (command: Option<IoUringCommand>)
        ensures
            ({
                let (registry, answer) = old(self)@.registry.pop();
                command == answer && final(self)@ == (HandlerView { registry, ..old(self)@ })
            }),
    {
        let command = self.commands.pop_front();
        assert(command is Some ==> self.commands@ =~= old(self).commands@.drop_first());
        command
    }

    /// Run the io_uring loop to handle all pending events on registered fds and backend SQEs: the
    /// worker that does it. A worker can be started once; after that there is no ring to run on.
    pub fn run<E>(&mut self) -> (worker: Result<VringIoUringWorker<R, C>, VringIoUringError<E>>)
        ensures
            final(self)@ == old(self)@.started(),
            match worker {
                Ok(worker) => {
                    &&& old(self)@.can_start()
                    &&& Some(worker.ring) == old(self)@.ring
                    &&& Some(worker.command_consumer) == old(self)@.command_consumer
                    &&& worker.exit_event_consumer == old(self)@.exit_event_consumer
                    &&& worker.dispatcher@ == WorkerState::initial(
                        worker.command_consumer.fd,
                        source_fd(worker.exit_event_consumer),
                        old(self)@.config.multishot_poll,
                        old(self)@.num_vrings,
                    )
                },
                Err(error) => !old(self)@.can_start() && error is AlreadyStarted,
            },
    {
        let ring = match self.ring.take() {
            Some(ring) => ring,
            None => {
                return Err(VringIoUringError::AlreadyStarted);
            },
        };
        let command_consumer = match self.command_consumer.take() {
            Some(consumer) => consumer,
            None => {
                return Err(VringIoUringError::AlreadyStarted);
            },
        };
        let exit_event_consumer = self.exit_event_consumer.take();
        let exit_fd: Option<i32> = match &exit_event_consumer {
            Some(source) => Some(source.fd),
            None => None,
        };
        let dispatcher = Dispatcher::new(
            command_consumer.fd,
            exit_fd,
            self.config.multishot_poll,
            self.num_vrings,
        );
        Ok(VringIoUringWorker { ring, command_consumer, exit_event_consumer, dispatcher })
    }
}

/// The descriptor of an event source that may not be there.
pub open spec fn source_fd<C>(source: Option<EventSource<C>>) -> Option<i32> {
    match source {
        Some(source) => Some(source.fd),
        None => None,
    }
}

} // verus!
