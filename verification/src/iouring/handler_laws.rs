//! What holds of the registrations of an io_uring worker over all operations.

use vstd::prelude::*;

use crate::error::VringIoUringError;
use crate::event_set::EventSet;
use crate::iouring::config::IoUringConfig;
use crate::iouring::handler::{
    source_fd, EventOptions, EventSource, HandlerView, Registry, UringSetupAnswer, UringSetupStep,
    VringIoUringHandler,
};
use crate::iouring::types::{IoUringCommand, RegisteredEvent};
use crate::iouring::worker::{WorkerState, FIRST_BACKEND_POLL_TOKEN};
use crate::os::OsError;
use crate::user_data::{encodable, kind_weight, USER_DATA_KIND_POLL, USER_DATA_PAYLOAD_MASK};

verus! {

/// A watched descriptor, and what it is watched for.
pub struct Listener {
    pub fd: i32,
    pub evset: EventSet,
    pub data: u64,
}

/// The token that a command is about.
pub open spec fn command_token(command: IoUringCommand) -> u64 {
    match command {
        IoUringCommand::Add { token, .. } => token,
        IoUringCommand::Remove { token } => token,
    }
}

/// What a command does to the watched descriptors, which are kept by the tokens of their polls.
pub open spec fn apply(listeners: Map<u64, Listener>, command: IoUringCommand) -> Map<
    u64,
    Listener,
> {
    match command {
        IoUringCommand::Add { token, fd, evset, data } => listeners.insert(
            token,
            Listener { fd, evset, data },
        ),
        IoUringCommand::Remove { token } => listeners.remove(token),
    }
}

/// What a sequence of commands does to the watched descriptors.
pub open spec fn replay(listeners: Map<u64, Listener>, commands: Seq<IoUringCommand>) -> Map<
    u64,
    Listener,
>
    decreases commands.len(),
{
    if commands.len() == 0 {
        listeners
    } else {
        apply(replay(listeners, commands.drop_last()), commands.last())
    }
}

/// Whether the watched descriptors are just the registered ones: each under the token that it is
/// registered with, and with the events and data that it is registered with.
pub open spec fn mirrors(
    listeners: Map<u64, Listener>,
    registrations: Map<i32, RegisteredEvent>,
) -> bool {
    &&& forall|fd: i32| #[trigger]
        registrations.contains_key(fd) ==> {
            let registered = registrations[fd];
            &&& listeners.contains_key(registered.token)
            &&& listeners[registered.token] == (Listener {
                fd,
                evset: registered.evset,
                data: registered.data,
            })
        }
    &&& forall|token: u64| #[trigger]
        listeners.contains_key(token) ==> {
            let fd = listeners[token].fd;
            &&& registrations.contains_key(fd)
            &&& registrations[fd].token == token
        }
}

impl Registry {
    /// What always holds of a registry, as long as tokens do not run out: tokens are given out in
    /// order and never reuse those of the worker's own polls, and no negative descriptor is
    /// registered.
    pub open spec fn well_formed(self) -> bool {
        &&& self.next_token >= FIRST_BACKEND_POLL_TOKEN
        &&& forall|fd: i32| #[trigger]
            self.registrations.contains_key(fd) ==> fd >= 0 && FIRST_BACKEND_POLL_TOKEN
                <= self.registrations[fd].token < self.next_token
        &&& forall|i: int|
            0 <= i < self.commands.len() ==> FIRST_BACKEND_POLL_TOKEN <= command_token(
                #[trigger] self.commands[i],
            ) < self.next_token
    }

    /// Whether a worker that watches `listeners` will watch just what is registered, once it has
    /// carried out the commands that wait for it.
    pub open spec fn leads_from(self, listeners: Map<u64, Listener>) -> bool {
        mirrors(replay(listeners, self.commands), self.registrations)
    }
}

/// A new registry is well formed, and leads from watching nothing.
pub proof fn empty_registry_is_consistent()
    ensures
        Registry::empty().well_formed(),
        Registry::empty().leads_from(Map::empty()),
{
}

/// Replaying one more command applies it last.
proof fn replay_push(
    listeners: Map<u64, Listener>,
    commands: Seq<IoUringCommand>,
    command: IoUringCommand,
)
    ensures
        replay(listeners, commands.push(command)) == apply(replay(listeners, commands), command),
{
    assert(commands.push(command).drop_last() =~= commands);
}

/// Replaying commands is replaying the rest after the first.
proof fn replay_first(listeners: Map<u64, Listener>, commands: Seq<IoUringCommand>)
    requires
        commands.len() > 0,
    ensures
        replay(listeners, commands) == replay(apply(listeners, commands[0]), commands.drop_first()),
    decreases commands.len(),
{
    if commands.len() == 1 {
        assert(commands.drop_last() =~= Seq::empty());
        assert(commands.drop_first() =~= Seq::empty());
        assert(replay(listeners, Seq::<IoUringCommand>::empty()) == listeners);
        assert(replay(apply(listeners, commands[0]), Seq::<IoUringCommand>::empty()) == apply(
            listeners,
            commands[0],
        ));
    } else {
        replay_first(listeners, commands.drop_last());
        assert(commands.drop_last().drop_first() =~= commands.drop_first().drop_last());
    }
}

/// Whatever is registered, or refused, the registry stays well formed, and the worker is told just
/// what it takes to keep up. The inputs left out are those where tokens have run out: the next
/// registration would start over with token 0, which is that of a poll of the worker's own.
pub proof fn register_keeps_consistent(
    registry: Registry,
    listeners: Map<u64, Listener>,
    fd: i32,
    evset: EventSet,
    data: u64,
)
    requires
        registry.well_formed(),
        registry.leads_from(listeners),
        registry.next_token < u64::MAX,
    ensures
        registry.register(fd, evset, data).0.well_formed(),
        registry.register(fd, evset, data).0.leads_from(listeners),
{
    let after = registry.register(fd, evset, data).0;
    if registry.register(fd, evset, data).1 is Ok {
        let token = registry.next_token;
        let command = IoUringCommand::Add { token, fd, evset, data };
        replay_push(listeners, registry.commands, command);
        let before = replay(listeners, registry.commands);
        let now = replay(listeners, after.commands);
        assert(now == before.insert(token, Listener { fd, evset, data }));
        assert(!before.contains_key(token));
    }
}

/// Whatever is unregistered, or refused, the registry stays well formed, and the worker is told
/// just what it takes to keep up.
pub proof fn unregister_keeps_consistent(
    registry: Registry,
    listeners: Map<u64, Listener>,
    fd: i32,
    evset: EventSet,
    data: u64,
)
    requires
        registry.well_formed(),
        registry.leads_from(listeners),
    ensures
        registry.unregister(fd, evset, data).0.well_formed(),
        registry.unregister(fd, evset, data).0.leads_from(listeners),
{
    let after = registry.unregister(fd, evset, data).0;
    if registry.unregister(fd, evset, data).1 is Ok {
        let token = registry.registrations[fd].token;
        replay_push(listeners, registry.commands, IoUringCommand::Remove { token });
        let before = replay(listeners, registry.commands);
        assert(replay(listeners, after.commands) == before.remove(token));
        assert(before[token].fd == fd);
        assert forall|other: i32| #[trigger] after.registrations.contains_key(other) implies {
            let registered = after.registrations[other];
            &&& before.remove(token).contains_key(registered.token)
            &&& before.remove(token)[registered.token] == (Listener {
                fd: other,
                evset: registered.evset,
                data: registered.data,
            })
        } by {
            assert(registry.registrations.contains_key(other));
        }
    }
}

/// Taking a command out of the registry and carrying it out loses nothing.
pub proof fn pop_keeps_consistent(registry: Registry, listeners: Map<u64, Listener>)
    requires
        registry.well_formed(),
        registry.leads_from(listeners),
    ensures
        registry.pop().0.well_formed(),
        match registry.pop().1 {
            Some(command) => {
                &&& registry.pop().0.leads_from(apply(listeners, command))
                &&& command_token(command) >= FIRST_BACKEND_POLL_TOKEN
            },
            None => registry.pop().0 == registry && mirrors(listeners, registry.registrations),
        },
{
    if registry.commands.len() > 0 {
        replay_first(listeners, registry.commands);
        let after = registry.pop().0;
        assert forall|i: int| 0 <= i < after.commands.len() implies FIRST_BACKEND_POLL_TOKEN
            <= command_token(#[trigger] after.commands[i]) < after.next_token by {
            assert(after.commands[i] == registry.commands[i + 1]);
        }
    }
}

/// A descriptor that is registered can be unregistered with the same events and data, and with
/// none else, and it is then as if it had never been registered. Registering it a second time, or
/// unregistering it a second time, is refused.
pub proof fn unregister_undoes_register(registry: Registry, fd: i32, evset: EventSet, data: u64)
    requires
        registry.register(fd, evset, data).1 is Ok,
    ensures
        ({
            let registered = registry.register(fd, evset, data).0;
            let unregistered = registered.unregister(fd, evset, data).0;
            &&& registered.register(fd, evset, data).1 is Err
            &&& registered.unregister(fd, evset, data).1 is Ok
            &&& unregistered.registrations == registry.registrations
            &&& unregistered.unregister(fd, evset, data).1 is Err
            &&& forall|other_set: EventSet, other_data: u64|
                other_set != evset || other_data != data ==> (#[trigger] registered.unregister(
                    fd,
                    other_set,
                    other_data,
                )).1 is Err
        }),
{
    let registered = registry.register(fd, evset, data).0;
    let unregistered = registered.unregister(fd, evset, data).0;
    assert(unregistered.registrations =~= registry.registrations);
}

/// A refused request changes nothing that anyone can see: the registrations and the commands stay
/// as they are.
pub proof fn refusals_change_nothing(registry: Registry, fd: i32, evset: EventSet, data: u64)
    ensures
        registry.register(fd, evset, data).1 is Err ==> {
            &&& registry.register(fd, evset, data).0.registrations == registry.registrations
            &&& registry.register(fd, evset, data).0.commands == registry.commands
        },
        registry.unregister(fd, evset, data).1 is Err ==> registry.unregister(fd, evset, data).0
            == registry,
{
}

/// No two registered descriptors share a token.
pub proof fn tokens_are_unique(
    registry: Registry,
    listeners: Map<u64, Listener>,
    fd1: i32,
    fd2: i32,
)
    requires
        registry.leads_from(listeners),
        registry.registrations.contains_key(fd1),
        registry.registrations.contains_key(fd2),
        registry.registrations[fd1].token == registry.registrations[fd2].token,
    ensures
        fd1 == fd2,
{
}

/// One operation on a registry.
pub enum RegistryOp {
    /// A thread registers a descriptor.
    Register { fd: i32, evset: EventSet, data: u64 },
    /// A thread unregisters a descriptor.
    Unregister { fd: i32, evset: EventSet, data: u64 },
    /// The worker takes a command.
    Pop,
}

impl Registry {
    /// The registry after one operation.
    pub open spec fn after(self, op: RegistryOp) -> Registry {
        match op {
            RegistryOp::Register { fd, evset, data } => self.register(fd, evset, data).0,
            RegistryOp::Unregister { fd, evset, data } => self.unregister(fd, evset, data).0,
            RegistryOp::Pop => self.pop().0,
        }
    }

    /// The registry after a sequence of operations, by whatever threads.
    pub open spec fn after_all(self, ops: Seq<RegistryOp>) -> Registry
        decreases ops.len(),
    {
        if ops.len() == 0 {
            self
        } else {
            self.after_all(ops.drop_last()).after(ops.last())
        }
    }

    /// The token that an operation gives out: that under which it enters a descriptor.
    pub open spec fn token_given(self, op: RegistryOp) -> Option<u64> {
        match op {
            RegistryOp::Register { fd, evset, data } => match self.register(fd, evset, data) {
                (after, Ok(())) => Some(after.registrations[fd].token),
                (_, Err(_)) => None,
            },
            _ => None,
        }
    }

    /// The tokens that a sequence of operations gives out, in their order.
    pub open spec fn tokens_given(self, ops: Seq<RegistryOp>) -> Seq<u64>
        decreases ops.len(),
    {
        if ops.len() == 0 {
            Seq::empty()
        } else {
            let earlier = self.tokens_given(ops.drop_last());
            match self.after_all(ops.drop_last()).token_given(ops.last()) {
                Some(token) => earlier.push(token),
                None => earlier,
            }
        }
    }
}

/// How many of some operations ask for a registration, successful or not.
pub open spec fn registrations_asked(ops: Seq<RegistryOp>) -> nat
    decreases ops.len(),
{
    if ops.len() == 0 {
        0
    } else {
        registrations_asked(ops.drop_last()) + if ops.last() is Register {
            1nat
        } else {
            0
        }
    }
}

/// No token is given out twice, whatever is registered and unregistered: each is larger than all
/// before it, also where the descriptor of an earlier one has been unregistered since. All fit in
/// the user data of a poll, and none is one of the worker's own. The inputs left out are those with
/// so many registrations that there are no tokens left that fit.
pub proof fn tokens_are_never_reused(ops: Seq<RegistryOp>)
    requires
        registrations_asked(ops) <= kind_weight() - FIRST_BACKEND_POLL_TOKEN,
    ensures
        ({
            let given = Registry::empty().tokens_given(ops);
            &&& forall|i: int, j: int| 0 <= i < j < given.len() ==> given[i] < given[j]
            &&& forall|i: int|
                0 <= i < given.len() ==> {
                    &&& FIRST_BACKEND_POLL_TOKEN <= #[trigger] given[i] <= USER_DATA_PAYLOAD_MASK
                    &&& encodable(USER_DATA_KIND_POLL, given[i])
                }
        }),
{
    tokens_grow(ops);
}

/// The tokens that have been given out are below the next one.
proof fn tokens_grow(ops: Seq<RegistryOp>)
    requires
        registrations_asked(ops) <= kind_weight() - FIRST_BACKEND_POLL_TOKEN,
    ensures
        ({
            let given = Registry::empty().tokens_given(ops);
            let next_token = Registry::empty().after_all(ops).next_token;
            &&& FIRST_BACKEND_POLL_TOKEN <= next_token <= FIRST_BACKEND_POLL_TOKEN
                + registrations_asked(ops)
            &&& forall|i: int, j: int| 0 <= i < j < given.len() ==> given[i] < given[j]
            &&& forall|i: int|
                0 <= i < given.len() ==> FIRST_BACKEND_POLL_TOKEN <= #[trigger] given[i]
                    < next_token
        }),
    decreases ops.len(),
{
    if ops.len() > 0 {
        tokens_grow(ops.drop_last());
        let before = Registry::empty().after_all(ops.drop_last());
        let earlier = Registry::empty().tokens_given(ops.drop_last());
        let given = Registry::empty().tokens_given(ops);
        match before.token_given(ops.last()) {
            Some(token) => {
                assert(token == before.next_token);
                assert(given == earlier.push(token));
            },
            None => {
                assert(given == earlier);
            },
        }
        assert forall|i: int| 0 <= i < given.len() implies FIRST_BACKEND_POLL_TOKEN
            <= #[trigger] given[i] < Registry::empty().after_all(ops).next_token by {
            if i < earlier.len() {
                assert(given[i] == earlier[i]);
            }
        }
    }
}

/// A worker can be started once: after an attempt, successful or not, there is none to start.
pub proof fn worker_starts_once<R, C, N>(handler: HandlerView<R, C, N>)
    ensures
        !handler.started().can_start(),
{
}

/// Whether a descriptor can be registered depends on the descriptor alone: a negative one is
/// refused with error number 9, one that is registered already with 17, and any other is accepted,
/// whatever events and data it comes with and whatever else is registered or waiting.
pub proof fn every_free_descriptor_can_be_registered(
    registry: Registry,
    fd: i32,
    evset: EventSet,
    data: u64,
)
    ensures
        ({
            let answer = registry.register(fd, evset, data).1;
            &&& answer is Ok <==> fd >= 0 && !registry.registrations.contains_key(fd)
            &&& fd < 0 ==> answer == Err::<(), OsError>(OsError { code: 9 })
            &&& fd >= 0 && registry.registrations.contains_key(fd) ==> answer == Err::<(), OsError>(
                OsError { code: 17 },
            )
        }),
{
}

/// A registration enters the descriptor with the events and data that were asked for and with the
/// token that is next, leaves every other descriptor as it is, and tells the worker just that, after
/// everything it was told before. A refused one leaves registrations and commands as they are. Each
/// attempt with a possible descriptor uses up a token, and the tokens are counted up.
pub proof fn register_enters_what_was_asked_for(
    registry: Registry,
    fd: i32,
    evset: EventSet,
    data: u64,
    other: i32,
)
    requires
        other != fd,
    ensures
        ({
            let (after, answer) = registry.register(fd, evset, data);
            let token = registry.next_token;
            &&& after.registrations.contains_key(other) == registry.registrations.contains_key(other)
            &&& registry.registrations.contains_key(other) ==> after.registrations[other]
                == registry.registrations[other]
            &&& answer is Ok ==> {
                &&& after.registrations.contains_key(fd)
                &&& after.registrations[fd] == (RegisteredEvent { token, evset, data })
                &&& after.commands == registry.commands.push(
                    IoUringCommand::Add { token, fd, evset, data },
                )
            }
            &&& answer is Err ==> {
                &&& after.registrations == registry.registrations
                &&& after.commands == registry.commands
            }
            &&& fd < 0 ==> after.next_token == token
            &&& fd >= 0 ==> after.next_token == if token < u64::MAX {
                token + 1
            } else {
                0
            }
        }),
{
}

/// A descriptor can be unregistered exactly if it is registered with just the events and data that
/// are given, whatever commands are waiting or have been taken and whatever else is registered;
/// otherwise it is refused with error number 2, and nothing changes.
pub proof fn every_registered_descriptor_can_be_unregistered(
    registry: Registry,
    fd: i32,
    evset: EventSet,
    data: u64,
)
    ensures
        ({
            let (after, answer) = registry.unregister(fd, evset, data);
            &&& answer is Ok <==> {
                &&& registry.registrations.contains_key(fd)
                &&& registry.registrations[fd].evset == evset
                &&& registry.registrations[fd].data == data
            }
            &&& answer is Err ==> answer == Err::<(), OsError>(OsError { code: 2 }) && after
                == registry
        }),
{
}

/// Unregistering takes that descriptor out and no other, and tells the worker to end the poll that
/// the descriptor was registered with, after everything it was told before. No token is used up.
pub proof fn unregister_takes_one_descriptor_out(
    registry: Registry,
    fd: i32,
    evset: EventSet,
    data: u64,
    other: i32,
)
    requires
        other != fd,
        registry.unregister(fd, evset, data).1 is Ok,
    ensures
        ({
            let after = registry.unregister(fd, evset, data).0;
            &&& !after.registrations.contains_key(fd)
            &&& after.registrations.contains_key(other) == registry.registrations.contains_key(other)
            &&& registry.registrations.contains_key(other) ==> after.registrations[other]
                == registry.registrations[other]
            &&& after.commands == registry.commands.push(
                IoUringCommand::Remove { token: registry.registrations[fd].token },
            )
            &&& after.next_token == registry.next_token
        }),
{
}

/// The numbers up to the number of queues are reserved: a listener cannot be registered or
/// unregistered under any of them, which is refused with error number 22 and changes nothing, and
/// under every larger number it can be exactly if its descriptor can.
pub proof fn listeners_have_the_numbers_above_the_queues(
    registry: Registry,
    num_queues: usize,
    fd: i32,
    evset: EventSet,
    data: u64,
)
    ensures
        ({
            let registered = registry.register_listener(num_queues, fd, evset, data);
            let unregistered = registry.unregister_listener(num_queues, fd, evset, data);
            &&& registered.1 is Ok <==> data > num_queues && fd >= 0
                && !registry.registrations.contains_key(fd)
            &&& unregistered.1 is Ok <==> {
                &&& data > num_queues && registry.registrations.contains_key(fd)
                &&& registry.registrations[fd].evset == evset
                &&& registry.registrations[fd].data == data
            }
            &&& data <= num_queues ==> {
                &&& registered == (registry, Err::<(), OsError>(OsError { code: 22 }))
                &&& unregistered == (registry, Err::<(), OsError>(OsError { code: 22 }))
            }
            &&& data > num_queues ==> {
                &&& registered == registry.register(fd, evset, data)
                &&& unregistered == registry.unregister(fd, evset, data)
            }
        }),
{
}

/// The worker is given the commands in the order in which they were left, each once: taking one
/// gives the oldest and leaves the others, and one that is left is taken after those that were
/// there. There is none to take exactly if none is left. Taking changes nothing else.
pub proof fn commands_are_taken_in_order(registry: Registry)
    ensures
        ({
            let (after, command) = registry.pop();
            &&& command is None <==> registry.commands.len() == 0
            &&& command matches Some(command) ==> registry.commands == seq![command]
                + after.commands
            &&& command is None ==> after.commands == registry.commands
            &&& after.registrations == registry.registrations
            &&& after.next_token == registry.next_token
        }),
{
}

/// A new registry has nothing registered and no commands, and its first token is not one of the
/// worker's own, which are 0 and 1.
pub proof fn a_new_registry_is_empty(fd: i32)
    ensures
        !Registry::empty().registrations.contains_key(fd),
        Registry::empty().commands.len() == 0,
        Registry::empty().next_token == 2,
{
}

/// A worker can be started exactly if there are a ring and a source of commands. Starting it takes
/// both out, and the exit event; a failed attempt still takes the ring. Nothing else changes: what
/// is registered stays, and so does what raises events.
pub proof fn starting_takes_what_the_worker_needs<R, C, N>(handler: HandlerView<R, C, N>)
    ensures
        ({
            let after = handler.started();
            let starts = handler.ring is Some && handler.command_consumer is Some;
            &&& handler.can_start() == starts
            &&& after.ring is None
            &&& starts ==> after.command_consumer is None && after.exit_event_consumer is None
            &&& !starts ==> {
                &&& after.command_consumer == handler.command_consumer
                &&& after.exit_event_consumer == handler.exit_event_consumer
            }
            &&& after.num_vrings == handler.num_vrings && after.thread_id == handler.thread_id
            &&& after.config == handler.config && after.registry == handler.registry
            &&& after.exit_event_fd == handler.exit_event_fd
            &&& after.command_notifier == handler.command_notifier
        }),
{
}

/// A worker starts out with nothing to watch and nothing to look at, and with what it is given.
pub proof fn a_new_worker_has_what_it_is_given<C>(
    command_fd: i32,
    exit_source: Option<EventSource<C>>,
    multishot_poll: bool,
    num_vrings: usize,
    token: u64,
)
    ensures
        ({
            let worker = WorkerState::initial(
                command_fd,
                source_fd(exit_source),
                multishot_poll,
                num_vrings,
            );
            &&& !worker.active.contains_key(token)
            &&& worker.pending.len() == 0
            &&& worker.command_fd == command_fd
            &&& worker.exit_fd is Some <==> exit_source is Some
            &&& exit_source matches Some(source) ==> worker.exit_fd == Some(source.fd)
            &&& worker.multishot_poll == multishot_poll
            &&& worker.num_vrings == num_vrings
        }),
{
}

/// A handler is made of what its creation was answered: the ring that was created, the exit event
/// that the backend gave, if it gave one, and the event for commands; it has the configuration,
/// number of vrings and worker number that were asked for, and nothing registered.
pub proof fn a_handler_is_made_of_what_was_answered<R, C, N, E>(
    num_vrings: usize,
    thread_id: usize,
    options: EventOptions,
    ring: R,
    config: IoUringConfig,
    exit_event: Option<(EventSource<C>, N)>,
    command_event: (EventSource<C>, N),
    next: UringSetupStep<R, C, N, E>,
)
    requires
        VringIoUringHandler::<R, C, N>::setup_next(
            num_vrings,
            thread_id,
            UringSetupStep::CreateCommandEvent { options, ring, config, exit_event },
            UringSetupAnswer::CommandEventCreated(Ok(command_event)),
            next,
        ),
    ensures
        ({
            &&& next matches UringSetupStep::Done(Ok(handler))
            &&& handler@.ring == Some(ring) && handler@.config == config
            &&& handler@.num_vrings == num_vrings && handler@.thread_id == thread_id
            &&& handler@.command_consumer == Some(command_event.0)
            &&& handler@.command_notifier == command_event.1
            &&& handler@.registry.registrations.dom().is_empty()
            &&& handler@.registry.commands.len() == 0
            &&& handler@.registry.next_token == 2
            &&& exit_event is None ==> {
                &&& handler@.exit_event_consumer is None
                &&& handler@.exit_event_fd is None
            }
            &&& exit_event is Some ==> {
                &&& handler@.exit_event_consumer == Some(exit_event->Some_0.0)
                &&& handler@.exit_event_fd == Some(exit_event->Some_0.1)
            }
        }),
{
}

/// Before that, the ring comes first and its failure ends the creation; then the backend is asked
/// for its exit event; then the event for commands is asked for, which must not block and must be
/// closed when another program is executed, and its failure ends the creation. What has been given
/// is kept on the way, and once the creation has ended, nothing changes that.
pub proof fn a_handler_is_created_in_order<R, C, N, E>(
    num_vrings: usize,
    thread_id: usize,
    step: UringSetupStep<R, C, N, E>,
    answer: UringSetupAnswer<R, C, N, E>,
    next: UringSetupStep<R, C, N, E>,
)
    requires
        VringIoUringHandler::<R, C, N>::setup_next(num_vrings, thread_id, step, answer, next),
    ensures
        step is CreateRing && answer is RingCreated ==> match answer->RingCreated_0 {
            Ok(ring) => next == (UringSetupStep::<R, C, N, E>::AskExitEvent {
                ring,
                config: step->CreateRing_config,
            }),
            Err(error) => next == UringSetupStep::<R, C, N, E>::Done(
                Err(VringIoUringError::IoUringCreate(error)),
            ),
        },
        step is AskExitEvent && answer is ExitEvent ==> next == (UringSetupStep::<
            R,
            C,
            N,
            E,
        >::CreateCommandEvent {
            options: (EventOptions { nonblocking: true, close_on_exec: true }),
            ring: step->AskExitEvent_ring,
            config: step->AskExitEvent_config,
            exit_event: answer->ExitEvent_0,
        }),
        step is CreateCommandEvent && answer is CommandEventCreated
            && answer->CommandEventCreated_0 is Err ==> next == UringSetupStep::<R, C, N, E>::Done(
            Err(VringIoUringError::CreateEvent(answer->CommandEventCreated_0->Err_0)),
        ),
        step is CreateRing && !(answer is RingCreated) ==> next == step,
        step is AskExitEvent && !(answer is ExitEvent) ==> next == step,
        step is CreateCommandEvent && !(answer is CommandEventCreated) ==> next == step,
        step is Done ==> next == step,
{
}

} // verus!
