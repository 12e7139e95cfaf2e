//! What the io_uring worker does about each completion and each answer.

use vstd::prelude::*;

use crate::error::{IoError, IoErrorKind, IoFailure, VringIoUringError};
use crate::event_set::{events_have_their_epoll_numbers, EventSet};
use crate::iouring::handler_laws::command_token;
use crate::iouring::submission::Submission;
use crate::iouring::types::{
    Completion, IoUringCommand, IoUringCompletion, PollKind, PollRegistration,
    VhostUserBackendEvent,
};
use crate::iouring::worker::{
    arm_request, cancel_request, fd_call, more_announced, negated, queueing, AfterPush, PollTurn,
    WorkerAnswer, WorkerAnswerView, WorkerState, WorkerStep, WANTED_COMPLETIONS,
};
use crate::iouring::worker_laws::{command_in, only_commands_change_listeners, tokens_in_order};
use crate::os::OsError;

verus! {

// What the worker queues.

/// The request to poll as a registration says: its descriptor, for its events as far as `poll`
/// knows them, in its mode, under the user data with kind 1 and the token.
pub open spec fn poll_for(token: u64, registration: PollRegistration) -> Submission {
    Submission::PollAdd {
        fd: registration.fd,
        flags: registration.evset@ & 0x201f,
        multishot: registration.multishot,
        user_data: (0x1000_0000_0000_0000 + token) as u64,
    }
}

/// The end of a worker that has a token that does not fit in sixty bits.
pub open spec fn token_too_large<E>() -> WorkerStep<E> {
    WorkerStep::Done(Err(VringIoUringError::QueueSubmission(IoError::Os(OsError { code: 22 }))))
}

/// The step that arms a poll as a registration says.
pub open spec fn arming<E>(
    token: u64,
    registration: PollRegistration,
    after: AfterPush,
) -> WorkerStep<E> {
    if token <= 0x0fff_ffff_ffff_ffff {
        WorkerStep::Push { submission: poll_for(token, registration), after }
    } else {
        token_too_large()
    }
}

/// A poll is armed as its registration says, and ended by a request with kind 2 that names the
/// request that armed it.
pub proof fn polls_are_armed_and_ended<E>(
    token: u64,
    registration: PollRegistration,
    after: AfterPush,
)
    ensures
        queueing::<E>(arm_request(token, registration), after) == arming::<E>(
            token,
            registration,
            after,
        ),
        queueing::<E>(cancel_request(token), after) == if token <= 0x0fff_ffff_ffff_ffff {
            WorkerStep::<E>::Push {
                submission: Submission::PollRemove {
                    target: (0x1000_0000_0000_0000 + token) as u64,
                    user_data: (0x2000_0000_0000_0000 + token) as u64,
                },
                after,
            }
        } else {
            token_too_large::<E>()
        },
        arm_request(token, registration) is Ok ==> arm_request(token, registration) == Ok::<
            Submission,
            OsError,
        >(poll_for(token, registration)),
{
    events_have_their_epoll_numbers(registration.evset@);
}

/// A poll of the worker's own is for input, and is told apart by its token; one for the backend is
/// for what was asked for. Both are tried in the configured mode.
pub proof fn polls_are_for_what_was_asked(
    worker: WorkerState,
    token: u64,
    fd: i32,
    kind: PollKind,
    evset: EventSet,
    data: u64,
)
    ensures
        worker.internal_poll(token, fd, kind) == (PollRegistration {
            fd,
            evset: EventSet::of_bits(0x1),
            data: token,
            kind,
            multishot: worker.multishot_poll,
        }),
        worker.backend_poll(fd, evset, data) == (PollRegistration {
            fd,
            evset,
            data,
            kind: PollKind::BackendFd,
            multishot: worker.multishot_poll,
        }),
{
}

/// Starting a poll enters it in the table, under its token and in place of nothing else, and arms it
/// as it was entered.
pub proof fn a_poll_is_entered_and_armed<E>(
    worker: WorkerState,
    token: u64,
    registration: PollRegistration,
    after: AfterPush,
)
    ensures
        worker.start_poll::<E>(token, registration, after) == (
            WorkerState { active: worker.active.insert(token, registration), ..worker },
            arming::<E>(token, registration, after),
        ),
{
    polls_are_armed_and_ended::<E>(token, registration, after);
}

/// The worker's first step is to watch for commands: it polls their descriptor for input under
/// token 0. Its second is to poll the exit event for input under token 1, if there is one; then it
/// waits, for one completion at least.
pub proof fn the_worker_watches_its_own_events_first<E>(worker: WorkerState)
    ensures
        ({
            let command = PollRegistration {
                fd: worker.command_fd,
                evset: EventSet::of_bits(0x1),
                data: 0,
                kind: PollKind::Command,
                multishot: worker.multishot_poll,
            };
            &&& worker.start::<E>() == (
                WorkerState { active: worker.active.insert(0, command), ..worker },
                arming::<E>(0, command, AfterPush::AddExitPoll),
            )
            &&& match worker.exit_fd {
                Some(fd) => {
                    let exit = PollRegistration {
                        fd,
                        evset: EventSet::of_bits(0x1),
                        data: 1,
                        kind: PollKind::Exit,
                        multishot: worker.multishot_poll,
                    };
                    worker.pushed::<E>(AfterPush::AddExitPoll) == (
                        WorkerState { active: worker.active.insert(1, exit), ..worker },
                        arming::<E>(1, exit, AfterPush::Wait),
                    )
                },
                None => worker.pushed::<E>(AfterPush::AddExitPoll) == (
                    worker,
                    WorkerStep::<E>::SubmitAndWait,
                ),
            }
            &&& worker.pushed::<E>(AfterPush::Wait) == (worker, WorkerStep::<E>::SubmitAndWait)
            &&& WANTED_COMPLETIONS == 1
        }),
{
    if let Some(fd) = worker.exit_fd {
        a_poll_is_entered_and_armed::<E>(
            worker,
            1,
            worker.internal_poll(1, fd, PollKind::Exit),
            AfterPush::Wait,
        );
    }
    a_poll_is_entered_and_armed::<E>(
        worker,
        0,
        worker.internal_poll(0, worker.command_fd, PollKind::Command),
        AfterPush::AddExitPoll,
    );
}

/// A command to add starts a poll for the descriptor, events and data it names, in the configured
/// mode; a command to remove ends the poll it names and takes it out of the table, and that poll
/// alone, if there is such a poll. After each the next command is taken.
pub proof fn commands_start_and_end_polls<E>(
    worker: WorkerState,
    turn: PollTurn,
    token: u64,
    fd: i32,
    evset: EventSet,
    data: u64,
)
    ensures
        ({
            let registration = PollRegistration {
                fd,
                evset,
                data,
                kind: PollKind::BackendFd,
                multishot: worker.multishot_poll,
            };
            let after = AfterPush::DrainCommands(turn);
            &&& worker.obey::<E>(IoUringCommand::Add { token, fd, evset, data }, turn) == (
                WorkerState { active: worker.active.insert(token, registration), ..worker },
                arming::<E>(token, registration, after),
            )
            &&& worker.active.contains_key(token) ==> worker.obey::<E>(
                IoUringCommand::Remove { token },
                turn,
            ) == (
                WorkerState { active: worker.active.remove(token), ..worker },
                if token <= 0x0fff_ffff_ffff_ffff {
                    WorkerStep::<E>::Push {
                        submission: Submission::PollRemove {
                            target: (0x1000_0000_0000_0000 + token) as u64,
                            user_data: (0x2000_0000_0000_0000 + token) as u64,
                        },
                        after,
                    }
                } else {
                    token_too_large::<E>()
                },
            )
            &&& !worker.active.contains_key(token) ==> worker.obey::<E>(
                IoUringCommand::Remove { token },
                turn,
            ) == (worker, WorkerStep::<E>::PopCommand { turn })
            &&& worker.pushed::<E>(after) == (worker, WorkerStep::<E>::PopCommand { turn })
        }),
{
    a_poll_is_entered_and_armed::<E>(
        worker,
        token,
        worker.backend_poll(fd, evset, data),
        AfterPush::DrainCommands(turn),
    );
    polls_are_armed_and_ended::<E>(
        token,
        worker.backend_poll(fd, evset, data),
        AfterPush::DrainCommands(turn),
    );
}

/// A poll that has been served is armed again as it was before, unless it is still armed or has
/// been ended since; then the worker goes on with the next completion. The table stays as it is.
pub proof fn a_served_poll_is_armed_as_before<E>(worker: WorkerState, turn: PollTurn)
    ensures
        !turn.more && worker.active.contains_key(turn.token) ==> worker.end_turn::<E>(turn) == (
            worker,
            arming::<E>(turn.token, turn.registration, AfterPush::NextCompletion),
        ),
        turn.more || !worker.active.contains_key(turn.token) ==> worker.end_turn::<E>(turn)
            == worker.next_completion::<E>(),
        worker.pushed::<E>(AfterPush::NextCompletion) == worker.next_completion::<E>(),
{
    polls_are_armed_and_ended::<E>(turn.token, turn.registration, AfterPush::NextCompletion);
}

// Every request agrees with the table.

/// The poll that a step is serving, if it is serving one.
pub open spec fn serving<E>(step: WorkerStep<E>) -> Option<PollTurn> {
    match step {
        WorkerStep::Push { after: AfterPush::DrainCommands(turn), .. } => Some(turn),
        WorkerStep::ConsumeCommandEvent { turn } => Some(turn),
        WorkerStep::PopCommand { turn } => Some(turn),
        WorkerStep::ReadKick { turn, .. } => Some(turn),
        WorkerStep::CallBackend { served, .. } => served,
        _ => None,
    }
}

/// Whether the worker is at the commands, so that the table may change before the poll that it is
/// serving is armed again.
pub open spec fn at_commands<E>(step: WorkerStep<E>) -> bool {
    step is ConsumeCommandEvent || step is PopCommand || (step matches WorkerStep::Push {
        after: AfterPush::DrainCommands(_),
        ..
    })
}

/// Whether a step agrees with the table of polls: a request to poll asks for just what the table
/// holds for its token, and the poll that is being served is the one in the table, if it is still
/// there. While commands are taken, it is one of the worker's own.
pub open spec fn agrees_with_table<E>(worker: WorkerState, step: WorkerStep<E>) -> bool {
    &&& step matches WorkerStep::Push { submission, .. } ==> (
    submission matches Submission::PollAdd { user_data, .. } ==> {
        let token = (user_data - 0x1000_0000_0000_0000) as u64;
        &&& 0x1000_0000_0000_0000 <= user_data < 0x2000_0000_0000_0000
        &&& worker.active.contains_key(token)
        &&& submission == poll_for(token, worker.active[token])
    })
    &&& serving(step) matches Some(turn) ==> {
        &&& worker.active.contains_key(turn.token) ==> worker.active[turn.token]
            == turn.registration
        &&& at_commands(step) ==> turn.token < 2
    }
}

/// A step that arms a poll as the table says agrees with the table.
proof fn arming_agrees<E>(worker: WorkerState, token: u64, after: AfterPush)
    requires
        worker.active.contains_key(token),
        after matches AfterPush::DrainCommands(turn) ==> turn.token < 2 && (
        worker.active.contains_key(turn.token) ==> worker.active[turn.token] == turn.registration),
    ensures
        agrees_with_table(worker, arming::<E>(token, worker.active[token], after)),
{
}

/// The first step for a completion agrees with the table.
proof fn completion_agrees<E>(worker: WorkerState, completion: Completion)
    requires
        tokens_in_order(worker.active),
    ensures
        worker.completion::<E>(completion) matches Some((after, step)) ==> agrees_with_table(
            after,
            step,
        ),
{
    if let Some((after, step)) = worker.completion::<E>(completion) {
        let token = crate::user_data::word_payload(completion.user_data);
        if step is Push {
            let registration = PollRegistration { multishot: false, ..worker.active[token] };
            a_poll_is_entered_and_armed::<E>(
                worker,
                token,
                registration,
                AfterPush::NextCompletion,
            );
            arming_agrees::<E>(after, token, AfterPush::NextCompletion);
        }
    }
}

/// Going through completions leads to a step that agrees with the table.
proof fn next_completion_agrees<E>(worker: WorkerState)
    requires
        tokens_in_order(worker.active),
    ensures
        agrees_with_table(worker.next_completion::<E>().0, worker.next_completion::<E>().1),
    decreases worker.pending.len(),
{
    if worker.pending.len() > 0 {
        let rest = WorkerState { pending: worker.pending.drop_first(), ..worker };
        completion_agrees::<E>(rest, worker.pending[0]);
        if rest.completion::<E>(worker.pending[0]) is None {
            next_completion_agrees::<E>(rest);
        }
    }
}

/// Ending the service of a poll leads to a step that agrees with the table.
proof fn end_turn_agrees<E>(worker: WorkerState, turn: PollTurn)
    requires
        tokens_in_order(worker.active),
        worker.active.contains_key(turn.token) ==> worker.active[turn.token] == turn.registration,
    ensures
        agrees_with_table(worker.end_turn::<E>(turn).0, worker.end_turn::<E>(turn).1),
{
    a_served_poll_is_armed_as_before::<E>(worker, turn);
    next_completion_agrees::<E>(worker);
    if worker.active.contains_key(turn.token) {
        arming_agrees::<E>(worker, turn.token, AfterPush::NextCompletion);
    }
}

/// A worker that starts agrees with its table.
pub proof fn start_agrees_with_table<E>(worker: WorkerState)
    ensures
        agrees_with_table(worker.start::<E>().0, worker.start::<E>().1),
{
    the_worker_watches_its_own_events_first::<E>(worker);
}

/// Every poll that the worker asks for, at any time, is asked for just as the table holds it: its
/// descriptor, its events and its mode. So a poll that is armed again after an event asks for what
/// it was entered with, and no event that was registered for is lost on the way.
pub proof fn polls_are_asked_for_as_registered<E>(
    worker: WorkerState,
    step: WorkerStep<E>,
    answer: WorkerAnswerView<E>,
)
    requires
        agrees_with_table(worker, step),
        tokens_in_order(worker.active),
        command_in(step, answer) matches Some(command) ==> command_token(command) >= 2,
    ensures
        agrees_with_table(worker.next(step, answer).0, worker.next(step, answer).1),
        tokens_in_order(worker.next(step, answer).0.active),
{
    only_commands_change_listeners::<E>(worker, step, answer);
    next_completion_agrees::<E>(worker);
    match (step, answer) {
        (WorkerStep::Push { after, .. }, WorkerAnswerView::Pushed(Ok(()))) => {
            the_worker_watches_its_own_events_first::<E>(worker);
        },
        (WorkerStep::Collect, WorkerAnswerView::Collected(completions)) => {
            next_completion_agrees::<E>(WorkerState { pending: completions, ..worker });
        },
        (WorkerStep::PopCommand { turn }, WorkerAnswerView::Popped(None)) => {
            end_turn_agrees::<E>(worker, turn);
        },
        (WorkerStep::PopCommand { turn }, WorkerAnswerView::Popped(Some(command))) => {
            match command {
                IoUringCommand::Add { token, fd, evset, data } => {
                    commands_start_and_end_polls::<E>(worker, turn, token, fd, evset, data);
                    arming_agrees::<E>(
                        worker.next(step, answer).0,
                        token,
                        AfterPush::DrainCommands(turn),
                    );
                },
                IoUringCommand::Remove { .. } => {},
            }
        },
        (WorkerStep::ReadKick { turn, .. }, WorkerAnswerView::Kicked(_)) => {
            end_turn_agrees::<E>(worker, turn);
        },
        (WorkerStep::CallBackend { served, .. }, WorkerAnswerView::Handled(_)) => {
            if let Some(turn) = served {
                end_turn_agrees::<E>(worker, turn);
            }
        },
        _ => {},
    }
}

// What the worker does about a completion.

/// The first four bits of the user data decide whose completion it is. The backend's own, with none
/// of them set, go to the backend with everything they hold; those of kind 1 are of the poll with
/// the token that the other bits hold; all others are passed over.
pub proof fn completions_go_to_whom_they_belong<E>(worker: WorkerState, completion: Completion)
    ensures
        completion.user_data < 0x1000_0000_0000_0000 ==> worker.completion::<E>(completion) == Some(
            (
                worker,
                WorkerStep::<E>::CallBackend {
                    event: VhostUserBackendEvent::IoUringCompletion(
                        IoUringCompletion {
                            user_data: completion.user_data,
                            result: completion.result,
                            flags: completion.flags,
                        },
                    ),
                    served: None,
                },
            ),
        ),
        0x1000_0000_0000_0000 <= completion.user_data < 0x2000_0000_0000_0000
            ==> worker.completion::<E>(completion) == worker.poll_completion::<E>(
            (completion.user_data - 0x1000_0000_0000_0000) as u64,
            completion.result,
            completion.flags,
        ),
        completion.user_data >= 0x2000_0000_0000_0000 ==> worker.completion::<E>(completion) is None,
{
}

/// A completion of a poll that is not in the table is passed over. A poll that the kernel cannot do
/// repeatedly is armed again to be done once, and is kept that way; any other failure ends the
/// worker, with the number of the failure.
pub proof fn failed_polls_are_retried_or_end_the_worker<E>(
    worker: WorkerState,
    token: u64,
    result: i32,
    flags: u32,
)
    ensures
        ({
            let next = worker.poll_completion::<E>(token, result, flags);
            let known = worker.active.contains_key(token);
            let retried = result == -22 && worker.active[token].multishot;
            let single = PollRegistration { multishot: false, ..worker.active[token] };
            &&& !known ==> next is None
            &&& known && retried ==> next == Some(
                (
                    WorkerState { active: worker.active.insert(token, single), ..worker },
                    arming::<E>(token, single, AfterPush::NextCompletion),
                ),
            )
            &&& known && !retried && i32::MIN < result < 0 ==> next == Some(
                (
                    worker,
                    WorkerStep::<E>::Done(
                        Err(
                            VringIoUringError::SubmitAndWait(
                                IoError::Os(OsError { code: (-result) as i32 }),
                            ),
                        ),
                    ),
                ),
            )
            &&& known && result == i32::MIN ==> next == Some(
                (
                    worker,
                    WorkerStep::<E>::Done(
                        Err(
                            VringIoUringError::SubmitAndWait(
                                IoError::Os(OsError { code: i32::MIN }),
                            ),
                        ),
                    ),
                ),
            )
        }),
{
    if worker.active.contains_key(token) {
        a_poll_is_entered_and_armed::<E>(
            worker,
            token,
            PollRegistration { multishot: false, ..worker.active[token] },
            AfterPush::NextCompletion,
        );
    }
}

/// A completion of a poll that reports events leads to what the poll is for: to the commands, to
/// the exit event, or to the queue or listener that it watches, with just the events that were
/// reported as far as an event set knows them. A queue is one whose number is that of a vring here,
/// and its kick is read first; everything else goes to the backend at once, under its number. The
/// poll is taken to be still armed exactly if it is a repeated one and bit 1 of the flags is set.
/// The table stays as it is.
pub proof fn reported_events_go_where_the_poll_leads<E>(
    worker: WorkerState,
    token: u64,
    result: i32,
    flags: u32,
)
    requires
        worker.active.contains_key(token),
        result >= 0,
    ensures
        ({
            let registration = worker.active[token];
            let turn = PollTurn {
                token,
                registration,
                more: registration.multishot && flags & 2 == 2,
            };
            let evset = EventSet::of_bits(result as u32 & 0x201f);
            let data = registration.data;
            let step = match registration.kind {
                PollKind::Command => WorkerStep::<E>::ConsumeCommandEvent { turn },
                PollKind::Exit => if worker.exit_fd is Some {
                    WorkerStep::<E>::ConsumeExitEvent
                } else {
                    WorkerStep::<E>::Done(Ok(()))
                },
                PollKind::BackendFd => if data < worker.num_vrings {
                    WorkerStep::<E>::ReadKick { data, evset, turn }
                } else {
                    WorkerStep::<E>::CallBackend {
                        event: VhostUserBackendEvent::Fd {
                            device_event: (data % 65536) as u16,
                            evset,
                        },
                        served: Some(turn),
                    }
                },
            };
            worker.poll_completion::<E>(token, result, flags) == Some((worker, step))
        }),
{
    events_have_their_epoll_numbers(result as u32);
    flags_announce_more(flags);
}

/// More completions of a poll are announced by bit 1 of the flags, whatever the others are.
pub proof fn flags_announce_more(flags: u32)
    ensures
        more_announced(flags) <==> flags & 2 == 2,
        more_announced(flags) <==> (flags / 2) % 2 == 1,
{
    assert((flags & 2 != 0) == (flags & 2 == 2)) by (bit_vector);
    assert((flags & 2 != 0) == ((flags / 2) % 2 == 1)) by (bit_vector);
}

/// A queue or listener by itself is treated the same way: a number of a vring here has its kick
/// read, any other goes to the backend, and so does a queue whose kick has been read.
pub proof fn ready_descriptors_are_kicked_or_handed_on<E>(
    worker: WorkerState,
    data: u64,
    evset: EventSet,
    turn: PollTurn,
)
    ensures
        ({
            let call = WorkerStep::<E>::CallBackend {
                event: VhostUserBackendEvent::Fd { device_event: (data % 65536) as u16, evset },
                served: Some(turn),
            };
            &&& fd_call::<E>(data, evset, turn) == call
            &&& worker.fd_event::<E>(data, evset, turn) == if data < worker.num_vrings {
                WorkerStep::<E>::ReadKick { data, evset, turn }
            } else {
                call
            }
        }),
{
}

/// A number and its negation add up to nothing, but for the one that has no negation.
pub proof fn negations_cancel(number: i32)
    ensures
        number > i32::MIN ==> negated(number) + number == 0,
        number == i32::MIN ==> negated(number) == number,
{
}

// What the worker does about an answer.

/// A request that has been queued leads on to what was to come after it; one that could not be
/// queued ends the worker with the reason.
pub proof fn queued_requests_lead_on<E>(
    worker: WorkerState,
    submission: Submission,
    after: AfterPush,
    error: IoError<E>,
)
    ensures
        ({
            let push = WorkerStep::<E>::Push { submission, after };
            &&& worker.next(push, WorkerAnswerView::Pushed(Ok(()))) == worker.pushed::<E>(after)
            &&& worker.next(push, WorkerAnswerView::Pushed(Err(error))) == (
                worker,
                WorkerStep::<E>::Done(Err(VringIoUringError::QueueSubmission(error))),
            )
        }),
{
}

/// A wait leads to the completions, which are then all before the worker and no others; an
/// interrupted wait is made again, and any other failure ends the worker.
pub proof fn waits_lead_to_completions<E>(
    worker: WorkerState,
    failure: IoFailure<E>,
    completions: Seq<Completion>,
)
    ensures
        worker.next(WorkerStep::<E>::SubmitAndWait, WorkerAnswerView::Waited(Ok(()))) == (
            worker,
            WorkerStep::<E>::Collect,
        ),
        worker.next(WorkerStep::<E>::SubmitAndWait, WorkerAnswerView::Waited(Err(failure))) == (
            worker,
            if failure.kind == IoErrorKind::Interrupted {
                WorkerStep::<E>::SubmitAndWait
            } else {
                WorkerStep::<E>::Done(
                    Err(VringIoUringError::SubmitAndWait(IoError::Reported(failure.error))),
                )
            },
        ),
        worker.next(WorkerStep::<E>::Collect, WorkerAnswerView::Collected(completions)) == (
        WorkerState { pending: completions, ..worker }).next_completion::<E>(),
{
}

/// The event that announces commands is read until a read would have to wait, and only then are
/// commands taken, until there are none; a read that fails otherwise ends the worker. When there are
/// no more commands, the poll for them has been served.
pub proof fn commands_are_taken_until_there_are_none<E>(
    worker: WorkerState,
    turn: PollTurn,
    failure: IoFailure<E>,
    command: IoUringCommand,
)
    ensures
        ({
            let read = WorkerStep::<E>::ConsumeCommandEvent { turn };
            let take = WorkerStep::<E>::PopCommand { turn };
            &&& worker.next(read, WorkerAnswerView::Consumed(Ok(()))) == (worker, read)
            &&& worker.next(read, WorkerAnswerView::Consumed(Err(failure))) == (
                worker,
                if failure.kind == IoErrorKind::WouldBlock {
                    take
                } else {
                    WorkerStep::<E>::Done(Err(VringIoUringError::ConsumeEvent(failure.error)))
                },
            )
            &&& worker.next(take, WorkerAnswerView::Popped(Some(command))) == worker.obey::<E>(
                command,
                turn,
            )
            &&& worker.next(take, WorkerAnswerView::Popped(None)) == worker.end_turn::<E>(turn)
        }),
{
}

/// The exit event ends the worker: without an error once it has been read, and with the reason if
/// it cannot be read, whatever the reason.
pub proof fn the_exit_event_ends_the_worker<E>(worker: WorkerState, failure: IoFailure<E>)
    ensures
        worker.next(WorkerStep::<E>::ConsumeExitEvent, WorkerAnswerView::Consumed(Ok(()))) == (
            worker,
            WorkerStep::<E>::Done(Ok(())),
        ),
        worker.next(WorkerStep::<E>::ConsumeExitEvent, WorkerAnswerView::Consumed(Err(failure))) == (
            worker,
            WorkerStep::<E>::Done(Err(VringIoUringError::ConsumeEvent(failure.error))),
        ),
{
}

/// A queue that is found enabled goes to the backend under its number, one that is found disabled
/// does not, and its poll has been served; so has that of an event that the backend has handled. A
/// completion of the backend's own is followed by the next. Failures end the worker.
pub proof fn events_are_served_to_the_end<E>(
    worker: WorkerState,
    data: u64,
    evset: EventSet,
    turn: PollTurn,
    event: VhostUserBackendEvent,
    error: E,
)
    ensures
        ({
            let kick = WorkerStep::<E>::ReadKick { data, evset, turn };
            let serve = WorkerStep::<E>::CallBackend { event, served: Some(turn) };
            let hand_on = WorkerStep::<E>::CallBackend { event, served: None };
            let failed = WorkerStep::<E>::Done(
                Err(VringIoUringError::HandleEventBackendHandling(error)),
            );
            &&& worker.next(kick, WorkerAnswerView::Kicked(Ok(true))) == (
                worker,
                WorkerStep::<E>::CallBackend {
                    event: VhostUserBackendEvent::Fd {
                        device_event: (data % 65536) as u16,
                        evset,
                    },
                    served: Some(turn),
                },
            )
            &&& worker.next(kick, WorkerAnswerView::Kicked(Ok(false))) == worker.end_turn::<E>(turn)
            &&& worker.next(kick, WorkerAnswerView::Kicked(Err(error))) == (
                worker,
                WorkerStep::<E>::Done(Err(VringIoUringError::HandleEventReadKick(error))),
            )
            &&& worker.next(serve, WorkerAnswerView::Handled(Ok(()))) == worker.end_turn::<E>(turn)
            &&& worker.next(hand_on, WorkerAnswerView::Handled(Ok(()))) == worker.next_completion::<
                E,
            >()
            &&& worker.next(serve, WorkerAnswerView::Handled(Err(error))) == (worker, failed)
            &&& worker.next(hand_on, WorkerAnswerView::Handled(Err(error))) == (worker, failed)
        }),
{
}

/// The worker goes on with the completion that is next: if there is something to do about it, that
/// is done; if not, it is as if the completion had not been there. When there is none, it waits.
pub proof fn the_next_completion_is_next<E>(worker: WorkerState)
    ensures
        worker.pending.len() == 0 ==> worker.next_completion::<E>() == (
            worker,
            WorkerStep::<E>::SubmitAndWait,
        ),
        worker.pending.len() > 0 ==> {
            let rest = WorkerState { pending: worker.pending.drop_first(), ..worker };
            &&& rest.completion::<E>(worker.pending[0]) matches Some(next)
                ==> worker.next_completion::<E>() == next
            &&& rest.completion::<E>(worker.pending[0]) is None ==> worker.next_completion::<E>()
                == rest.next_completion::<E>()
        },
{
}

/// Whether an answer is one to this step.
pub open spec fn answers<E>(step: WorkerStep<E>, answer: WorkerAnswerView<E>) -> bool {
    ||| step is Push && answer is Pushed
    ||| step is SubmitAndWait && answer is Waited
    ||| step is Collect && answer is Collected
    ||| step is ConsumeCommandEvent && answer is Consumed
    ||| step is PopCommand && answer is Popped
    ||| step is ConsumeExitEvent && answer is Consumed
    ||| step is ReadKick && answer is Kicked
    ||| step is CallBackend && answer is Handled
}

/// An answer to some other request changes nothing, and nothing changes the end.
pub proof fn other_answers_change_nothing<E>(
    worker: WorkerState,
    step: WorkerStep<E>,
    answer: WorkerAnswerView<E>,
)
    ensures
        !answers(step, answer) ==> worker.next(step, answer) == (worker, step),
        step is Done ==> worker.next(step, answer) == (worker, step),
{
}

/// An answer means what it holds.
pub proof fn answers_mean_what_they_hold<E>(
    pushed: Result<(), IoError<E>>,
    result: Result<(), IoFailure<E>>,
    completions: Vec<Completion>,
    command: Option<IoUringCommand>,
    kicked: Result<bool, E>,
    handled: Result<(), E>,
)
    ensures
        WorkerAnswer::<E>::Pushed(pushed)@ == WorkerAnswerView::<E>::Pushed(pushed),
        WorkerAnswer::<E>::Waited(result)@ == WorkerAnswerView::<E>::Waited(result),
        WorkerAnswer::<E>::Collected(completions)@ == WorkerAnswerView::<E>::Collected(completions@),
        WorkerAnswer::<E>::Consumed(result)@ == WorkerAnswerView::<E>::Consumed(result),
        WorkerAnswer::<E>::Popped(command)@ == WorkerAnswerView::<E>::Popped(command),
        WorkerAnswer::<E>::Kicked(kicked)@ == WorkerAnswerView::<E>::Kicked(kicked),
        WorkerAnswer::<E>::Handled(handled)@ == WorkerAnswerView::<E>::Handled(handled),
{
}

} // verus!
