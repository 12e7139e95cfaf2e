//! What holds of the io_uring worker over all its steps.

use vstd::prelude::*;

use crate::error::{IoError, IoErrorKind, VringIoUringError};
use crate::event_loop::device_event_of;
use crate::event_set::{events_of, poll_flags_of, EventSet};
use crate::iouring::handler::Registry;
use crate::iouring::handler_laws::{
    apply, command_token, mirrors, pop_keeps_consistent, register_keeps_consistent,
    unregister_keeps_consistent, Listener,
};
use crate::iouring::submission::Submission;
use crate::iouring::types::{
    Completion, IoUringCommand, IoUringCompletion, PollKind, PollRegistration,
    VhostUserBackendEvent,
};
use crate::iouring::worker::{
    arm_request, cancel_request, more_announced, queueing, AfterPush, PollTurn, WorkerAnswerView,
    WorkerState, WorkerStep, COMMAND_POLL_TOKEN, EXIT_POLL_TOKEN, FIRST_BACKEND_POLL_TOKEN,
};
use crate::os::{OsError, EINVAL};
use crate::user_data::{
    encodable, encode_decode_round_trip, encoded, kind_weight, user_data_word, word_kind,
    word_payload, USER_DATA_KIND_BACKEND, USER_DATA_KIND_CANCEL, USER_DATA_KIND_POLL,
    USER_DATA_PAYLOAD_MASK,
};

verus! {

// Completions of the backend's own submissions.

/// What a backend submits comes back to it: the completion of an entry that it submitted with
/// some user data is handed to it with that very user data, and with the result and flags of the
/// completion.
pub proof fn backend_completions_come_back<E>(
    worker: WorkerState,
    user_data: u64,
    word: u64,
    result: i32,
    flags: u32,
)
    requires
        encoded(USER_DATA_KIND_BACKEND, user_data) == Ok::<u64, OsError>(word),
    ensures
        worker.completion::<E>(Completion { user_data: word, result, flags }) == Some(
            (
                worker,
                WorkerStep::<E>::CallBackend {
                    event: VhostUserBackendEvent::IoUringCompletion(
                        IoUringCompletion { user_data, result, flags },
                    ),
                    served: None,
                },
            ),
        ),
{
    encode_decode_round_trip(USER_DATA_KIND_BACKEND, user_data);
}

/// A completion is passed over exactly if it is not about a submission of the backend, and not
/// about a poll that the worker keeps going.
pub proof fn only_stale_completions_are_passed_over<E>(worker: WorkerState, completion: Completion)
    ensures
        worker.completion::<E>(completion) is None <==> {
            &&& word_kind(completion.user_data) != USER_DATA_KIND_BACKEND
            &&& word_kind(completion.user_data) == USER_DATA_KIND_POLL
                ==> !worker.active.contains_key(word_payload(completion.user_data))
        },
{
}

// What a completion leaves alone.

/// The watched descriptors of the backend, by the tokens of their polls.
pub open spec fn listeners_of(active: Map<u64, PollRegistration>) -> Map<u64, Listener> {
    Map::new(
        |token: u64| active.contains_key(token) && active[token].kind == PollKind::BackendFd,
        |token: u64|
            Listener { fd: active[token].fd, evset: active[token].evset, data: active[token].data },
    )
}

/// Whether two tables of polls differ in nothing but the mode of the polls.
pub open spec fn same_polls(
    polls1: Map<u64, PollRegistration>,
    polls2: Map<u64, PollRegistration>,
) -> bool {
    &&& polls1.dom() == polls2.dom()
    &&& forall|token: u64| #[trigger]
        polls1.contains_key(token) ==> polls2[token] == (PollRegistration {
            multishot: polls2[token].multishot,
            ..polls1[token]
        })
}

/// The same polls watch the same descriptors for the backend.
proof fn same_polls_same_listeners(
    polls1: Map<u64, PollRegistration>,
    polls2: Map<u64, PollRegistration>,
)
    requires
        same_polls(polls1, polls2),
    ensures
        listeners_of(polls1) == listeners_of(polls2),
{
    assert forall|token: u64| polls1.contains_key(token) == polls2.contains_key(token) by {
        assert(polls1.dom().contains(token) == polls2.dom().contains(token));
    }
    assert(listeners_of(polls1) =~= listeners_of(polls2));
}

/// A completion starts and ends no poll.
proof fn completion_keeps_polls<E>(worker: WorkerState, completion: Completion)
    ensures
        worker.completion::<E>(completion) matches Some((after, _)) ==> {
            &&& same_polls(worker.active, after.active)
            &&& after == (WorkerState { active: after.active, ..worker })
        },
{
    if let Some((after, _)) = worker.completion::<E>(completion) {
        assert(after.active.dom() =~= worker.active.dom());
    }
}

/// Going through completions starts and ends no poll.
proof fn completions_keep_polls<E>(worker: WorkerState)
    ensures
        same_polls(worker.active, worker.next_completion::<E>().0.active),
        worker.next_completion::<E>().0 == (WorkerState {
            active: worker.next_completion::<E>().0.active,
            pending: worker.next_completion::<E>().0.pending,
            ..worker
        }),
    decreases worker.pending.len(),
{
    if worker.pending.len() > 0 {
        let rest = WorkerState { pending: worker.pending.drop_first(), ..worker };
        completion_keeps_polls::<E>(rest, worker.pending[0]);
        if rest.completion::<E>(worker.pending[0]) is None {
            completions_keep_polls::<E>(rest);
        }
    }
}

// Going through the completions of one collect.

/// A look of the worker at a completion.
pub struct Look<E> {
    /// The completion.
    pub completion: Completion,
    /// The worker when it looked.
    pub worker: WorkerState,
    /// The step that the worker took because of the completion, or `None` if it passed it over.
    pub first: Option<WorkerStep<E>>,
}

impl<E> Look<E> {
    /// Whether the worker did about the completion what it should: it took the first step for it
    /// if there is one, and passed it over if there is none.
    pub open spec fn proper(self) -> bool {
        self.first == match self.worker.completion::<E>(self.completion) {
            Some((_, step)) => Some(step),
            None => None,
        }
    }
}

/// The completions that a worker has before it when it is answered.
pub open spec fn before_it<E>(
    worker: WorkerState,
    step: WorkerStep<E>,
    answer: WorkerAnswerView<E>,
) -> Seq<Completion> {
    match (step, answer) {
        (WorkerStep::Collect, WorkerAnswerView::Collected(completions)) => completions,
        _ => worker.pending,
    }
}

/// The looks that a worker takes when it is answered: one at each completion that it had before it
/// and has no more. If it still does not wait for more, its new step is because of the last.
pub open spec fn looks<E>(
    worker: WorkerState,
    step: WorkerStep<E>,
    answer: WorkerAnswerView<E>,
) -> Seq<Look<E>> {
    let completions = before_it(worker, step, answer);
    let (worker_after, step_after) = worker.next(step, answer);
    let number = completions.len() - worker_after.pending.len();
    Seq::new(
        number as nat,
        |i: int|
            Look {
                completion: completions[i],
                worker: WorkerState { pending: completions.skip(i + 1), ..worker },
                first: if i == number - 1 && !(step_after is SubmitAndWait) {
                    Some(step_after)
                } else {
                    None
                },
            },
    )
}

/// A worker on its way through the completions of one collect, and the looks it has taken so far.
pub struct CollectRun<E> {
    pub worker: WorkerState,
    pub step: WorkerStep<E>,
    pub looks: Seq<Look<E>>,
}

impl<E> CollectRun<E> {
    /// A worker that has just been given the completions of a collect.
    pub open spec fn start(worker: WorkerState, completions: Seq<Completion>) -> CollectRun<E> {
        let answer = WorkerAnswerView::Collected(completions);
        let (worker_after, step_after) = worker.next(WorkerStep::<E>::Collect, answer);
        CollectRun {
            worker: worker_after,
            step: step_after,
            looks: looks(worker, WorkerStep::<E>::Collect, answer),
        }
    }

    /// The worker after an answer. With the next wait its way through these completions is over.
    pub open spec fn after(self, answer: WorkerAnswerView<E>) -> CollectRun<E> {
        if self.step is SubmitAndWait {
            self
        } else {
            let (worker, step) = self.worker.next(self.step, answer);
            CollectRun { worker, step, looks: self.looks + looks(self.worker, self.step, answer) }
        }
    }

    /// The worker after a sequence of answers.
    pub open spec fn after_all(self, answers: Seq<WorkerAnswerView<E>>) -> CollectRun<E>
        decreases answers.len(),
    {
        if answers.len() == 0 {
            self
        } else {
            self.after_all(answers.drop_last()).after(answers.last())
        }
    }

    /// What holds on the way through some completions: those looked at are the first ones, each
    /// looked at once and in their order, and each look was proper; the others are still to come.
    pub open spec fn in_order(self, completions: Seq<Completion>) -> bool {
        &&& self.looks.len() <= completions.len()
        &&& forall|i: int|
            0 <= i < self.looks.len() ==> (#[trigger] self.looks[i]).completion == completions[i]
                && self.looks[i].proper()
        &&& self.worker.pending == completions.skip(self.looks.len() as int)
        &&& self.step is SubmitAndWait ==> self.looks.len() == completions.len()
    }

    /// Whether the worker is about to end, or has ended.
    pub open spec fn ending(self) -> bool {
        self.step is ConsumeExitEvent || self.step is Done
    }
}

/// Whether a step can come up between a collect and the next wait.
spec fn within_collect<E>(step: WorkerStep<E>) -> bool {
    match step {
        WorkerStep::Collect => false,
        WorkerStep::Push { after, .. } => after is NextCompletion || after is DrainCommands,
        _ => true,
    }
}

/// The first step for a completion is neither a wait nor a collect.
proof fn completion_does_not_wait<E>(worker: WorkerState, completion: Completion)
    ensures
        worker.completion::<E>(completion) matches Some((after, step)) ==> {
            &&& !(step is SubmitAndWait)
            &&& within_collect(step)
            &&& after.pending == worker.pending
        },
{
}

/// Going through completions looks at the first ones, and stops at the first about which something
/// is to be done.
proof fn completions_are_looked_at<E>(worker: WorkerState)
    ensures
        ({
            let (after, step) = worker.next_completion::<E>();
            let number = worker.pending.len() - after.pending.len();
            &&& 0 <= number
            &&& after.pending == worker.pending.skip(number)
            &&& within_collect(step)
            &&& step is SubmitAndWait ==> number == worker.pending.len()
            &&& !(step is SubmitAndWait) ==> number > 0
            &&& forall|i: int|
                0 <= i < number ==> ({
                    let at = WorkerState { pending: worker.pending.skip(i + 1), ..worker };
                    at.completion::<E>(#[trigger] worker.pending[i]) == if i == number - 1 && !(
                    step is SubmitAndWait) {
                        Some((after, step))
                    } else {
                        None
                    }
                })
        }),
    decreases worker.pending.len(),
{
    if worker.pending.len() > 0 {
        let rest = WorkerState { pending: worker.pending.drop_first(), ..worker };
        let (after, step) = worker.next_completion::<E>();
        assert(worker.pending.skip(1) =~= rest.pending);
        completion_does_not_wait::<E>(rest, worker.pending[0]);
        if rest.completion::<E>(worker.pending[0]) is None {
            completions_are_looked_at::<E>(rest);
            let number = worker.pending.len() - after.pending.len();
            assert(worker.pending.skip(number) =~= rest.pending.skip(number - 1));
            assert forall|i: int| 0 <= i < number implies ({
                let at = WorkerState { pending: worker.pending.skip(i + 1), ..worker };
                at.completion::<E>(#[trigger] worker.pending[i]) == if i == number - 1 && !(
                step is SubmitAndWait) {
                    Some((after, step))
                } else {
                    None
                }
            }) by {
                if i > 0 {
                    assert(worker.pending.skip(i + 1) =~= rest.pending.skip(i));
                    assert(rest.pending[i - 1] == worker.pending[i]);
                }
            }
        }
    } else {
        assert(worker.pending.skip(0) =~= worker.pending);
    }
}

/// The looks of one step are proper, and at the first of the completions.
proof fn looks_are_proper<E>(
    worker: WorkerState,
    step: WorkerStep<E>,
    answer: WorkerAnswerView<E>,
)
    requires
        within_collect(step) || (step is Collect && answer is Collected),
        !(step is SubmitAndWait),
    ensures
        ({
            let completions = before_it(worker, step, answer);
            let (worker_after, step_after) = worker.next(step, answer);
            let taken = looks(worker, step, answer);
            &&& taken.len() <= completions.len()
            &&& forall|i: int|
                0 <= i < taken.len() ==> (#[trigger] taken[i]).completion == completions[i]
                    && taken[i].proper()
            &&& worker_after.pending == completions.skip(taken.len() as int)
            &&& step_after is SubmitAndWait ==> taken.len() == completions.len()
            &&& within_collect(step_after)
        }),
{
    let completions = before_it(worker, step, answer);
    let filled = WorkerState { pending: completions, ..worker };
    let (worker_after, step_after) = worker.next(step, answer);
    completions_are_looked_at::<E>(filled);
    if (worker_after, step_after) != filled.next_completion::<E>() {
        assert(worker_after.pending == completions);
        assert(completions.skip(0) =~= completions);
    } else {
        let taken = looks(worker, step, answer);
        assert forall|i: int| 0 <= i < taken.len() implies (#[trigger] taken[i]).completion
            == completions[i] && taken[i].proper() by {
            assert(taken[i].completion == filled.pending[i]);
        }
    }
}

/// The completions of one collect are gone through one by one, each once and in their order,
/// whatever the worker is answered in between: about each it does what there is to do at the time,
/// or passes it over if that is nothing. When it waits again it has gone through all of them.
pub proof fn completions_are_dispatched_in_order<E>(
    worker: WorkerState,
    completions: Seq<Completion>,
    answers: Seq<WorkerAnswerView<E>>,
)
    ensures
        CollectRun::<E>::start(worker, completions).after_all(answers).in_order(completions),
{
    collect_runs_in_order(worker, completions, answers);
}

/// What holds all the way through the completions of one collect.
proof fn collect_runs_in_order<E>(
    worker: WorkerState,
    completions: Seq<Completion>,
    answers: Seq<WorkerAnswerView<E>>,
)
    ensures
        ({
            let run = CollectRun::<E>::start(worker, completions).after_all(answers);
            run.in_order(completions) && within_collect(run.step)
        }),
    decreases answers.len(),
{
    if answers.len() == 0 {
        looks_are_proper(worker, WorkerStep::<E>::Collect, WorkerAnswerView::Collected(completions));
    } else {
        collect_runs_in_order(worker, completions, answers.drop_last());
        let before = CollectRun::<E>::start(worker, completions).after_all(answers.drop_last());
        let answer = answers.last();
        if !(before.step is SubmitAndWait) {
            looks_are_proper(before.worker, before.step, answer);
            let run = before.after(answer);
            let taken = looks(before.worker, before.step, answer);
            let earlier = before.looks.len() as int;
            assert(completions.skip(earlier).skip(taken.len() as int) =~= completions.skip(
                run.looks.len() as int,
            ));
            assert forall|i: int| 0 <= i < run.looks.len() implies (#[trigger] run.looks[i]).completion
                == completions[i] && run.looks[i].proper() by {
                if i < earlier {
                    assert(run.looks[i] == before.looks[i]);
                } else {
                    assert(run.looks[i] == taken[i - earlier]);
                    assert(completions.skip(earlier)[i - earlier] == completions[i]);
                }
            }
        }
    }
}

/// The error that an answer ends the worker with, if it reports a failure that does. An interrupted
/// wait is no such failure, and neither is a read of the event that announces commands that would
/// have to wait.
pub open spec fn fatal<E>(
    step: WorkerStep<E>,
    answer: WorkerAnswerView<E>,
) -> Option<VringIoUringError<E>> {
    match (step, answer) {
        (WorkerStep::Push { .. }, WorkerAnswerView::Pushed(Err(error))) => Some(
            VringIoUringError::QueueSubmission(error),
        ),
        (WorkerStep::SubmitAndWait, WorkerAnswerView::Waited(Err(failure))) => {
            if failure.kind == IoErrorKind::Interrupted {
                None
            } else {
                Some(VringIoUringError::SubmitAndWait(IoError::Reported(failure.error)))
            }
        },
        (WorkerStep::ConsumeCommandEvent { .. }, WorkerAnswerView::Consumed(Err(failure))) => {
            if failure.kind == IoErrorKind::WouldBlock {
                None
            } else {
                Some(VringIoUringError::ConsumeEvent(failure.error))
            }
        },
        (WorkerStep::ConsumeExitEvent, WorkerAnswerView::Consumed(Err(failure))) => Some(
            VringIoUringError::ConsumeEvent(failure.error),
        ),
        (WorkerStep::ReadKick { .. }, WorkerAnswerView::Kicked(Err(error))) => Some(
            VringIoUringError::HandleEventReadKick(error),
        ),
        (WorkerStep::CallBackend { .. }, WorkerAnswerView::Handled(Err(error))) => Some(
            VringIoUringError::HandleEventBackendHandling(error),
        ),
        _ => None,
    }
}

/// A failure ends the worker at once, with the error for it. An interrupted wait is made again, and
/// commands are taken once their event has been read dry. A poll that failed ends the worker with
/// the error that its completion gives, unless it is to be tried in single shot mode.
pub proof fn failures_end_the_worker<E>(
    worker: WorkerState,
    step: WorkerStep<E>,
    answer: WorkerAnswerView<E>,
    token: u64,
    result: i32,
    flags: u32,
)
    ensures
        fatal(step, answer) matches Some(error) ==> worker.next(step, answer) == (
            worker,
            WorkerStep::<E>::Done(Err(error)),
        ),
        step is SubmitAndWait && answer is Waited && fatal(step, answer) is None
            && answer->Waited_0 is Err ==> worker.next(step, answer) == (worker, step),
        step is ConsumeCommandEvent && answer is Consumed && fatal(step, answer) is None
            && answer->Consumed_0 is Err ==> worker.next(step, answer) == (
            worker,
            WorkerStep::<E>::PopCommand { turn: step->ConsumeCommandEvent_turn },
        ),
        worker.active.contains_key(token) && i32::MIN < result < 0 && !(result == -EINVAL
            && worker.active[token].multishot) ==> worker.poll_completion::<E>(token, result, flags)
            == Some(
            (
                worker,
                WorkerStep::<E>::Done(
                    Err(
                        VringIoUringError::SubmitAndWait(
                            IoError::Os(OsError { code: (-result) as i32 }),
                        ),
                    ),
                ),
            ),
        ),
{
}

/// After the exit event, and after the first failure, no completion is looked at any more: whatever
/// the worker is answered then, it has ended or ends, and its looks stay as they are.
pub proof fn nothing_is_dispatched_after_the_end<E>(
    run: CollectRun<E>,
    answers: Seq<WorkerAnswerView<E>>,
)
    requires
        run.ending(),
    ensures
        run.after_all(answers).ending(),
        run.after_all(answers).looks == run.looks,
    decreases answers.len(),
{
    if answers.len() > 0 {
        nothing_is_dispatched_after_the_end(run, answers.drop_last());
        let before = run.after_all(answers.drop_last());
        assert(looks(before.worker, before.step, answers.last()) =~= Seq::empty());
        assert(before.looks + Seq::<Look<E>>::empty() =~= before.looks);
    }
}

// How the worker ends.

/// Whether there is an exit event wherever there is a poll for one.
pub open spec fn exit_polls_have_event(worker: WorkerState) -> bool {
    forall|token: u64| #[trigger]
        worker.active.contains_key(token) && worker.active[token].kind == PollKind::Exit
            ==> worker.exit_fd is Some
}

/// Going through completions does not by itself end the worker without an error.
proof fn completions_do_not_exit<E>(worker: WorkerState)
    requires
        exit_polls_have_event(worker),
    ensures
        worker.next_completion::<E>().1 != WorkerStep::<E>::Done(Ok(())),
    decreases worker.pending.len(),
{
    if worker.pending.len() > 0 {
        let rest = WorkerState { pending: worker.pending.drop_first(), ..worker };
        if rest.completion::<E>(worker.pending[0]) is None {
            completions_do_not_exit::<E>(rest);
        }
    }
}

/// The worker ends without an error exactly when an event has been received from the exit event
/// fd.
pub proof fn ends_on_exit_event<E>(
    worker: WorkerState,
    step: WorkerStep<E>,
    answer: WorkerAnswerView<E>,
)
    requires
        exit_polls_have_event(worker),
        !(step is Done),
    ensures
        worker.next(step, answer).1 == WorkerStep::<E>::Done(Ok(())) <==> (step is ConsumeExitEvent
            && answer is Consumed && answer->Consumed_0 is Ok),
        exit_polls_have_event(worker.next(step, answer).0),
{
    completions_do_not_exit::<E>(worker);
    completions_keep_polls::<E>(worker);
    assert forall|token: u64|
        worker.next_completion::<E>().0.active.contains_key(
            token,
        ) == worker.active.contains_key(token) by {
        assert(worker.next_completion::<E>().0.active.dom().contains(token)
            == worker.active.dom().contains(token));
    }
    if let WorkerAnswerView::Collected(completions) = answer {
        let filled = WorkerState { pending: completions, ..worker };
        completions_do_not_exit::<E>(filled);
        completions_keep_polls::<E>(filled);
        assert forall|token: u64|
            filled.next_completion::<E>().0.active.contains_key(
                token,
            ) == worker.active.contains_key(token) by {
            assert(filled.next_completion::<E>().0.active.dom().contains(token)
                == worker.active.dom().contains(token));
        }
    }
}

/// A completion of the poll for the exit event makes the worker read the exit event, and nothing
/// else.
pub proof fn exit_poll_leads_to_exit_event<E>(
    worker: WorkerState,
    token: u64,
    result: i32,
    flags: u32,
)
    requires
        worker.active.contains_key(token),
        worker.active[token].kind == PollKind::Exit,
        worker.exit_fd is Some,
        result >= 0,
    ensures
        worker.poll_completion::<E>(token, result, flags) == Some(
            (worker, WorkerStep::<E>::ConsumeExitEvent),
        ),
{
}

// What the backend gets to see of ready descriptors.

/// The backend is called for a ready queue only after its kick has been read and the vring was
/// found enabled.
pub proof fn backend_called_for_enabled_queues<E>(
    worker: WorkerState,
    data: u64,
    evset: EventSet,
    turn: PollTurn,
)
    ensures
        data < worker.num_vrings ==> worker.fd_event::<E>(data, evset, turn) == (WorkerStep::<
            E,
        >::ReadKick { data, evset, turn }),
        worker.next(
            WorkerStep::<E>::ReadKick { data, evset, turn },
            WorkerAnswerView::<E>::Kicked(Ok(true)),
        ) == (
            worker,
            WorkerStep::<E>::CallBackend {
                event: VhostUserBackendEvent::Fd { device_event: device_event_of(data), evset },
                served: Some(turn),
            },
        ),
        worker.next(
            WorkerStep::<E>::ReadKick { data, evset, turn },
            WorkerAnswerView::<E>::Kicked(Ok(false)),
        ) == worker.end_turn::<E>(turn),
{
}

/// A listener is never taken for a queue, whatever number it is registered under: an event of it
/// goes to the backend at once, with no kick read, and does not end the worker. A number that fits
/// in sixteen bits comes back as it is.
pub proof fn listeners_reach_the_backend<E>(
    worker: WorkerState,
    token: u64,
    num_queues: usize,
    result: i32,
    flags: u32,
)
    requires
        worker.active.contains_key(token),
        worker.active[token].kind == PollKind::BackendFd,
        worker.num_vrings <= num_queues,
        num_queues < worker.active[token].data,
        result >= 0,
    ensures
        worker.poll_completion::<E>(token, result, flags) == Some(
            (
                worker,
                WorkerStep::<E>::CallBackend {
                    event: VhostUserBackendEvent::Fd {
                        device_event: device_event_of(worker.active[token].data),
                        evset: EventSet::of_bits(events_of(result as u32)),
                    },
                    served: Some(
                        PollTurn {
                            token,
                            registration: worker.active[token],
                            more: worker.active[token].multishot && more_announced(flags),
                        },
                    ),
                },
            ),
        ),
        worker.active[token].data <= u16::MAX ==> device_event_of(worker.active[token].data)
            == worker.active[token].data,
{
}

/// Where the kernel does not know multishot polls, the poll goes on in single shot mode: it stays
/// in the table, and is armed at once.
pub proof fn multishot_falls_back<E>(worker: WorkerState, token: u64, flags: u32)
    requires
        worker.active.contains_key(token),
        worker.active[token].multishot,
        encodable(USER_DATA_KIND_POLL, token),
    ensures
        worker.poll_completion::<E>(token, (-EINVAL) as i32, flags) matches Some((after, step)) && {
            let single = PollRegistration { multishot: false, ..worker.active[token] };
            &&& same_polls(worker.active, after.active)
            &&& after.active[token] == single
            &&& step == queueing::<E>(arm_request(token, single), AfterPush::NextCompletion)
            &&& step is Push
        },
{
    let after = worker.poll_completion::<E>(token, (-EINVAL) as i32, flags)->Some_0.0;
    assert(after.active.dom() =~= worker.active.dom());
}

// Commands.

/// What holds of the polls of a worker at any time: the tokens below the first of the backend are
/// the worker's own, all others the backend's.
pub open spec fn tokens_in_order(active: Map<u64, PollRegistration>) -> bool {
    forall|token: u64| #[trigger]
        active.contains_key(token) ==> (active[token].kind == PollKind::BackendFd <==> token
            >= FIRST_BACKEND_POLL_TOKEN)
}

/// Carrying out a command does to the watched descriptors just what the command says.
pub proof fn commands_take_effect<E>(worker: WorkerState, command: IoUringCommand, turn: PollTurn)
    requires
        command_token(command) >= FIRST_BACKEND_POLL_TOKEN,
        tokens_in_order(worker.active),
    ensures
        listeners_of(worker.obey::<E>(command, turn).0.active) == apply(
            listeners_of(worker.active),
            command,
        ),
{
    assert(listeners_of(worker.obey::<E>(command, turn).0.active) =~= apply(
        listeners_of(worker.active),
        command,
    ));
}

/// The command that an answer makes the worker carry out, if it does.
pub open spec fn command_in<E>(step: WorkerStep<E>, answer: WorkerAnswerView<E>) -> Option<
    IoUringCommand,
> {
    match (step, answer) {
        (WorkerStep::PopCommand { .. }, WorkerAnswerView::Popped(command)) => command,
        _ => None,
    }
}

/// Nothing but a command changes what the worker watches for the backend, and a command changes it
/// as it says. The worker's own polls, once started, are never given up.
pub proof fn only_commands_change_listeners<E>(
    worker: WorkerState,
    step: WorkerStep<E>,
    answer: WorkerAnswerView<E>,
)
    requires
        tokens_in_order(worker.active),
        command_in(step, answer) matches Some(command) ==> command_token(command)
            >= FIRST_BACKEND_POLL_TOKEN,
    ensures
        ({
            let after = worker.next(step, answer).0;
            &&& tokens_in_order(after.active)
            &&& listeners_of(after.active) == match command_in(step, answer) {
                Some(command) => apply(listeners_of(worker.active), command),
                None => listeners_of(worker.active),
            }
            &&& worker.active.contains_key(COMMAND_POLL_TOKEN) ==> after.active.contains_key(
                COMMAND_POLL_TOKEN,
            )
            &&& worker.active.contains_key(EXIT_POLL_TOKEN) ==> after.active.contains_key(
                EXIT_POLL_TOKEN,
            )
        }),
{
    let after = worker.next(step, answer).0;
    if let Some(command) = command_in(step, answer) {
        if let WorkerStep::PopCommand { turn } = step {
            commands_take_effect::<E>(worker, command, turn);
        }
    } else {
        let filled = match answer {
            WorkerAnswerView::Collected(completions) => WorkerState {
                pending: completions,
                ..worker
            },
            _ => worker,
        };
        completions_keep_polls::<E>(worker);
        completions_keep_polls::<E>(filled);
        if after.active == worker.next_completion::<E>().0.active || after.active
            == filled.next_completion::<E>().0.active {
            same_polls_same_listeners(worker.active, after.active);
            assert forall|token: u64|
                worker.active.contains_key(token) == after.active.contains_key(token) by {
                assert(worker.active.dom().contains(token) == after.active.dom().contains(token));
            }
        } else {
            assert(listeners_of(after.active) =~= listeners_of(worker.active));
        }
    }
}

/// The request that ends a poll is aimed at the request that armed it, and at no other, and its own
/// completion is passed over. A token that does not fit in the user data ends the worker with
/// `EINVAL`, and nothing is queued, for the one as for the other.
pub proof fn cancel_is_aimed_at_arm<E>(
    worker: WorkerState,
    token: u64,
    registration: PollRegistration,
    after: AfterPush,
    result: i32,
    flags: u32,
)
    ensures
        token <= USER_DATA_PAYLOAD_MASK ==> {
            let poll_word = user_data_word(USER_DATA_KIND_POLL, token);
            let cancel_word = user_data_word(USER_DATA_KIND_CANCEL, token);
            &&& poll_word == kind_weight() + token
            &&& cancel_word == 2 * kind_weight() + token
            &&& arm_request(token, registration) == Ok::<Submission, OsError>(
                Submission::PollAdd {
                    fd: registration.fd,
                    flags: poll_flags_of(registration.evset@),
                    multishot: registration.multishot,
                    user_data: poll_word,
                },
            )
            &&& cancel_request(token) == Ok::<Submission, OsError>(
                Submission::PollRemove { target: poll_word, user_data: cancel_word },
            )
            &&& worker.completion::<E>(Completion { user_data: cancel_word, result, flags }) is None
        },
        token > USER_DATA_PAYLOAD_MASK ==> {
            let refused = WorkerStep::<E>::Done(
                Err(VringIoUringError::QueueSubmission(IoError::Os(OsError { code: EINVAL }))),
            );
            &&& queueing::<E>(arm_request(token, registration), after) == refused
            &&& queueing::<E>(cancel_request(token), after) == refused
        },
{
    if token <= USER_DATA_PAYLOAD_MASK {
        encode_decode_round_trip(USER_DATA_KIND_CANCEL, token);
    }
}

// Keeping polls armed.

/// Whether a completion reports that the poll numbered `token` is not armed any more.
pub open spec fn disarms(completion: Completion, token: u64) -> bool {
    &&& word_kind(completion.user_data) == USER_DATA_KIND_POLL
    &&& word_payload(completion.user_data) == token
    &&& !more_announced(completion.flags)
}

/// Whether one of some completions reports that the poll numbered `token` is not armed any more.
pub open spec fn disarmed(completions: Seq<Completion>, token: u64) -> bool {
    exists|i: int| 0 <= i < completions.len() && disarms(#[trigger] completions[i], token)
}

/// Whether a request arms the poll numbered `token`.
pub open spec fn arms(submission: Submission, token: u64) -> bool {
    encodable(USER_DATA_KIND_POLL, token) && (submission matches Submission::PollAdd {
        user_data,
        ..
    } && user_data == user_data_word(USER_DATA_KIND_POLL, token))
}

/// Whether a request cancels the poll numbered `token`.
pub open spec fn cancels(submission: Submission, token: u64) -> bool {
    encodable(USER_DATA_KIND_POLL, token) && (submission matches Submission::PollRemove {
        target,
        ..
    } && target == user_data_word(USER_DATA_KIND_POLL, token))
}

/// The polls that are armed after a step and the answer to it, if those in `armed` were before. A
/// poll is armed from when its request has been queued, until a completion of it announces no
/// more, or until a request to cancel it has been queued.
pub open spec fn armed_after<E>(
    armed: Set<u64>,
    step: WorkerStep<E>,
    answer: WorkerAnswerView<E>,
) -> Set<u64> {
    match (step, answer) {
        (WorkerStep::Push { submission, .. }, WorkerAnswerView::Pushed(Ok(()))) => Set::new(
            |token: u64|
                (armed.contains(token) && !cancels(submission, token)) || arms(submission, token),
        ),
        (WorkerStep::Collect, WorkerAnswerView::Collected(completions)) => Set::new(
            |token: u64| armed.contains(token) && !disarmed(completions, token),
        ),
        _ => armed,
    }
}

/// Whether the service of a poll, at the end of which it is armed again, is that of `token`.
pub open spec fn serves(turn: PollTurn, token: u64) -> bool {
    turn.token == token && !turn.more
}

/// Whether the poll numbered `token` is about to be armed, or the worker about to end.
pub open spec fn in_service<E>(step: WorkerStep<E>, token: u64) -> bool {
    match step {
        WorkerStep::Push { submission, after } => arms(submission, token) || (
        after matches AfterPush::DrainCommands(turn) && serves(turn, token)),
        WorkerStep::ConsumeCommandEvent { turn } => serves(turn, token),
        WorkerStep::PopCommand { turn } => serves(turn, token),
        WorkerStep::ReadKick { turn, .. } => serves(turn, token),
        WorkerStep::CallBackend { served, .. } => served matches Some(turn) && serves(turn, token),
        WorkerStep::ConsumeExitEvent => true,
        WorkerStep::Done(_) => true,
        WorkerStep::SubmitAndWait | WorkerStep::Collect => false,
    }
}

/// Whether no poll has been lost: each that is to be kept going is armed, or there is a completion
/// of it still to be looked at, or it is about to be armed again.
pub open spec fn no_poll_lost<E>(
    worker: WorkerState,
    step: WorkerStep<E>,
    armed: Set<u64>,
) -> bool {
    &&& forall|token: u64| #[trigger]
        worker.active.contains_key(token) ==> armed.contains(token) || disarmed(
            worker.pending,
            token,
        ) || in_service(step, token)
    &&& match step {
        WorkerStep::SubmitAndWait | WorkerStep::Collect => worker.pending.len() == 0,
        WorkerStep::Push { submission, after } => {
            &&& after is AddExitPoll || after is Wait ==> worker.pending.len() == 0
            &&& forall|token: u64| #[trigger]
                worker.active.contains_key(token) ==> !cancels(submission, token)
        },
        _ => true,
    }
}

/// Going through completions loses no poll.
proof fn completions_lose_no_poll<E>(worker: WorkerState, armed: Set<u64>)
    requires
        forall|token: u64| #[trigger]
            worker.active.contains_key(token) ==> armed.contains(token) || disarmed(
                worker.pending,
                token,
            ),
    ensures
        no_poll_lost(
            worker.next_completion::<E>().0,
            worker.next_completion::<E>().1,
            armed,
        ),
    decreases worker.pending.len(),
{
    if worker.pending.len() > 0 {
        let first = worker.pending[0];
        let rest = WorkerState { pending: worker.pending.drop_first(), ..worker };
        assert forall|token: u64| #[trigger] disarmed(worker.pending, token) implies disarms(
            first,
            token,
        ) || disarmed(rest.pending, token) by {
            let i = choose|i: int|
                0 <= i < worker.pending.len() && disarms(#[trigger] worker.pending[i], token);
            if i > 0 {
                assert(rest.pending[i - 1] == worker.pending[i]);
            }
        }
        match rest.completion::<E>(first) {
            None => {
                assert forall|token: u64| #[trigger]
                    rest.active.contains_key(token) implies armed.contains(token) || disarmed(
                    rest.pending,
                    token,
                ) by {
                    assert(worker.active.contains_key(token));
                    assert(!disarms(first, token));
                }
                completions_lose_no_poll::<E>(rest, armed);
            },
            Some((after, step)) => {
                completion_keeps_polls::<E>(rest, first);
                assert forall|token: u64| #[trigger]
                    after.active.contains_key(token) implies worker.active.contains_key(
                    token,
                ) by {
                    assert(after.active.dom().contains(token) == worker.active.dom().contains(
                        token,
                    ));
                }
            },
        }
    }
}

/// A worker that starts has lost no poll.
pub proof fn start_loses_no_poll<E>(
    command_fd: i32,
    exit_fd: Option<i32>,
    multishot_poll: bool,
    num_vrings: usize,
)
    ensures
        ({
            let (worker, step) = WorkerState::initial(
                command_fd,
                exit_fd,
                multishot_poll,
                num_vrings,
            ).start::<E>();
            &&& no_poll_lost(worker, step, Set::empty())
            &&& tokens_in_order(worker.active)
            &&& exit_polls_have_event(worker)
            &&& worker.active.contains_key(COMMAND_POLL_TOKEN)
        }),
{
}

/// No step loses a poll. So whenever the worker waits, every poll that it is to keep going is
/// armed, and no event can pass unnoticed.
pub proof fn steps_lose_no_poll<E>(
    worker: WorkerState,
    step: WorkerStep<E>,
    answer: WorkerAnswerView<E>,
    armed: Set<u64>,
)
    requires
        no_poll_lost(worker, step, armed),
    ensures
        no_poll_lost(
            worker.next(step, answer).0,
            worker.next(step, answer).1,
            armed_after(armed, step, answer),
        ),
        step is SubmitAndWait ==> forall|token: u64| #[trigger]
            worker.active.contains_key(token) ==> armed.contains(token),
{
    let now = armed_after(armed, step, answer);
    match (step, answer) {
        (WorkerStep::Push { submission, after }, WorkerAnswerView::Pushed(Ok(()))) => {
            if after is NextCompletion {
                completions_lose_no_poll::<E>(worker, now);
            }
        },
        (WorkerStep::Collect, WorkerAnswerView::Collected(completions)) => {
            let filled = WorkerState { pending: completions, ..worker };
            completions_lose_no_poll::<E>(filled, now);
        },
        (WorkerStep::PopCommand { turn }, WorkerAnswerView::Popped(None)) => {
            if turn.more || !worker.active.contains_key(turn.token) {
                completions_lose_no_poll::<E>(worker, now);
            }
        },
        (WorkerStep::ReadKick { turn, .. }, WorkerAnswerView::Kicked(Ok(false))) => {
            if turn.more || !worker.active.contains_key(turn.token) {
                completions_lose_no_poll::<E>(worker, now);
            }
        },
        (WorkerStep::CallBackend { served, .. }, WorkerAnswerView::Handled(Ok(()))) => {
            match served {
                Some(turn) => {
                    if turn.more || !worker.active.contains_key(turn.token) {
                        completions_lose_no_poll::<E>(worker, now);
                    }
                },
                None => {
                    completions_lose_no_poll::<E>(worker, now);
                },
            }
        },
        _ => {},
    }
}

// Registrations and the worker together.

/// An io_uring worker and what other threads register with it.
pub struct RegisteredWorker<E> {
    pub registry: Registry,
    pub worker: WorkerState,
    pub step: WorkerStep<E>,
}

/// One thing that can happen to a worker and its registry.
pub enum SharedEvent<E> {
    /// A thread registers a descriptor.
    Register { fd: i32, evset: EventSet, data: u64 },
    /// A thread unregisters a descriptor.
    Unregister { fd: i32, evset: EventSet, data: u64 },
    /// The worker is answered.
    Worker(WorkerAnswerView<E>),
}

impl<E> RegisteredWorker<E> {
    /// Whether the worker watches what is registered, once it has carried out the commands that
    /// wait for it.
    pub open spec fn consistent(self) -> bool {
        &&& self.registry.well_formed()
        &&& tokens_in_order(self.worker.active)
        &&& self.registry.leads_from(listeners_of(self.worker.active))
    }

    /// Whether something can happen now. The worker takes its commands from the registry.
    pub open spec fn possible(self, event: SharedEvent<E>) -> bool {
        match event {
            SharedEvent::Register { .. } => self.registry.next_token < u64::MAX,
            SharedEvent::Unregister { .. } => true,
            SharedEvent::Worker(answer) => self.step is PopCommand && answer is Popped
                ==> answer == WorkerAnswerView::<E>::Popped(self.registry.pop().1),
        }
    }

    /// What is the case after something has happened.
    pub open spec fn after(self, event: SharedEvent<E>) -> RegisteredWorker<E> {
        match event {
            SharedEvent::Register { fd, evset, data } => RegisteredWorker {
                registry: self.registry.register(fd, evset, data).0,
                ..self
            },
            SharedEvent::Unregister { fd, evset, data } => RegisteredWorker {
                registry: self.registry.unregister(fd, evset, data).0,
                ..self
            },
            SharedEvent::Worker(answer) => {
                let (worker, step) = self.worker.next(self.step, answer);
                RegisteredWorker {
                    registry: if self.step is PopCommand && answer is Popped {
                        self.registry.pop().0
                    } else {
                        self.registry
                    },
                    worker,
                    step,
                }
            },
        }
    }
}

/// A worker that starts watches nothing for the backend yet, and finds all that has been registered
/// before it started in the commands that wait for it.
pub proof fn start_keeps_up_with_registrations<E>(
    registry: Registry,
    command_fd: i32,
    exit_fd: Option<i32>,
    multishot_poll: bool,
    num_vrings: usize,
)
    requires
        registry.well_formed(),
        registry.leads_from(Map::empty()),
    ensures
        ({
            let (worker, step) = WorkerState::initial(
                command_fd,
                exit_fd,
                multishot_poll,
                num_vrings,
            ).start::<E>();
            RegisteredWorker { registry, worker, step }.consistent()
        }),
{
    let (worker, _) = WorkerState::initial(
        command_fd,
        exit_fd,
        multishot_poll,
        num_vrings,
    ).start::<E>();
    assert(listeners_of(worker.active) =~= Map::empty());
}

/// Whatever happens, the worker keeps up with what is registered: once there are no commands left
/// for it, it watches just the registered descriptors, each with the events and data that it is
/// registered with. The inputs left out are those where tokens have run out.
pub proof fn worker_keeps_up_with_registrations<E>(
    system: RegisteredWorker<E>,
    event: SharedEvent<E>,
)
    requires
        system.consistent(),
        system.possible(event),
    ensures
        system.after(event).consistent(),
        system.registry.commands.len() == 0 ==> mirrors(
            listeners_of(system.worker.active),
            system.registry.registrations,
        ),
{
    let listeners = listeners_of(system.worker.active);
    pop_keeps_consistent(system.registry, listeners);
    match event {
        SharedEvent::Register { fd, evset, data } => {
            register_keeps_consistent(system.registry, listeners, fd, evset, data);
        },
        SharedEvent::Unregister { fd, evset, data } => {
            unregister_keeps_consistent(system.registry, listeners, fd, evset, data);
        },
        SharedEvent::Worker(answer) => {
            only_commands_change_listeners(system.worker, system.step, answer);
        },
    }
}

/// How many requests are to be queued before the next command is taken.
pub open spec fn pushes_left<E>(step: WorkerStep<E>) -> nat {
    if step is Push {
        1
    } else {
        0
    }
}

/// Where the worker gets to when it takes commands until there are none, and every request it makes
/// is queued: its state, its step, and the commands that are left. It stops short only at an error.
pub open spec fn drained<E>(
    worker: WorkerState,
    step: WorkerStep<E>,
    commands: Seq<IoUringCommand>,
) -> (WorkerState, WorkerStep<E>, Seq<IoUringCommand>)
    decreases commands.len(), pushes_left(step),
{
    match step {
        WorkerStep::PopCommand { .. } => if commands.len() == 0 {
            (worker, step, commands)
        } else {
            let (worker_after, step_after) = worker.next(
                step,
                WorkerAnswerView::Popped(Some(commands[0])),
            );
            drained(worker_after, step_after, commands.drop_first())
        },
        WorkerStep::Push { after: AfterPush::DrainCommands(_), .. } => {
            let (worker_after, step_after) = worker.next(step, WorkerAnswerView::Pushed(Ok(())));
            drained(worker_after, step_after, commands)
        },
        _ => (worker, step, commands),
    }
}

/// Once the worker has taken all commands without an error, it watches just the registered
/// descriptors: each under the token that it is registered with, with its events and data. Its own
/// polls are as they were, and so is every poll that no command was about; the polls that it has
/// started are in the mode that is configured.
pub proof fn drained_worker_watches_what_is_registered<E>(
    registry: Registry,
    worker: WorkerState,
    turn: PollTurn,
)
    requires
        registry.well_formed(),
        registry.leads_from(listeners_of(worker.active)),
        tokens_in_order(worker.active),
        !(drained::<E>(worker, WorkerStep::PopCommand { turn }, registry.commands).1 is Done),
    ensures
        ({
            let (after, step, commands) = drained::<E>(
                worker,
                WorkerStep::PopCommand { turn },
                registry.commands,
            );
            &&& commands.len() == 0
            &&& step == (WorkerStep::<E>::PopCommand { turn })
            &&& tokens_in_order(after.active)
            &&& mirrors(listeners_of(after.active), registry.registrations)
            &&& forall|token: u64|
                token < FIRST_BACKEND_POLL_TOKEN ==> {
                    &&& (#[trigger] after.active.contains_key(token)) == worker.active.contains_key(
                        token,
                    )
                    &&& worker.active.contains_key(token) ==> after.active[token]
                        == worker.active[token]
                }
            &&& forall|token: u64| #[trigger]
                after.active.contains_key(token) ==> {
                    ||| worker.active.contains_key(token) && after.active[token]
                        == worker.active[token]
                    ||| after.active[token].multishot == worker.multishot_poll
                }
            &&& after == (WorkerState { active: after.active, ..worker })
        }),
    decreases registry.commands.len(),
{
    let listeners = listeners_of(worker.active);
    pop_keeps_consistent(registry, listeners);
    if registry.commands.len() > 0 {
        let command = registry.commands[0];
        let rest = registry.pop().0;
        let (next, step) = worker.obey::<E>(command, turn);
        commands_take_effect::<E>(worker, command, turn);
        assert(worker.next(
            WorkerStep::<E>::PopCommand { turn },
            WorkerAnswerView::Popped(Some(command)),
        ) == (next, step));
        assert(drained::<E>(worker, WorkerStep::PopCommand { turn }, registry.commands) == drained(
            next,
            step,
            rest.commands,
        ));
        if step is Push {
            assert(next.next(step, WorkerAnswerView::Pushed(Ok(()))) == (
                next,
                WorkerStep::<E>::PopCommand { turn },
            ));
            assert(drained(next, step, rest.commands) == drained(
                next,
                WorkerStep::<E>::PopCommand { turn },
                rest.commands,
            ));
        }
        drained_worker_watches_what_is_registered::<E>(rest, next, turn);
    }
}

// Announcing commands.

/// An io_uring worker with its registry, and the event that announces commands to it.
pub struct AnnouncedWorker<E> {
    pub shared: RegisteredWorker<E>,
    /// How many threads have left a command and have yet to raise the event.
    pub announcing: nat,
    /// Whether the event has been raised since it was last read.
    pub raised: bool,
}

/// One thing that can happen to a worker and the threads that register with it.
pub enum AnnouncedEvent<E> {
    /// Something that happens to the worker and its registry.
    Shared(SharedEvent<E>),
    /// A thread that has left a command raises the event.
    Announce,
}

/// Whether the worker is about to take commands until there are none.
pub open spec fn takes_commands<E>(step: WorkerStep<E>) -> bool {
    match step {
        WorkerStep::ConsumeCommandEvent { .. } | WorkerStep::PopCommand { .. } => true,
        WorkerStep::Push { after, .. } => after is DrainCommands,
        _ => false,
    }
}

impl<E> AnnouncedWorker<E> {
    /// Whether a command that waits for the worker will come to its notice: the event that
    /// announces it has been raised or is about to be, or the worker is at the commands already.
    /// Only a worker that has ended leaves commands alone.
    pub open spec fn no_command_forgotten(self) -> bool {
        self.shared.registry.commands.len() > 0 ==> {
            ||| self.announcing > 0
            ||| self.raised
            ||| takes_commands(self.shared.step)
            ||| self.shared.step is Done
        }
    }

    /// Whether something can happen now. Reading the event succeeds if it has been raised, and
    /// would have to wait if it has not.
    pub open spec fn possible(self, event: AnnouncedEvent<E>) -> bool {
        match event {
            AnnouncedEvent::Announce => self.announcing > 0,
            AnnouncedEvent::Shared(event) => {
                &&& self.shared.possible(event)
                &&& match (self.shared.step, event) {
                    (
                        WorkerStep::ConsumeCommandEvent { .. },
                        SharedEvent::Worker(WorkerAnswerView::Consumed(Ok(()))),
                    ) => self.raised,
                    (
                        WorkerStep::ConsumeCommandEvent { .. },
                        SharedEvent::Worker(WorkerAnswerView::Consumed(Err(failure))),
                    ) => failure.kind == IoErrorKind::WouldBlock ==> !self.raised,
                    _ => true,
                }
            },
        }
    }

    /// What is the case after something has happened. A thread raises the event after each
    /// command that it has left; reading the event takes it back.
    pub open spec fn after(self, event: AnnouncedEvent<E>) -> AnnouncedWorker<E> {
        match event {
            AnnouncedEvent::Announce => AnnouncedWorker {
                announcing: (self.announcing - 1) as nat,
                raised: true,
                ..self
            },
            AnnouncedEvent::Shared(event) => AnnouncedWorker {
                shared: self.shared.after(event),
                announcing: match event {
                    SharedEvent::Register { fd, evset, data } => if self.shared.registry.register(
                        fd,
                        evset,
                        data,
                    ).1 is Ok {
                        self.announcing + 1
                    } else {
                        self.announcing
                    },
                    SharedEvent::Unregister { fd, evset, data } => {
                        if self.shared.registry.unregister(fd, evset, data).1 is Ok {
                            self.announcing + 1
                        } else {
                            self.announcing
                        }
                    },
                    SharedEvent::Worker(_) => self.announcing,
                },
                raised: match (self.shared.step, event) {
                    (
                        WorkerStep::ConsumeCommandEvent { .. },
                        SharedEvent::Worker(WorkerAnswerView::Consumed(Ok(()))),
                    ) => false,
                    _ => self.raised,
                },
            },
        }
    }
}

/// No command is forgotten, however the threads and the worker take turns: while the worker waits,
/// a command that has been left for it has been announced by an event that it has not read yet, or
/// is about to be announced.
pub proof fn no_command_is_forgotten<E>(system: AnnouncedWorker<E>, event: AnnouncedEvent<E>)
    requires
        system.no_command_forgotten(),
        system.possible(event),
    ensures
        system.after(event).no_command_forgotten(),
        system.shared.step is SubmitAndWait && system.shared.registry.commands.len() > 0
            ==> system.raised || system.announcing > 0,
{
}

} // verus!
