//! What holds of the epoll worker over all its steps, and of the workers that share a gate.

use vstd::prelude::*;

use crate::error::{IoErrorKind, VringEpollError};
use crate::event_loop::{
    device_event_of, listener_control, reported, ControlOperation, EpollAnswerView, EpollControl,
    EpollSetting, EpollSetupAnswer, EpollSetupStep, EpollStepView, ReadyEvent, VringEpollHandler,
};
use crate::event_set::{known_events, EventSet};
use crate::gate::{Admission, Drain, GateOp, GateState};
use crate::os::{OsError, EINVAL};

verus! {

/// Whether a worker is inside the event gate while it is at this step.
pub open spec fn inside_gate<E>(step: EpollStepView<E>) -> bool {
    step is ReadKick || step is HandleEvent || step is LeaveGate
}

/// A worker is inside the event gate from the moment it is let in until it leaves, and at no other
/// time: no step skips the event gate, and none ends the worker while it is inside.
pub proof fn permit_discipline<E>(
    setting: EpollSetting,
    step: EpollStepView<E>,
    answer: EpollAnswerView<E>,
)
    ensures
        inside_gate(step) && !inside_gate(setting.next(step, answer)) ==> step is LeaveGate
            && answer is Left,
        !inside_gate(step) && inside_gate(setting.next(step, answer)) ==> step is EnterGate
            && answer == EpollAnswerView::<E>::Entered(true),
        step is EnterGate && answer == EpollAnswerView::<E>::Entered(true) ==> inside_gate(
            setting.next(step, answer),
        ),
        step is LeaveGate && answer is Left ==> !inside_gate(setting.next(step, answer)),
{
}

/// The backend is called for a queue only after its kick has been read and the vring was found
/// enabled, and for anything else only after the event gate has let the worker in.
pub proof fn backend_called_only_when_due<E>(
    setting: EpollSetting,
    step: EpollStepView<E>,
    answer: EpollAnswerView<E>,
    device_event: u16,
    evset: u32,
    rest: Seq<ReadyEvent>,
)
    requires
        !(step is HandleEvent),
        setting.next(step, answer) == (EpollStepView::<E>::HandleEvent {
            device_event,
            evset,
            rest,
        }),
    ensures
        match step {
            EpollStepView::ReadKick { data, evset: evset_before, rest: rest_before } => {
                &&& answer == EpollAnswerView::<E>::Kicked(Ok(true))
                &&& device_event == device_event_of(data)
                &&& (evset, rest) == (evset_before, rest_before)
            },
            EpollStepView::EnterGate { data, evset: evset_before, rest: rest_before } => {
                &&& data >= setting.num_vrings
                &&& answer == EpollAnswerView::<E>::Entered(true)
                &&& device_event == device_event_of(data)
                &&& (evset, rest) == (evset_before, rest_before)
            },
            _ => false,
        },
{
}

/// The set of events of a step, if it is about an event.
pub open spec fn step_events<E>(step: EpollStepView<E>) -> Option<u32> {
    match step {
        EpollStepView::EnterGate { evset, .. } => Some(evset),
        EpollStepView::ReadKick { evset, .. } => Some(evset),
        EpollStepView::HandleEvent { evset, .. } => Some(evset),
        _ => None,
    }
}

/// An event with an unknown bit never gets further than being reported.
pub proof fn unknown_events_are_ignored<E>(
    setting: EpollSetting,
    step: EpollStepView<E>,
    answer: EpollAnswerView<E>,
)
    requires
        step_events(step) matches Some(evset) ==> known_events(evset),
    ensures
        step_events(setting.next(step, answer)) matches Some(evset) ==> known_events(evset),
{
}

/// The events that a step still has before it, for the steps that pick the next event once they
/// are answered.
pub open spec fn picks_next<E>(
    step: EpollStepView<E>,
    answer: EpollAnswerView<E>,
) -> Option<Seq<ReadyEvent>> {
    match (step, answer) {
        (
            EpollStepView::Wait,
            EpollAnswerView::Waited { result: Ok(count), events },
        ) => Some(reported(events, count as nat)),
        (EpollStepView::ReportUnknown { rest, .. }, EpollAnswerView::Reported) => Some(rest),
        (EpollStepView::LeaveGate { verdict: Ok(()), rest }, EpollAnswerView::Left) => Some(rest),
        _ => None,
    }
}

/// The worker ends without an error exactly when it comes to an event from the exit event fd, or
/// when the event gate has been stopped.
pub proof fn ends_on_exit_or_stop<E>(
    setting: EpollSetting,
    step: EpollStepView<E>,
    answer: EpollAnswerView<E>,
)
    requires
        !(step is Done),
    ensures
        setting.next(step, answer) == EpollStepView::<E>::Done(Ok(())) <==> {
            ||| step is EnterGate && answer == EpollAnswerView::<E>::Entered(false)
            ||| picks_next(step, answer) matches Some(events) && events.len() > 0 && known_events(
                events[0].events,
            ) && setting.is_exit(events[0].data)
        },
{
}

/// An interrupted wait is made again, and is the only failure that does not end the worker. Every
/// other failure ends it with that failure, after it has left the event gate.
pub proof fn failures_end_the_worker<E>(
    setting: EpollSetting,
    step: EpollStepView<E>,
    answer: EpollAnswerView<E>,
)
    ensures
        (step is Wait && answer matches EpollAnswerView::Waited { result: Err(failure), .. }) ==> {
            let failure = answer->Waited_result->Err_0;
            setting.next(step, answer) == if failure.kind == IoErrorKind::Interrupted {
                EpollStepView::<E>::Wait
            } else {
                EpollStepView::<E>::Done(Err(VringEpollError::EpollWait(failure.error)))
            }
        },
        (step is ReadKick && answer matches EpollAnswerView::Kicked(Err(_))) ==> setting.next(
            setting.next(step, answer),
            EpollAnswerView::Left,
        ) == EpollStepView::<E>::Done(
            Err(VringEpollError::HandleEventReadKick(answer->Kicked_0->Err_0)),
        ),
        (step is HandleEvent && answer matches EpollAnswerView::Handled(Err(_))) ==> setting.next(
            setting.next(step, answer),
            EpollAnswerView::Left,
        ) == EpollStepView::<E>::Done(
            Err(VringEpollError::HandleEventBackendHandling(answer->Handled_0->Err_0)),
        ),
{
}

/// A listener is never taken for a queue or for the exit event, whatever number it is registered
/// under: its event does not end the worker, and once the event gate has let the worker in it goes
/// to the backend, with no kick read. A number that fits in sixteen bits comes back as it is.
pub proof fn listeners_reach_the_backend<E>(
    setting: EpollSetting,
    num_queues: usize,
    control: EpollControl,
    events: Seq<ReadyEvent>,
)
    requires
        setting.num_queues == num_queues,
        setting.num_vrings <= setting.num_queues,
        listener_control(num_queues, control) is Ok,
        events.len() > 0,
        events[0].data == control.data,
        known_events(events[0].events),
    ensures
        !setting.is_exit(control.data),
        setting.dispatch::<E>(events) == (EpollStepView::<E>::EnterGate {
            data: control.data,
            evset: events[0].events,
            rest: events.drop_first(),
        }),
        setting.next(setting.dispatch::<E>(events), EpollAnswerView::<E>::Entered(true)) == (
        EpollStepView::<E>::HandleEvent {
            device_event: device_event_of(control.data),
            evset: events[0].events,
            rest: events.drop_first(),
        }),
        control.data <= u16::MAX ==> device_event_of(control.data) == control.data,
{
}

/// The exit event ends the worker without an error, however many queues there are: an event that
/// is reported with what the exit event was registered with ends it at once.
pub proof fn exit_event_ends_the_worker<P, N, E>(
    setting: EpollSetting,
    num_vrings: usize,
    thread_id: usize,
    num_queues: usize,
    epoll: P,
    exit_event: (i32, N),
    step: EpollSetupStep<P, N, E>,
    events: Seq<ReadyEvent>,
)
    requires
        VringEpollHandler::<P, N>::setup_next(
            num_vrings,
            thread_id,
            EpollSetupStep::AskExitEvent { epoll },
            EpollSetupAnswer::ExitEvent { event: Some(exit_event), num_queues },
            step,
        ),
        setting.num_queues == num_queues,
        setting.has_exit_event,
        events.len() > 0,
        known_events(events[0].events),
        step is Control && events[0].data == step->control.data,
    ensures
        step->control.fd == exit_event.0,
        setting.dispatch::<E>(events) == EpollStepView::<E>::Done(Ok(())),
{
}

/// The descriptors that an epoll descriptor watches, each with the events and the data that it was
/// put on the interest list with.
pub type InterestList = Map<i32, (EventSet, u64)>;

/// The interest list after a change that succeeded.
pub open spec fn interest_after(list: InterestList, control: EpollControl) -> InterestList {
    match control.operation {
        ControlOperation::Add => list.insert(control.fd, (control.evset, control.data)),
        ControlOperation::Delete => list.remove(control.fd),
    }
}

/// The change that unregisters a listener takes that descriptor off the interest list and leaves
/// every other on it, and so undoes the change that registered it. For a reserved number no change
/// is asked for at all. What the kernel reports of a descriptor that is off the list is not said.
pub proof fn unregister_takes_one_listener_out(
    list: InterestList,
    num_queues: usize,
    fd: i32,
    evset: EventSet,
    data: u64,
)
    ensures
        ({
            let add = EpollControl { operation: ControlOperation::Add, fd, evset, data };
            let delete = EpollControl { operation: ControlOperation::Delete, fd, evset, data };
            &&& data > num_queues ==> {
                &&& listener_control(num_queues, add) == Ok::<EpollControl, OsError>(add)
                &&& listener_control(num_queues, delete) == Ok::<EpollControl, OsError>(delete)
                &&& interest_after(list, delete) == list.remove(fd)
                &&& !list.contains_key(fd) ==> interest_after(interest_after(list, add), delete)
                    == list
            }
            &&& data <= num_queues ==> {
                &&& listener_control(num_queues, add) == Err::<EpollControl, OsError>(
                    OsError { code: EINVAL },
                )
                &&& listener_control(num_queues, delete) == Err::<EpollControl, OsError>(
                    OsError { code: EINVAL },
                )
            }
        }),
{
    assert(!list.contains_key(fd) ==> list.insert(fd, (evset, data)).remove(fd) =~= list);
}

/// The answer to a step when nothing fails: the event gate is open, the backend succeeds, and every
/// kick can be read. `enabled` says of each event, by the number of events that come after it,
/// whether its vring is found enabled.
pub open spec fn calm_answer<E>(
    step: EpollStepView<E>,
    enabled: spec_fn(nat) -> bool,
) -> EpollAnswerView<E> {
    match step {
        EpollStepView::ReportUnknown { .. } => EpollAnswerView::Reported,
        EpollStepView::EnterGate { .. } => EpollAnswerView::Entered(true),
        EpollStepView::ReadKick { rest, .. } => EpollAnswerView::Kicked(Ok(enabled(rest.len()))),
        EpollStepView::HandleEvent { .. } => EpollAnswerView::Handled(Ok(())),
        _ => EpollAnswerView::Left,
    }
}

/// One thing that the worker does about an event.
pub enum Act {
    /// It says that the event is ignored.
    Report(u32),
    /// It enters the event gate.
    Enter(ReadyEvent),
    /// It reads the kick of a vring.
    Kick(u64),
    /// It calls the backend.
    Call { device_event: u16, evset: u32 },
    /// It leaves the event gate.
    Leave,
}

/// What the worker should do about an event that is not the exit event. One with unknown bits is
/// reported. Any other passes the event gate once, and reaches the backend once, unless it is of a
/// vring that is found disabled.
pub open spec fn event_acts(setting: EpollSetting, event: ReadyEvent, enabled: bool) -> Seq<Act> {
    let call = Act::Call { device_event: device_event_of(event.data), evset: event.events };
    if !known_events(event.events) {
        seq![Act::Report(event.events)]
    } else if event.data >= setting.num_vrings {
        seq![Act::Enter(event), call, Act::Leave]
    } else if enabled {
        seq![Act::Enter(event), Act::Kick(event.data), call, Act::Leave]
    } else {
        seq![Act::Enter(event), Act::Kick(event.data), Act::Leave]
    }
}

/// What the worker should do about a batch of events: what it should do about each in their order,
/// and nothing from the exit event on.
pub open spec fn batch_acts(
    setting: EpollSetting,
    events: Seq<ReadyEvent>,
    enabled: spec_fn(nat) -> bool,
) -> Seq<Act>
    decreases events.len(),
{
    if events.len() == 0 {
        seq![]
    } else {
        let first = events[0];
        let rest = events.drop_first();
        if known_events(first.events) && setting.is_exit(first.data) {
            seq![]
        } else {
            event_acts(setting, first, enabled(rest.len())) + batch_acts(setting, rest, enabled)
        }
    }
}

/// How many events are still to come after a step.
pub open spec fn events_left<E>(step: EpollStepView<E>) -> nat {
    match step {
        EpollStepView::ReportUnknown { rest, .. } => rest.len(),
        EpollStepView::EnterGate { rest, .. } => rest.len(),
        EpollStepView::ReadKick { rest, .. } => rest.len(),
        EpollStepView::HandleEvent { rest, .. } => rest.len(),
        EpollStepView::LeaveGate { rest, .. } => rest.len(),
        _ => 0,
    }
}

/// How many steps an event may still take after a step.
pub open spec fn steps_left<E>(step: EpollStepView<E>) -> nat {
    match step {
        EpollStepView::Wait => 0,
        EpollStepView::ReportUnknown { .. } => 1,
        EpollStepView::EnterGate { .. } => 4,
        EpollStepView::ReadKick { .. } => 3,
        EpollStepView::HandleEvent { .. } => 2,
        EpollStepView::LeaveGate { .. } => 1,
        EpollStepView::Done(_) => 0,
    }
}

/// What a step is, as a thing that the worker does about an event.
pub open spec fn step_acts<E>(step: EpollStepView<E>) -> Seq<Act> {
    match step {
        EpollStepView::ReportUnknown { bits, .. } => seq![Act::Report(bits)],
        EpollStepView::EnterGate { data, evset, .. } => seq![
            Act::Enter(ReadyEvent { events: evset, data }),
        ],
        EpollStepView::ReadKick { data, .. } => seq![Act::Kick(data)],
        EpollStepView::HandleEvent { device_event, evset, .. } => seq![
            Act::Call { device_event, evset },
        ],
        EpollStepView::LeaveGate { .. } => seq![Act::Leave],
        EpollStepView::Wait | EpollStepView::Done(_) => seq![],
    }
}

/// What the worker does from a step on until the next wait or the end, when nothing fails.
pub open spec fn acts<E>(
    setting: EpollSetting,
    step: EpollStepView<E>,
    enabled: spec_fn(nat) -> bool,
) -> Seq<Act>
    decreases events_left(step), steps_left(step),
{
    if step is Wait || step is Done {
        seq![]
    } else {
        step_acts(step) + acts(setting, setting.next(step, calm_answer(step, enabled)), enabled)
    }
}

/// Where the worker gets to from a step on, when nothing fails: to the next wait, or to the end.
pub open spec fn outcome<E>(
    setting: EpollSetting,
    step: EpollStepView<E>,
    enabled: spec_fn(nat) -> bool,
) -> EpollStepView<E>
    decreases events_left(step), steps_left(step),
{
    if step is Wait || step is Done {
        step
    } else {
        outcome(setting, setting.next(step, calm_answer(step, enabled)), enabled)
    }
}

/// Whether there is an exit event among some events.
pub open spec fn exit_among(setting: EpollSetting, events: Seq<ReadyEvent>) -> bool {
    exists|i: int|
        0 <= i < events.len() && known_events(#[trigger] events[i].events) && setting.is_exit(
            events[i].data,
        )
}

/// An exit event is the first of some events or among the others.
proof fn exit_first_or_later(setting: EpollSetting, events: Seq<ReadyEvent>)
    requires
        events.len() > 0,
    ensures
        exit_among(setting, events) <==> (known_events(events[0].events) && setting.is_exit(
            events[0].data,
        )) || exit_among(setting, events.drop_first()),
{
    let rest = events.drop_first();
    if exit_among(setting, rest) {
        let i = choose|i: int|
            0 <= i < rest.len() && known_events(#[trigger] rest[i].events) && setting.is_exit(
                rest[i].data,
            );
        assert(events[i + 1] == rest[i]);
    }
    if exit_among(setting, events) {
        let i = choose|i: int|
            0 <= i < events.len() && known_events(#[trigger] events[i].events) && setting.is_exit(
                events[i].data,
            );
        if i > 0 {
            assert(rest[i - 1] == events[i]);
        }
    }
}

/// How the worker goes through some events, when nothing fails.
proof fn events_in_order<E>(
    setting: EpollSetting,
    events: Seq<ReadyEvent>,
    enabled: spec_fn(nat) -> bool,
)
    ensures
        acts(setting, setting.dispatch::<E>(events), enabled) == batch_acts(
            setting,
            events,
            enabled,
        ),
        outcome(setting, setting.dispatch::<E>(events), enabled) == if exit_among(setting, events) {
            EpollStepView::<E>::Done(Ok(()))
        } else {
            EpollStepView::<E>::Wait
        },
    decreases events.len(),
{
    if events.len() > 0 {
        let event = events[0];
        let rest = events.drop_first();
        let later = batch_acts(setting, rest, enabled);
        events_in_order::<E>(setting, rest, enabled);
        exit_first_or_later(setting, events);
        if setting.dispatch::<E>(events) is EnterGate {
            let data = event.data;
            let evset = event.events;
            let device_event = device_event_of(data);
            let enter = EpollStepView::<E>::EnterGate { data, evset, rest };
            let kick = EpollStepView::<E>::ReadKick { data, evset, rest };
            let call = EpollStepView::<E>::HandleEvent { device_event, evset, rest };
            let leave = EpollStepView::<E>::LeaveGate { verdict: Ok(()), rest };
            assert(acts(setting, leave, enabled) == seq![Act::Leave] + later);
            assert(acts(setting, call, enabled) == seq![Act::Call { device_event, evset }] + (seq![
                Act::Leave,
            ] + later));
            assert(outcome(setting, call, enabled) == outcome(setting, leave, enabled));
            if data < setting.num_vrings {
                let next = if enabled(rest.len()) {
                    call
                } else {
                    leave
                };
                assert(acts(setting, kick, enabled) == seq![Act::Kick(data)] + acts(
                    setting,
                    next,
                    enabled,
                ));
                assert(outcome(setting, kick, enabled) == outcome(setting, next, enabled));
                assert(acts(setting, enter, enabled) == seq![Act::Enter(event)] + acts(
                    setting,
                    kick,
                    enabled,
                ));
            } else {
                assert(acts(setting, enter, enabled) == seq![Act::Enter(event)] + acts(
                    setting,
                    call,
                    enabled,
                ));
            }
            assert(acts(setting, enter, enabled) =~= event_acts(
                setting,
                event,
                enabled(rest.len()),
            ) + later);
        }
    }
}

/// The events that one wait reports are gone through one by one, each once and in their order, when
/// nothing fails: each passes the event gate once and reaches the backend once, but for those with
/// unknown bits, and for those of a vring that is found disabled, which pass the event gate and do
/// not reach the backend. Of what is in the buffer beyond the reported events nothing is looked at.
/// If the exit event is among them, the events before it are handled, those after it are not, and
/// the worker ends without another wait; otherwise the worker waits again.
pub proof fn batch_reaches_backend_in_order<E>(
    setting: EpollSetting,
    events: Seq<ReadyEvent>,
    count: usize,
    enabled: spec_fn(nat) -> bool,
)
    ensures
        ({
            let batch = reported(events, count as nat);
            let step = setting.next(
                EpollStepView::<E>::Wait,
                EpollAnswerView::<E>::Waited { result: Ok(count), events },
            );
            &&& acts(setting, step, enabled) == batch_acts(setting, batch, enabled)
            &&& outcome(setting, step, enabled) == if exit_among(setting, batch) {
                EpollStepView::<E>::Done(Ok(()))
            } else {
                EpollStepView::<E>::Wait
            }
        }),
{
    events_in_order::<E>(setting, reported(events, count as nat), enabled);
}

/// Epoll workers that share a gate.
pub struct GatedWorkers<E> {
    pub gate: GateState,
    pub workers: Seq<EpollStepView<E>>,
}

/// How many of some workers are inside the event gate.
pub open spec fn number_inside<E>(workers: Seq<EpollStepView<E>>) -> nat
    decreases workers.len(),
{
    if workers.len() == 0 {
        0
    } else {
        number_inside(workers.drop_last()) + if inside_gate(workers.last()) {
            1nat
        } else {
            0
        }
    }
}

/// One thing that can happen to workers that share a gate.
pub enum GatedEvent<E> {
    /// Someone suspends, resumes or stops the event gate.
    Gate(GateOp),
    /// A worker is answered.
    Worker { index: int, setting: EpollSetting, answer: EpollAnswerView<E> },
}

impl<E> GatedWorkers<E> {
    /// The event gate's count is the number of workers inside.
    pub open spec fn counted(self) -> bool {
        self.gate.in_flight == number_inside(self.workers)
    }

    /// Whether something can happen now. Only workers enter and leave the event gate, and its state
    /// gives the answer to one who enters.
    pub open spec fn possible(self, event: GatedEvent<E>) -> bool {
        match event {
            GatedEvent::Gate(op) => !(op is Enter) && !(op is Leave),
            GatedEvent::Worker { index, answer, .. } => {
                &&& 0 <= index < self.workers.len()
                &&& self.workers[index] is EnterGate ==> match self.gate.admission() {
                    Admission::Wait => !(answer is Entered),
                    Admission::Stopped => answer is Entered ==> answer
                        == EpollAnswerView::<E>::Entered(false),
                    Admission::Permit => answer is Entered ==> answer
                        == EpollAnswerView::<E>::Entered(true),
                }
            },
        }
    }

    /// What is the case after something has happened.
    pub open spec fn after(self, event: GatedEvent<E>) -> GatedWorkers<E> {
        match event {
            GatedEvent::Gate(op) => GatedWorkers { gate: self.gate.after(op), ..self },
            GatedEvent::Worker { index, setting, answer } => {
                let step = self.workers[index];
                GatedWorkers {
                    gate: if step is EnterGate && answer is Entered {
                        self.gate.after(GateOp::Enter)
                    } else if step is LeaveGate && answer is Left {
                        self.gate.after(GateOp::Leave)
                    } else {
                        self.gate
                    },
                    workers: self.workers.update(index, setting.next(step, answer)),
                }
            },
        }
    }
}

/// Changing one worker changes the number inside by that worker alone.
proof fn number_inside_update<E>(workers: Seq<EpollStepView<E>>, index: int, step: EpollStepView<E>)
    requires
        0 <= index < workers.len(),
    ensures
        number_inside(workers.update(index, step)) + (if inside_gate(workers[index]) {
            1int
        } else {
            0
        }) == number_inside(workers) + (if inside_gate(step) {
            1int
        } else {
            0
        }),
    decreases workers.len(),
{
    let updated = workers.update(index, step);
    if index == workers.len() - 1 {
        assert(updated.drop_last() =~= workers.drop_last());
    } else {
        assert(updated.drop_last() =~= workers.drop_last().update(index, step));
        number_inside_update(workers.drop_last(), index, step);
    }
}

/// A worker that is inside is counted.
proof fn inside_is_counted<E>(workers: Seq<EpollStepView<E>>, index: int)
    requires
        0 <= index < workers.len(),
        inside_gate(workers[index]),
    ensures
        number_inside(workers) > 0,
    decreases workers.len(),
{
    if index < workers.len() - 1 {
        assert(workers.drop_last()[index] == workers[index]);
        inside_is_counted(workers.drop_last(), index);
    }
}

/// Whatever happens, the event gate's count stays the number of workers inside it.
pub proof fn gate_counts_workers<E>(system: GatedWorkers<E>, event: GatedEvent<E>)
    requires
        system.counted(),
        system.possible(event),
    ensures
        system.after(event).counted(),
{
    if let GatedEvent::Worker { index, setting, answer } = event {
        let step = system.workers[index];
        permit_discipline(setting, step, answer);
        number_inside_update(system.workers, index, setting.next(step, answer));
        if inside_gate(step) {
            inside_is_counted(system.workers, index);
        }
    }
}

/// Once a suspended gate has been found empty, no worker reads a kick or is with the backend, and
/// none gets there, whatever happens short of a resume.
pub proof fn suspension_keeps_backend_quiet<E>(system: GatedWorkers<E>, event: GatedEvent<E>)
    requires
        system.counted(),
        system.possible(event),
        system.gate.suspended,
        system.gate.drain() == Drain::Empty,
    ensures
        forall|i: int|
            0 <= i < system.workers.len() ==> !(#[trigger] system.workers[i] is ReadKick)
                && !(system.workers[i] is HandleEvent),
        event != GatedEvent::<E>::Gate(GateOp::Resume) ==> {
            &&& system.after(event).counted()
            &&& system.after(event).gate.suspended
            &&& system.after(event).gate.drain() == Drain::Empty
        },
{
    gate_counts_workers(system, event);
    assert forall|i: int| 0 <= i < system.workers.len() implies !(
    #[trigger] system.workers[i] is ReadKick) && !(system.workers[i] is HandleEvent) by {
        if inside_gate(system.workers[i]) {
            inside_is_counted(system.workers, i);
        }
    }
    if let GatedEvent::Worker { index, .. } = event {
        if inside_gate(system.workers[index]) {
            inside_is_counted(system.workers, index);
        }
    }
}

impl<E> GatedWorkers<E> {
    /// Whether some things can happen one after the other.
    pub open spec fn all_possible(self, events: Seq<GatedEvent<E>>) -> bool
        decreases events.len(),
    {
        events.len() == 0 || (self.all_possible(events.drop_last()) && self.after_all(
            events.drop_last(),
        ).possible(events.last()))
    }

    /// What is the case after some things have happened one after the other.
    pub open spec fn after_all(self, events: Seq<GatedEvent<E>>) -> GatedWorkers<E>
        decreases events.len(),
    {
        if events.len() == 0 {
            self
        } else {
            self.after_all(events.drop_last()).after(events.last())
        }
    }
}

/// Whether nothing but answers to one worker happens.
pub open spec fn only_worker<E>(events: Seq<GatedEvent<E>>, index: int) -> bool {
    forall|i: int|
        0 <= i < events.len() ==> (#[trigger] events[i] is Worker && events[i]->index == index)
}

/// A worker gives back just the permit that it was given, on every path and whatever it is
/// answered: while nobody else uses the event gate, the count is the same whenever the worker is
/// outside, and is one more, so not zero, while it is inside. In particular it is not zero while
/// the worker reads a kick or is with the backend.
pub proof fn worker_gives_back_its_permit<E>(
    system: GatedWorkers<E>,
    events: Seq<GatedEvent<E>>,
    index: int,
)
    requires
        system.counted(),
        0 <= index < system.workers.len(),
        !inside_gate(system.workers[index]),
        system.all_possible(events),
        only_worker(events, index),
    ensures
        ({
            let after = system.after_all(events);
            &&& after.counted()
            &&& after.workers.len() == system.workers.len()
            &&& after.gate.in_flight == system.gate.in_flight + if inside_gate(
                after.workers[index],
            ) {
                1int
            } else {
                0
            }
        }),
    decreases events.len(),
{
    if events.len() > 0 {
        let earlier = events.drop_last();
        assert forall|i: int| 0 <= i < earlier.len() implies (#[trigger] earlier[i] is Worker
            && earlier[i]->index == index) by {
            assert(earlier[i] == events[i]);
        }
        worker_gives_back_its_permit(system, earlier, index);
        let before = system.after_all(earlier);
        let last = events[events.len() - 1];
        assert(last is Worker && last->index == index);
        gate_counts_workers(before, last);
        permit_discipline(last->setting, before.workers[index], last->answer);
        if inside_gate(before.workers[index]) {
            inside_is_counted(before.workers, index);
        }
    }
}

} // verus!
