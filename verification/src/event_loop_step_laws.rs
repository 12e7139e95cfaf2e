//! What the epoll worker does about each event and each answer.

use vstd::prelude::*;

use crate::batch::Batch;
use crate::error::{IoErrorKind, IoFailure, VringEpollError};
use crate::event_loop::{
    device_event_of, ControlOperation, EpollAnswer, EpollAnswerView, EpollSetting, EpollSetupAnswer,
    EpollSetupStep, EpollStep, EpollStepView, ReadyEvent, VringEpollHandler, EPOLL_EVENTS_LEN,
};
use crate::event_set::{events_have_their_epoll_numbers, EventSet};

verus! {

/// Only the exit event ends the worker. An event whose number is that of the exit event, the number
/// of queues, ends it if there is an exit event; every other event with known bits, below that
/// number as well as above, has to pass the event gate, with its number and its bits as they are.
pub proof fn only_the_exit_event_ends_the_worker<E>(setting: EpollSetting, events: Seq<ReadyEvent>)
    requires
        events.len() > 0,
        events[0].events & 0x0fff_dfe0 == 0,
    ensures
        setting.has_exit_event && events[0].data == setting.num_queues ==> setting.dispatch::<E>(
            events,
        ) == EpollStepView::<E>::Done(Ok(())),
        !setting.has_exit_event || events[0].data != setting.num_queues ==> setting.dispatch::<E>(
            events,
        ) == (EpollStepView::<E>::EnterGate {
            data: events[0].data,
            evset: events[0].events,
            rest: events.drop_first(),
        }),
{
    events_have_their_epoll_numbers(events[0].events);
}

/// The same holds of an event by itself, whatever its bits.
pub proof fn any_other_event_passes_the_event_gate<E>(
    setting: EpollSetting,
    data: u64,
    evset: u32,
    rest: Seq<ReadyEvent>,
)
    ensures
        setting.handling::<E>(data, evset, rest) == if setting.has_exit_event && data
            == setting.num_queues {
            EpollStepView::<E>::Done(Ok(()))
        } else {
            EpollStepView::<E>::EnterGate { data, evset, rest }
        },
{
}

/// An event with any bit that `epoll` does not define is reported and nothing else; where there are
/// no events left, the worker waits.
pub proof fn undefined_bits_are_reported<E>(setting: EpollSetting, events: Seq<ReadyEvent>)
    ensures
        events.len() > 0 && events[0].events & 0x0fff_dfe0 != 0 ==> setting.dispatch::<E>(events)
            == (EpollStepView::<E>::ReportUnknown {
            bits: events[0].events,
            rest: events.drop_first(),
        }),
        events.len() == 0 ==> setting.dispatch::<E>(events) == EpollStepView::<E>::Wait,
{
    if events.len() > 0 {
        events_have_their_epoll_numbers(events[0].events);
    }
}

/// The kick of every queue that has a vring here is read before anything else is done about it, and
/// the backend is told of the queue under its number. Where the vring is disabled the backend is not
/// called; where the kick cannot be read, that is what the worker ends with.
pub proof fn queues_are_kicked_and_handed_on<E>(
    setting: EpollSetting,
    data: u64,
    evset: u32,
    rest: Seq<ReadyEvent>,
    error: E,
)
    ensures
        ({
            let enter = EpollStepView::<E>::EnterGate { data, evset, rest };
            let kick = EpollStepView::<E>::ReadKick { data, evset, rest };
            &&& data < setting.num_vrings ==> setting.next(enter, EpollAnswerView::Entered(true))
                == kick
            &&& setting.next(kick, EpollAnswerView::Kicked(Ok(true))) == (EpollStepView::<
                E,
            >::HandleEvent { device_event: (data % 65536) as u16, evset, rest })
            &&& setting.next(kick, EpollAnswerView::Kicked(Ok(false))) == (EpollStepView::<
                E,
            >::LeaveGate { verdict: Ok(()), rest })
            &&& setting.next(kick, EpollAnswerView::Kicked(Err(error))) == (EpollStepView::<
                E,
            >::LeaveGate { verdict: Err(VringEpollError::HandleEventReadKick(error)), rest })
        }),
{
}

/// What has no vring here goes to the backend as soon as the event gate has let the worker in.
/// Whoever the event gate turns away ends, without an error.
pub proof fn other_events_are_handed_on<E>(
    setting: EpollSetting,
    data: u64,
    evset: u32,
    rest: Seq<ReadyEvent>,
)
    ensures
        ({
            let enter = EpollStepView::<E>::EnterGate { data, evset, rest };
            &&& data >= setting.num_vrings ==> setting.next(enter, EpollAnswerView::Entered(true))
                == (EpollStepView::<E>::HandleEvent {
                device_event: (data % 65536) as u16,
                evset,
                rest,
            })
            &&& setting.next(enter, EpollAnswerView::Entered(false)) == EpollStepView::<E>::Done(
                Ok(()),
            )
        }),
{
}

/// After the backend the worker leaves the event gate, and then goes on with the events that are
/// left, or ends with the error that the backend or the kick gave.
pub proof fn the_event_gate_is_left_after_each_event<E>(
    setting: EpollSetting,
    device_event: u16,
    evset: u32,
    rest: Seq<ReadyEvent>,
    error: E,
    reason: VringEpollError<E>,
)
    ensures
        ({
            let call = EpollStepView::<E>::HandleEvent { device_event, evset, rest };
            let well = EpollStepView::<E>::LeaveGate { verdict: Ok(()), rest };
            let badly = EpollStepView::<E>::LeaveGate { verdict: Err(reason), rest };
            &&& setting.next(call, EpollAnswerView::Handled(Ok(()))) == well
            &&& setting.next(call, EpollAnswerView::Handled(Err(error))) == (EpollStepView::<
                E,
            >::LeaveGate { verdict: Err(VringEpollError::HandleEventBackendHandling(error)), rest })
            &&& setting.next(well, EpollAnswerView::Left) == setting.dispatch::<E>(rest)
            &&& setting.next(badly, EpollAnswerView::Left) == EpollStepView::<E>::Done(Err(reason))
        }),
{
}

/// A wait that reports some events leads to just those: the first ones in the buffer, as many as
/// were reported, or all if there are fewer. An interrupted wait is made again, any other failure
/// ends the worker. A report of an ignored event leads to the events that are left. One wait asks
/// for at most a hundred events.
pub proof fn waits_lead_to_what_they_report<E>(
    setting: EpollSetting,
    count: usize,
    events: Seq<ReadyEvent>,
    failure: IoFailure<E>,
    bits: u32,
)
    ensures
        count <= events.len() ==> setting.next(
            EpollStepView::<E>::Wait,
            EpollAnswerView::Waited { result: Ok(count), events },
        ) == setting.dispatch::<E>(events.take(count as int)),
        count > events.len() ==> setting.next(
            EpollStepView::<E>::Wait,
            EpollAnswerView::Waited { result: Ok(count), events },
        ) == setting.dispatch::<E>(events),
        setting.next(
            EpollStepView::<E>::Wait,
            EpollAnswerView::Waited { result: Err(failure), events },
        ) == if failure.kind == IoErrorKind::Interrupted {
            EpollStepView::<E>::Wait
        } else {
            EpollStepView::<E>::Done(Err(VringEpollError::EpollWait(failure.error)))
        },
        setting.next(
            (EpollStepView::<E>::ReportUnknown { bits, rest: events }),
            EpollAnswerView::Reported,
        ) == setting.dispatch::<E>(events),
        EPOLL_EVENTS_LEN == 100,
{
    assert(events.take(events.len() as int) =~= events);
}

/// Whether an answer is one to this step.
pub open spec fn answers<E>(step: EpollStepView<E>, answer: EpollAnswerView<E>) -> bool {
    ||| step is Wait && answer is Waited
    ||| step is ReportUnknown && answer is Reported
    ||| step is EnterGate && answer is Entered
    ||| step is ReadKick && answer is Kicked
    ||| step is HandleEvent && answer is Handled
    ||| step is LeaveGate && answer is Left
}

/// An answer to some other request changes nothing, and nothing changes the end.
pub proof fn other_answers_change_nothing<E>(
    setting: EpollSetting,
    step: EpollStepView<E>,
    answer: EpollAnswerView<E>,
)
    ensures
        !answers(step, answer) ==> setting.next(step, answer) == step,
        step is Done ==> setting.next(step, answer) == step,
{
}

/// The backend is told of the low sixteen bits of a number, which are all of it if it has no more.
pub proof fn device_events_are_the_low_bits(data: u64)
    ensures
        device_event_of(data) == data % 65536,
        data < 65536 ==> device_event_of(data) == data,
{
}

/// A step and an answer mean what they hold.
pub proof fn steps_mean_what_they_hold<E>(
    bits: u32,
    data: u64,
    device_event: u16,
    evset: EventSet,
    rest: Batch<ReadyEvent>,
    result: Result<(), VringEpollError<E>>,
)
    ensures
        EpollStep::<E>::Wait@ == EpollStepView::<E>::Wait,
        (EpollStep::<E>::ReportUnknown { bits, rest })@ == (EpollStepView::<E>::ReportUnknown {
            bits,
            rest: rest@,
        }),
        (EpollStep::<E>::EnterGate { data, evset, rest })@ == (EpollStepView::<E>::EnterGate {
            data,
            evset: evset@,
            rest: rest@,
        }),
        (EpollStep::<E>::ReadKick { data, evset, rest })@ == (EpollStepView::<E>::ReadKick {
            data,
            evset: evset@,
            rest: rest@,
        }),
        (EpollStep::<E>::HandleEvent { device_event, evset, rest })@ == (EpollStepView::<
            E,
        >::HandleEvent { device_event, evset: evset@, rest: rest@ }),
        (EpollStep::<E>::LeaveGate { verdict: result, rest })@ == (EpollStepView::<E>::LeaveGate {
            verdict: result,
            rest: rest@,
        }),
        EpollStep::<E>::Done(result)@ == EpollStepView::<E>::Done(result),
{
}

/// An answer means what it holds.
pub proof fn answers_mean_what_they_hold<E>(
    waited: Result<usize, IoFailure<E>>,
    events: Vec<ReadyEvent>,
    permit: bool,
    kicked: Result<bool, E>,
    handled: Result<(), E>,
)
    ensures
        (EpollAnswer::<E>::Waited { result: waited, events })@ == (EpollAnswerView::<E>::Waited {
            result: waited,
            events: events@,
        }),
        EpollAnswer::<E>::Reported@ == EpollAnswerView::<E>::Reported,
        EpollAnswer::<E>::Entered(permit)@ == EpollAnswerView::<E>::Entered(permit),
        EpollAnswer::<E>::Kicked(kicked)@ == EpollAnswerView::<E>::Kicked(kicked),
        EpollAnswer::<E>::Handled(handled)@ == EpollAnswerView::<E>::Handled(handled),
        EpollAnswer::<E>::Left@ == EpollAnswerView::<E>::Left,
{
}

/// What the steps of a worker depend on is what its handler was made with, and the number of queues
/// that the backend states.
pub proof fn settings_are_those_of_the_handler<P, N>(
    handler: VringEpollHandler<P, N>,
    num_queues: usize,
)
    ensures
        handler.setting(num_queues).num_vrings == handler.spec_num_vrings(),
        handler.setting(num_queues).has_exit_event == (handler.spec_exit_event() is Some),
        handler.setting(num_queues).num_queues == num_queues,
{
}

/// A handler is created in order. The epoll descriptor comes first, and its failure ends the
/// creation. Then the backend is asked for its exit event. If it has none, the handler is done; if
/// it has one, its descriptor is to be watched for input, under the number of queues, and the
/// handler is done once it is; a failure of that ends the creation. A handler is made of what was
/// given on the way. An answer to some other request changes nothing, and nothing changes the end.
pub proof fn a_handler_is_created_in_order<P, N, E>(
    num_vrings: usize,
    thread_id: usize,
    step: EpollSetupStep<P, N, E>,
    answer: EpollSetupAnswer<P, N, E>,
    next: EpollSetupStep<P, N, E>,
)
    requires
        VringEpollHandler::<P, N>::setup_next(num_vrings, thread_id, step, answer, next),
    ensures
        step is CreateEpoll && answer is Created ==> match answer->Created_0 {
            Ok(epoll) => next == (EpollSetupStep::<P, N, E>::AskExitEvent { epoll }),
            Err(error) => next == EpollSetupStep::<P, N, E>::Done(
                Err(VringEpollError::EpollCreateFd(error)),
            ),
        },
        step is AskExitEvent && answer is ExitEvent && answer->event is None ==> {
            &&& next matches EpollSetupStep::Done(Ok(handler))
            &&& handler.spec_epoll() == step->AskExitEvent_epoll
            &&& handler.spec_exit_event() is None
            &&& handler.spec_num_vrings() == num_vrings
            &&& handler.spec_thread_id() == thread_id
        },
        step is AskExitEvent && answer is ExitEvent && answer->event is Some ==> {
            &&& next matches EpollSetupStep::Control { epoll, notifier, control }
            &&& epoll == step->AskExitEvent_epoll
            &&& notifier == answer->event->Some_0.1
            &&& control.operation == ControlOperation::Add
            &&& control.fd == answer->event->Some_0.0
            &&& control.evset@ == 0x1
            &&& control.data == answer->num_queues
        },
        step is Control && answer is Controlled ==> match answer->Controlled_0 {
            Ok(()) => {
                &&& next matches EpollSetupStep::Done(Ok(handler))
                &&& handler.spec_epoll() == step->Control_epoll
                &&& handler.spec_exit_event() == Some(step->notifier)
                &&& handler.spec_num_vrings() == num_vrings
                &&& handler.spec_thread_id() == thread_id
            },
            Err(error) => next == EpollSetupStep::<P, N, E>::Done(
                Err(VringEpollError::RegisterExitEvent(error)),
            ),
        },
        step is CreateEpoll && !(answer is Created) ==> next == step,
        step is AskExitEvent && !(answer is ExitEvent) ==> next == step,
        step is Control && !(answer is Controlled) ==> next == step,
        step is Done ==> next == step,
{
}

} // verus!
