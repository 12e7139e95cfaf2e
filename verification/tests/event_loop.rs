use vhost_user_backend::error::{IoErrorKind, IoFailure, VringEpollError};
use vhost_user_backend::event_loop::{
    ControlOperation, EpollAnswer, EpollControl, EpollSetupAnswer, EpollSetupStep, EpollStep,
    ReadyEvent, VringEpollHandler,
};
use vhost_user_backend::event_set::EventSet;
use vhost_user_backend::os::EINVAL;
use vmm_sys_util::epoll::{Epoll, EpollEvent};
use vmm_sys_util::event::{new_event_consumer_and_notifier, EventConsumer, EventFlag, EventNotifier};

type Handler = VringEpollHandler<Epoll, EventNotifier>;
type SetupStep = EpollSetupStep<Epoll, EventNotifier, std::io::Error>;

const NUM_QUEUES: usize = 2;

// The number of the descriptor that a value holds, out of its debug text.
fn raw_fd(value: &impl std::fmt::Debug) -> i32 {
    let text = format!("{value:?}");
    let digits: String = text
        .chars()
        .skip_while(|c| !c.is_ascii_digit())
        .take_while(|c| c.is_ascii_digit())
        .collect();
    digits.parse().unwrap()
}

fn outside_event(control: &EpollControl) -> EpollEvent {
    EpollEvent::new(
        vmm_sys_util::epoll::EventSet::from_bits(control.evset.bits()).unwrap(),
        control.data,
    )
}

fn make_change(epoll: &Epoll, control: EpollControl) -> std::io::Result<()> {
    let operation = match control.operation {
        ControlOperation::Add => vmm_sys_util::epoll::ControlOperation::Add,
        ControlOperation::Delete => vmm_sys_util::epoll::ControlOperation::Delete,
    };
    epoll.ctl(operation, control.fd, outside_event(&control))
}

// A handler, the number of its epoll descriptor, and its exit event.
fn new_handler(num_vrings: usize, thread_id: usize) -> (Handler, i32, EventConsumer) {
    let (exit_consumer, exit_notifier) =
        new_event_consumer_and_notifier(EventFlag::empty()).unwrap();
    let mut exit_notifier = Some(exit_notifier);
    let mut epoll_fd = -1;
    let mut step: SetupStep = Handler::new_with_gate();
    loop {
        let answer = match &step {
            EpollSetupStep::CreateEpoll => {
                let epoll = Epoll::new();
                epoll_fd = raw_fd(epoll.as_ref().unwrap());
                EpollSetupAnswer::Created(epoll)
            }
            EpollSetupStep::AskExitEvent { .. } => EpollSetupAnswer::ExitEvent {
                event: Some((raw_fd(&exit_consumer), exit_notifier.take().unwrap())),
                num_queues: NUM_QUEUES,
            },
            EpollSetupStep::Control { epoll, control, .. } => {
                assert_eq!(control.operation, ControlOperation::Add);
                assert_eq!(control.evset, EventSet::input());
                assert_eq!(control.data, NUM_QUEUES as u64);
                EpollSetupAnswer::Controlled(make_change(epoll, *control))
            }
            EpollSetupStep::Done(_) => break,
        };
        step = Handler::resume_new(num_vrings, thread_id, step, answer);
    }
    match step {
        EpollSetupStep::Done(Ok(handler)) => (handler, epoll_fd, exit_consumer),
        _ => panic!("no handler"),
    }
}

#[test]
fn test_vring_epoll_handler() {
    let (handler, epoll_fd, _exit_consumer) = new_handler(1, 0x1);

    let (consumer, _notifier) = new_event_consumer_and_notifier(EventFlag::empty()).unwrap();
    let fd = raw_fd(&consumer);
    let register = |data: u64| -> Result<(), String> {
        let control = handler
            .register_listener(NUM_QUEUES, fd, EventSet::input(), data)
            .map_err(|error| format!("{error:?}"))?;
        make_change(handler.epoll(), control).map_err(|error| format!("{error:?}"))
    };
    let unregister = |data: u64| -> Result<(), String> {
        let control = handler
            .unregister_listener(NUM_QUEUES, fd, EventSet::input(), data)
            .map_err(|error| format!("{error:?}"))?;
        make_change(handler.epoll(), control).map_err(|error| format!("{error:?}"))
    };

    register(3).unwrap();
    // Register an already registered fd.
    register(3).unwrap_err();
    // Register an invalid data.
    register(1).unwrap_err();

    unregister(3).unwrap();
    // unregister an already unregistered fd.
    unregister(3).unwrap_err();
    // unregister an invalid data.
    unregister(1).unwrap_err();
    // Check we retrieve the correct file descriptor
    assert_eq!(raw_fd(handler.epoll()), epoll_fd);
    assert_eq!(handler.thread_id(), 0x1);
}

#[test]
fn exit_event_is_reported_under_the_number_after_the_last_queue() {
    let (handler, _, _exit_consumer) = new_handler(2, 0);
    handler.send_exit_event().unwrap().notify().unwrap();
    let mut events = vec![EpollEvent::default(); 4];
    assert_eq!(handler.epoll().wait(0, &mut events).unwrap(), 1);
    let ready = ReadyEvent { events: events[0].events(), data: events[0].data() };
    assert_eq!(ready, ReadyEvent { events: 0x1, data: 2 });

    let step: EpollStep<String> = handler.run();
    let step = handler.resume(
        NUM_QUEUES,
        step,
        EpollAnswer::Waited { result: Ok(1), events: vec![ready] },
    );
    assert!(matches!(step, EpollStep::Done(Ok(()))));
}

// From here on the epoll descriptor and the exit notifier are plain values.
type PlainHandler = VringEpollHandler<u8, char>;
type PlainSetup = EpollSetupStep<u8, char, &'static str>;

fn plain_handler(num_vrings: usize, exit_event: bool) -> PlainHandler {
    let step: PlainSetup = PlainHandler::new_with_gate();
    let step = PlainHandler::resume_new(num_vrings, 7, step, EpollSetupAnswer::Created(Ok(9)));
    let event = if exit_event { Some((5, 'n')) } else { None };
    let step = PlainHandler::resume_new(
        num_vrings,
        7,
        step,
        EpollSetupAnswer::ExitEvent { event, num_queues: NUM_QUEUES },
    );
    let step = PlainHandler::resume_new(num_vrings, 7, step, EpollSetupAnswer::Controlled(Ok(())));
    match step {
        EpollSetupStep::Done(Ok(handler)) => handler,
        _ => panic!("no handler"),
    }
}

#[test]
fn creation_reports_what_failed() {
    let step: PlainSetup = PlainHandler::new_with_gate();
    let step = PlainHandler::resume_new(1, 0, step, EpollSetupAnswer::Created(Err("create")));
    assert!(matches!(
        step,
        EpollSetupStep::Done(Err(VringEpollError::EpollCreateFd("create")))
    ));

    let step: PlainSetup = EpollSetupStep::AskExitEvent { epoll: 9 };
    let step = PlainHandler::resume_new(
        1,
        0,
        step,
        EpollSetupAnswer::ExitEvent { event: Some((5, 'n')), num_queues: 4 },
    );
    match &step {
        EpollSetupStep::Control { control, .. } => {
            assert_eq!(control.fd, 5);
            assert_eq!(control.data, 4);
        }
        _ => panic!("no change"),
    }
    let step = PlainHandler::resume_new(1, 0, step, EpollSetupAnswer::Controlled(Err("ctl")));
    assert!(matches!(
        step,
        EpollSetupStep::Done(Err(VringEpollError::RegisterExitEvent("ctl")))
    ));
}

#[test]
fn handlers_keep_what_they_are_made_of() {
    let handler = plain_handler(1, true);
    assert_eq!(*handler.epoll(), 9);
    assert_eq!(handler.thread_id(), 7);
    assert_eq!(handler.send_exit_event(), Some(&'n'));
    assert_eq!(plain_handler(1, false).send_exit_event(), None);
}

#[test]
fn reserved_numbers_are_refused() {
    let handler = plain_handler(1, true);
    for data in 0..=2 {
        let error = handler.register_listener(2, 4, EventSet::input(), data).unwrap_err();
        assert_eq!(error.code, EINVAL);
        let error = handler.unregister_listener(2, 4, EventSet::input(), data).unwrap_err();
        assert_eq!(error.code, EINVAL);
    }
    let control = handler.register_listener(2, 4, EventSet::output(), 3).unwrap();
    assert_eq!(
        control,
        EpollControl { operation: ControlOperation::Add, fd: 4, evset: EventSet::output(), data: 3 }
    );
    let control = handler.unregister_listener(2, 4, EventSet::output(), 3).unwrap();
    assert_eq!(control.operation, ControlOperation::Delete);
    // A queue is registered under its own number.
    assert_eq!(handler.register_event(4, EventSet::input(), 0).data, 0);
    assert_eq!(handler.unregister_event(4, EventSet::input(), 0).data, 0);
}

fn waited(events: Vec<(u32, u64)>) -> EpollAnswer<&'static str> {
    EpollAnswer::Waited {
        result: Ok(events.len()),
        events: events
            .into_iter()
            .map(|(events, data)| ReadyEvent { events, data })
            .collect(),
    }
}

// Drives a handler through one batch with the way always open; gives the calls made and the last step.
fn drive(
    handler: &PlainHandler,
    answer: EpollAnswer<&'static str>,
    enabled: bool,
) -> (Vec<String>, EpollStep<&'static str>) {
    let mut calls: Vec<String> = Vec::new();
    let mut step = handler.resume(NUM_QUEUES, EpollStep::Wait, answer);
    loop {
        let answer = match &step {
            EpollStep::Wait | EpollStep::Done(_) => return (calls, step),
            EpollStep::ReportUnknown { bits, .. } => {
                calls.push(format!("unknown {bits:x}"));
                EpollAnswer::Reported
            }
            EpollStep::EnterGate { .. } => {
                calls.push("enter".to_string());
                EpollAnswer::Entered(true)
            }
            EpollStep::ReadKick { data, .. } => {
                calls.push(format!("kick {data}"));
                EpollAnswer::Kicked(Ok(enabled))
            }
            EpollStep::HandleEvent { device_event, evset, .. } => {
                calls.push(format!("handle {device_event} {:x}", evset.bits()));
                EpollAnswer::Handled(Ok(()))
            }
            EpollStep::LeaveGate { .. } => {
                calls.push("leave".to_string());
                EpollAnswer::Left
            }
        };
        step = handler.resume(NUM_QUEUES, step, answer);
    }
}

#[test]
fn a_batch_reaches_the_backend_in_order() {
    let handler = plain_handler(2, true);
    let batch = vec![(0x1, 1), (0x20, 0), (0x4, 3), (0x1, 0)];
    let (calls, step) = drive(&handler, waited(batch), true);
    assert!(matches!(step, EpollStep::Wait));
    assert_eq!(
        calls,
        [
            "enter", "kick 1", "handle 1 1", "leave", "unknown 20", "enter", "handle 3 4", "leave",
            "enter", "kick 0", "handle 0 1", "leave"
        ]
    );
}

#[test]
fn a_disabled_queue_is_not_processed() {
    let handler = plain_handler(2, true);
    let (calls, step) = drive(&handler, waited(vec![(0x1, 0), (0x1, 5)]), false);
    assert!(matches!(step, EpollStep::Wait));
    assert_eq!(calls, ["enter", "kick 0", "leave", "enter", "handle 5 1", "leave"]);

    let (calls, step) = drive(&handler, waited(vec![(0x1, 0), (0x1, 1), (0x1, 2), (0x1, 5)]), false);
    assert!(matches!(step, EpollStep::Done(Ok(()))));
    assert_eq!(calls, ["enter", "kick 0", "leave", "enter", "kick 1", "leave"]);
}

#[test]
fn the_exit_event_ends_the_loop() {
    let handler = plain_handler(2, true);
    let (calls, step) = drive(&handler, waited(vec![(0x1, 0), (0x1, 2), (0x1, 1)]), true);
    assert!(matches!(step, EpollStep::Done(Ok(()))));
    assert_eq!(calls, ["enter", "kick 0", "handle 0 1", "leave"]);

    // Without an exit event the number is an ordinary one.
    let handler = plain_handler(2, false);
    let (calls, step) = drive(&handler, waited(vec![(0x1, 2)]), true);
    assert!(matches!(step, EpollStep::Wait));
    assert_eq!(calls, ["enter", "handle 2 1", "leave"]);
}

#[test]
fn only_the_reported_events_are_looked_at() {
    let handler = plain_handler(0, true);
    let events = vec![ReadyEvent { events: 1, data: 3 }, ReadyEvent { events: 1, data: 4 }];
    let answer = EpollAnswer::Waited { result: Ok(1), events: events.clone() };
    let (calls, _) = drive(&handler, answer, true);
    assert_eq!(calls, ["enter", "handle 3 1", "leave"]);
    let answer = EpollAnswer::Waited { result: Ok(3), events };
    let (calls, _) = drive(&handler, answer, true);
    assert_eq!(calls, ["enter", "handle 3 1", "leave", "enter", "handle 4 1", "leave"]);
}

#[test]
fn listeners_with_large_numbers_reach_the_backend() {
    // Their low sixteen bits are those of a queue and of the exit event.
    let handler = plain_handler(2, true);
    for data in [0x1_0001, 0x1_0002, 1 << 63] {
        handler.register_listener(NUM_QUEUES, 4, EventSet::input(), data).unwrap();
    }
    let batch = vec![(0x1, 0x1_0001), (0x1, 0x1_0002), (0x1, 1 << 63), (0x1, 2), (0x1, 3)];
    let (calls, step) = drive(&handler, waited(batch), false);
    assert!(matches!(step, EpollStep::Done(Ok(()))));
    assert_eq!(
        calls,
        [
            "enter", "handle 1 1", "leave", "enter", "handle 2 1", "leave", "enter", "handle 0 1",
            "leave"
        ]
    );
}

#[test]
fn the_exit_event_ends_the_loop_with_many_queues() {
    let handler = plain_handler(2, true);
    let num_queues = 0x1_0000;
    let answer = waited(vec![(0x1, 0), (0x1, 0x1_0000)]);
    let step = handler.resume(num_queues, EpollStep::Wait, answer);
    assert!(matches!(step, EpollStep::EnterGate { data: 0, .. }));
    let step = handler.resume(num_queues, EpollStep::Wait, waited(vec![(0x1, 0x1_0000)]));
    assert!(matches!(step, EpollStep::Done(Ok(()))));
}

#[test]
fn queues_with_large_numbers_are_kicked() {
    let handler = plain_handler(0x1_0002, false);
    let (calls, _) = drive(&handler, waited(vec![(0x1, 0x1_0001)]), true);
    assert_eq!(calls, ["enter", "kick 65537", "handle 1 1", "leave"]);
}

#[test]
fn stopping_ends_the_loop() {
    let handler = plain_handler(2, true);
    let step = handler.resume(NUM_QUEUES, EpollStep::Wait, waited(vec![(0x1, 0)]));
    assert!(matches!(step, EpollStep::EnterGate { data: 0, .. }));
    let step = handler.resume(NUM_QUEUES, step, EpollAnswer::Entered(false));
    assert!(matches!(step, EpollStep::Done(Ok(()))));
}

#[test]
fn an_interrupted_wait_is_made_again() {
    let handler = plain_handler(2, true);
    let failed = |kind: IoErrorKind| EpollAnswer::Waited {
        result: Err(IoFailure { kind, error: "wait" }),
        events: Vec::new(),
    };
    let step = handler.resume(NUM_QUEUES, EpollStep::Wait, failed(IoErrorKind::Interrupted));
    assert!(matches!(step, EpollStep::Wait));
    let step = handler.resume(NUM_QUEUES, EpollStep::Wait, failed(IoErrorKind::WouldBlock));
    assert!(matches!(step, EpollStep::Done(Err(VringEpollError::EpollWait("wait")))));
    let step = handler.resume(NUM_QUEUES, EpollStep::Wait, failed(IoErrorKind::Other));
    assert!(matches!(step, EpollStep::Done(Err(VringEpollError::EpollWait("wait")))));
}

#[test]
fn failures_leave_before_they_end_the_loop() {
    let handler = plain_handler(2, true);
    let step = handler.resume(NUM_QUEUES, EpollStep::Wait, waited(vec![(0x1, 0), (0x1, 1)]));
    let step = handler.resume(NUM_QUEUES, step, EpollAnswer::Entered(true));
    let step = handler.resume(NUM_QUEUES, step, EpollAnswer::Kicked(Err("kick")));
    assert!(matches!(step, EpollStep::LeaveGate { .. }));
    let step = handler.resume(NUM_QUEUES, step, EpollAnswer::Left);
    assert!(matches!(step, EpollStep::Done(Err(VringEpollError::HandleEventReadKick("kick")))));

    let step = handler.resume(NUM_QUEUES, EpollStep::Wait, waited(vec![(0x1, 9)]));
    let step = handler.resume(NUM_QUEUES, step, EpollAnswer::Entered(true));
    let step = handler.resume(NUM_QUEUES, step, EpollAnswer::Handled(Err("backend")));
    assert!(matches!(step, EpollStep::LeaveGate { .. }));
    let step = handler.resume(NUM_QUEUES, step, EpollAnswer::Left);
    assert!(matches!(
        step,
        EpollStep::Done(Err(VringEpollError::HandleEventBackendHandling("backend")))
    ));
}

#[test]
fn an_answer_to_another_request_changes_nothing() {
    let handler = plain_handler(2, true);
    let step: EpollStep<&'static str> = handler.run();
    let step = handler.resume(NUM_QUEUES, step, EpollAnswer::Left);
    assert!(matches!(step, EpollStep::Wait));
}

#[test]
fn epoll_errors_are_described() {
    let text = |error: VringEpollError<()>| error.describe("cause");
    assert_eq!(text(VringEpollError::EpollCreateFd(())), "cannot create epoll fd: cause");
    assert_eq!(text(VringEpollError::EpollWait(())), "failed to wait for epoll event: cause");
    assert_eq!(text(VringEpollError::RegisterExitEvent(())), "cannot register exit event: cause");
    assert_eq!(
        text(VringEpollError::HandleEventReadKick(())),
        "cannot read vring kick event: cause"
    );
    assert_eq!(
        text(VringEpollError::HandleEventBackendHandling(())),
        "failed to handle epoll event: cause"
    );
}
