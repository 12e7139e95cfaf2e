use io_uring::IoUring;
use vhost_user_backend::error::{IoError, VringIoUringError};
use vhost_user_backend::event_set::EventSet;
use vhost_user_backend::iouring::config::{IoUringConfig, RingOption, RingPlan};
use vhost_user_backend::iouring::handler::{
    EventOptions, EventSource, UringSetupAnswer, UringSetupStep, VringIoUringHandler,
};
use vhost_user_backend::iouring::types::IoUringCommand;
use vhost_user_backend::os::{EBADF, EEXIST, EINVAL, ENOENT};
use vmm_sys_util::event::{new_event_consumer_and_notifier, EventFlag};

type Handler = VringIoUringHandler<Option<IoUring>, u8, char>;
type Step = UringSetupStep<Option<IoUring>, u8, char, &'static str>;
type Answer = UringSetupAnswer<Option<IoUring>, u8, char, &'static str>;

const NUM_QUEUES: usize = 2;

fn source(fd: i32, consumer: u8) -> EventSource<u8> {
    EventSource { fd, consumer }
}

// The ring of a plan, where the machine has io_uring.
fn build(plan: &RingPlan) -> Option<IoUring> {
    let mut builder = IoUring::builder();
    for option in &plan.options {
        match option {
            RingOption::CompletionQueueSize(entries) => builder.setup_cqsize(*entries),
            RingOption::SubmissionQueuePolling(idle) => builder.setup_sqpoll(*idle),
        };
    }
    builder.build(plan.entries).ok()
}

fn new_handler(num_vrings: usize, exit_event: bool, config: IoUringConfig) -> Handler {
    let mut step: Step = Handler::new(config);
    loop {
        let answer: Answer = match &step {
            UringSetupStep::CreateRing { plan, .. } => {
                UringSetupAnswer::RingCreated(Ok(build(plan)))
            }
            UringSetupStep::AskExitEvent { .. } => UringSetupAnswer::ExitEvent(if exit_event {
                Some((source(11, 1), 'e'))
            } else {
                None
            }),
            UringSetupStep::CreateCommandEvent { options, .. } => {
                assert_eq!(
                    *options,
                    EventOptions { nonblocking: true, close_on_exec: true }
                );
                UringSetupAnswer::CommandEventCreated(Ok((source(12, 2), 'c')))
            }
            UringSetupStep::Done(_) => break,
        };
        step = Handler::resume_new(num_vrings, 0x1, step, answer);
    }
    match step {
        UringSetupStep::Done(Ok(handler)) => handler,
        _ => panic!("no handler"),
    }
}

#[test]
fn test_vring_iouring_handler_registration() {
    let mut handler = new_handler(1, true, IoUringConfig::default());

    let (consumer, _notifier) = new_event_consumer_and_notifier(EventFlag::empty()).unwrap();
    let text = format!("{consumer:?}");
    let digits: String = text
        .chars()
        .skip_while(|c| !c.is_ascii_digit())
        .take_while(|c| c.is_ascii_digit())
        .collect();
    let fd: i32 = digits.parse().unwrap();
    handler
        .register_listener(NUM_QUEUES, fd, EventSet::input(), 3)
        .unwrap();
    handler
        .register_listener(NUM_QUEUES, fd, EventSet::input(), 3)
        .unwrap_err();
    handler
        .register_listener(NUM_QUEUES, fd, EventSet::input(), 1)
        .unwrap_err();
    handler
        .unregister_listener(NUM_QUEUES, fd, EventSet::input(), 3)
        .unwrap();
    handler
        .unregister_listener(NUM_QUEUES, fd, EventSet::input(), 3)
        .unwrap_err();
    handler
        .unregister_listener(NUM_QUEUES, fd, EventSet::input(), 1)
        .unwrap_err();
}

#[test]
fn each_refusal_has_its_own_error() {
    let mut handler = new_handler(1, true, IoUringConfig::default());
    let input = EventSet::input();
    assert_eq!(handler.register_listener(2, 4, input, 2).unwrap_err().code, EINVAL);
    assert_eq!(handler.unregister_listener(2, 4, input, 0).unwrap_err().code, EINVAL);
    assert_eq!(handler.register_listener(2, -1, input, 3).unwrap_err().code, EBADF);
    assert_eq!(handler.register_event(-5, input, 0).unwrap_err().code, libc::EBADF);
    assert_eq!(handler.unregister_event(4, input, 3).unwrap_err().code, ENOENT);
    assert_eq!(handler.pop_command(), None);

    handler.register_event(4, input, 3).unwrap();
    assert_eq!(handler.register_event(4, input, 9).unwrap_err().code, EEXIST);
    assert_eq!(handler.unregister_event(4, input, 4).unwrap_err().code, ENOENT);
    assert_eq!(
        handler.unregister_event(4, EventSet::output(), 3).unwrap_err().code,
        libc::ENOENT
    );
    handler.unregister_event(4, input, 3).unwrap();
    assert_eq!(handler.unregister_event(4, input, 3).unwrap_err().code, ENOENT);
}

#[test]
fn the_worker_is_told_of_registrations_in_order() {
    let mut handler = new_handler(1, true, IoUringConfig::default());
    let input = EventSet::input();
    handler.register_event(4, input, 0).unwrap();
    handler.register_event(5, EventSet::output(), 7).unwrap();
    // A refused registration uses up a token, but an impossible descriptor does not.
    handler.register_event(4, input, 0).unwrap_err();
    handler.register_event(-1, input, 0).unwrap_err();
    handler.unregister_event(4, input, 0).unwrap();
    handler.register_event(4, input, 1).unwrap();

    let add = |token: u64, fd: i32, evset: EventSet, data: u64| IoUringCommand::Add {
        token,
        fd,
        evset,
        data,
    };
    assert_eq!(handler.pop_command(), Some(add(2, 4, input, 0)));
    assert_eq!(handler.pop_command(), Some(add(3, 5, EventSet::output(), 7)));
    assert_eq!(handler.pop_command(), Some(IoUringCommand::Remove { token: 2 }));
    assert_eq!(handler.pop_command(), Some(add(5, 4, input, 1)));
    assert_eq!(handler.pop_command(), None);
}

#[test]
fn a_worker_starts_once() {
    let mut handler = new_handler(3, true, IoUringConfig::default());
    assert_eq!(handler.send_exit_event(), Some(&'e'));
    assert_eq!(handler.command_notifier(), &'c');
    assert_eq!(handler.thread_id(), 0x1);

    let worker = handler.run::<&'static str>().unwrap();
    assert_eq!(worker.command_consumer.fd, 12);
    assert_eq!(worker.command_consumer.consumer, 2);
    assert_eq!(worker.exit_event_consumer.unwrap().fd, 11);
    assert!(matches!(
        handler.run::<&'static str>(),
        Err(VringIoUringError::AlreadyStarted)
    ));
    // What others need stays with the handler.
    assert_eq!(handler.send_exit_event(), Some(&'e'));

    let mut handler = new_handler(3, false, IoUringConfig::default());
    assert_eq!(handler.send_exit_event(), None);
    assert!(handler.run::<&'static str>().unwrap().exit_event_consumer.is_none());
}

#[test]
fn ring_creation_reports_what_failed() {
    let step: Step = Handler::new(IoUringConfig::default());
    let step = Handler::resume_new(1, 0, step, UringSetupAnswer::RingCreated(Err("ring")));
    assert!(matches!(
        step,
        UringSetupStep::Done(Err(VringIoUringError::IoUringCreate("ring")))
    ));

    let step: Step = Handler::new(IoUringConfig::default());
    let step = Handler::resume_new(1, 0, step, UringSetupAnswer::RingCreated(Ok(None)));
    let step = Handler::resume_new(1, 0, step, UringSetupAnswer::ExitEvent(None));
    let step = Handler::resume_new(
        1,
        0,
        step,
        UringSetupAnswer::CommandEventCreated(Err("event")),
    );
    assert!(matches!(
        step,
        UringSetupStep::Done(Err(VringIoUringError::CreateEvent("event")))
    ));
}

#[test]
fn default_configuration() {
    let config = IoUringConfig::default();
    assert_eq!(config.entries, 256);
    assert_eq!(config.cq_entries, Some(512));
    assert!(config.multishot_poll);
    assert_eq!(config.sqpoll_idle_ms, None);
    let plan = config.build_ring();
    assert_eq!(plan.entries, 256);
    assert_eq!(plan.options, [RingOption::CompletionQueueSize(512)]);
}

#[test]
fn every_configured_option_is_set() {
    let config = IoUringConfig {
        entries: 8,
        cq_entries: Some(16),
        multishot_poll: false,
        sqpoll_idle_ms: Some(100),
    };
    assert_eq!(
        config.build_ring().options,
        [
            RingOption::CompletionQueueSize(16),
            RingOption::SubmissionQueuePolling(100)
        ]
    );
    let config = IoUringConfig { cq_entries: None, sqpoll_idle_ms: None, ..config };
    assert!(config.build_ring().options.is_empty());
    assert_eq!(config.build_ring().entries, 8);
}

#[test]
fn io_uring_errors_are_described() {
    let text = |error: VringIoUringError<()>| error.describe("cause");
    assert_eq!(text(VringIoUringError::IoUringCreate(())), "cannot create io_uring: cause");
    assert_eq!(text(VringIoUringError::CreateEvent(())), "cannot create eventfd: cause");
    assert_eq!(
        text(VringIoUringError::QueueSubmission(IoError::SubmissionQueueFull)),
        "cannot queue SQE: cause"
    );
    assert_eq!(
        text(VringIoUringError::SubmitAndWait(IoError::Reported(()))),
        "failed to submit or wait for io_uring event: cause"
    );
    assert_eq!(text(VringIoUringError::ConsumeEvent(())), "cannot consume eventfd: cause");
    assert_eq!(
        text(VringIoUringError::HandleEventReadKick(())),
        "cannot read vring kick event: cause"
    );
    assert_eq!(
        text(VringIoUringError::HandleEventBackendHandling(())),
        "failed to handle io_uring event: cause"
    );
    assert_eq!(text(VringIoUringError::AlreadyStarted), "io_uring worker already started");
}
