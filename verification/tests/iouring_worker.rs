use vhost_user_backend::error::{
    submission_queue_full_text, IoError, IoErrorKind, IoFailure, VringIoUringError,
};
use vhost_user_backend::event_set::EventSet;
use vhost_user_backend::iouring::config::IoUringConfig;
use vhost_user_backend::iouring::context::{SubmitAnswer, SubmitStep, VhostUserBackendContext};
use vhost_user_backend::iouring::handler::{
    EventSource, UringSetupAnswer, UringSetupStep, VringIoUringHandler,
};
use vhost_user_backend::iouring::push::{push_entry, resume_push, PushAnswer, PushStep};
use vhost_user_backend::iouring::submission::Submission;
use vhost_user_backend::iouring::types::{
    Completion, IoUringCommand, IoUringCompletion, PollKind, PollRegistration,
    VhostUserBackendEvent,
};
use vhost_user_backend::iouring::worker::{
    AfterPush, Dispatcher, PollTurn, WorkerAnswer, WorkerStep,
};
use vhost_user_backend::os::{OsError, EINVAL};
use vhost_user_backend::user_data::{encode_user_data, USER_DATA_KIND_BACKEND};

type Step = WorkerStep<&'static str>;
type Answer = WorkerAnswer<&'static str>;

const COMMAND_FD: i32 = 10;
const EXIT_FD: i32 = 11;
const POLL: u64 = 0x1000_0000_0000_0000;
const CANCEL: u64 = 0x2000_0000_0000_0000;
const MORE: u32 = 2;

fn poll_add(fd: i32, flags: u32, multishot: bool, token: u64) -> Submission {
    Submission::PollAdd { fd, flags, multishot, user_data: POLL | token }
}

fn completion(user_data: u64, result: i32, flags: u32) -> Completion {
    Completion { user_data, result, flags }
}

fn pushed(step: &Step) -> Submission {
    match step {
        WorkerStep::Push { submission, .. } => *submission,
        _ => panic!("nothing is queued: {step:?}"),
    }
}

// A worker with two vrings that has started and waits.
fn started(multishot: bool, exit_event: bool) -> Dispatcher {
    let exit_fd = if exit_event { Some(EXIT_FD) } else { None };
    let mut worker = Dispatcher::new(COMMAND_FD, exit_fd, multishot, 2);
    let step: Step = worker.run();
    assert_eq!(pushed(&step), poll_add(COMMAND_FD, 1, multishot, 0));
    let mut step = worker.resume(step, WorkerAnswer::Pushed(Ok(())));
    if exit_event {
        assert_eq!(pushed(&step), poll_add(EXIT_FD, 1, multishot, 1));
        step = worker.resume(step, WorkerAnswer::Pushed(Ok(())));
    }
    assert!(matches!(step, WorkerStep::SubmitAndWait));
    worker
}

fn collected(worker: &mut Dispatcher, completions: Vec<Completion>) -> Step {
    let step: Step = worker.resume(WorkerStep::SubmitAndWait, WorkerAnswer::Waited(Ok(())));
    assert!(matches!(step, WorkerStep::Collect));
    worker.resume(step, WorkerAnswer::Collected(completions))
}

fn would_block() -> Answer {
    WorkerAnswer::Consumed(Err(IoFailure { kind: IoErrorKind::WouldBlock, error: "block" }))
}

// Has the worker carry out commands; gives the submissions made and the step after the last.
fn obey(worker: &mut Dispatcher, commands: Vec<IoUringCommand>) -> (Vec<Submission>, Step) {
    let mut submissions: Vec<Submission> = Vec::new();
    let step = collected(worker, vec![completion(POLL, 1, MORE)]);
    assert!(matches!(step, WorkerStep::ConsumeCommandEvent { .. }));
    let step = worker.resume(step, WorkerAnswer::Consumed(Ok(())));
    assert!(matches!(step, WorkerStep::ConsumeCommandEvent { .. }));
    let mut step = worker.resume(step, would_block());
    for command in commands {
        assert!(matches!(step, WorkerStep::PopCommand { .. }));
        step = worker.resume(step, WorkerAnswer::Popped(Some(command)));
        if let WorkerStep::Push { submission, .. } = &step {
            submissions.push(*submission);
            step = worker.resume(step, WorkerAnswer::Pushed(Ok(())));
        }
    }
    assert!(matches!(step, WorkerStep::PopCommand { .. }));
    let step = worker.resume(step, WorkerAnswer::Popped(None));
    (submissions, step)
}

fn add(token: u64, fd: i32, data: u64) -> IoUringCommand {
    IoUringCommand::Add { token, fd, evset: EventSet::input(), data }
}

type Handler = VringIoUringHandler<(), (), char>;

fn new_handler(num_vrings: usize, thread_id: usize) -> Handler {
    let source = |fd: i32| EventSource { fd, consumer: () };
    let next = |step, answer| Handler::resume_new::<()>(num_vrings, thread_id, step, answer);
    let step = Handler::new::<()>(IoUringConfig::default());
    let step = next(step, UringSetupAnswer::RingCreated(Ok(())));
    let step = next(step, UringSetupAnswer::ExitEvent(Some((source(EXIT_FD), 'e'))));
    let event = (source(COMMAND_FD), 'c');
    match next(step, UringSetupAnswer::CommandEventCreated(Ok(event))) {
        UringSetupStep::Done(Ok(handler)) => handler,
        _ => panic!("no handler"),
    }
}

#[test]
fn what_was_registered_before_the_start_is_watched() {
    let mut handler = new_handler(2, 0);
    let input = EventSet::input();
    handler.register_event(5, input, 0).unwrap();
    handler.register_event(6, input, 9).unwrap();
    handler.unregister_event(5, input, 0).unwrap();

    let mut worker = handler.run::<&'static str>().unwrap().dispatcher;
    let step: Step = worker.run();
    let step = worker.resume(step, WorkerAnswer::Pushed(Ok(())));
    worker.resume(step, WorkerAnswer::Pushed(Ok(())));
    let commands: Vec<IoUringCommand> = (0..3).map(|_| handler.pop_command().unwrap()).collect();
    assert_eq!(handler.pop_command(), None);
    obey(&mut worker, commands);

    let step = collected(
        &mut worker,
        vec![completion(POLL | 2, 1, MORE), completion(POLL | 3, 1, MORE)],
    );
    assert!(matches!(
        step,
        WorkerStep::CallBackend { event: VhostUserBackendEvent::Fd { device_event: 9, .. }, .. }
    ));
}

#[test]
fn test_backend_iouring_completion_dispatch() {
    let mut handler = new_handler(1, 0);
    let mut worker = handler.run::<&'static str>().unwrap().dispatcher;
    let context = VhostUserBackendContext::new(handler.thread_id());
    handler.register_listener(1, 7, EventSet::input(), 2).unwrap();
    let mut announced = true;
    let mut queued: Vec<u64> = Vec::new();
    let mut notified = false;
    let mut fd_events = 0;
    let mut completions = 0;

    let mut step: Step = worker.run();
    let result = loop {
        let answer: Answer = match &step {
            WorkerStep::Push { submission, .. } => {
                let entry = submission.into_entry();
                queued.push(entry.get_user_data());
                WorkerAnswer::Pushed(Ok(()))
            }
            WorkerStep::SubmitAndWait => WorkerAnswer::Waited(Ok(())),
            WorkerStep::Collect => {
                // The kernel: commands first, then the listener, then what the backend submitted,
                // and the exit event once the backend has seen its completion.
                if announced {
                    WorkerAnswer::Collected(vec![completion(POLL, 1, MORE)])
                } else if queued.contains(&0x123) {
                    queued.retain(|user_data| *user_data != 0x123);
                    WorkerAnswer::Collected(vec![completion(0x123, 0, 0)])
                } else if completions == 1 {
                    WorkerAnswer::Collected(vec![completion(POLL | 1, 1, MORE)])
                } else {
                    assert!(queued.contains(&(POLL | 2)));
                    assert!(!notified);
                    notified = true;
                    WorkerAnswer::Collected(vec![completion(POLL | 2, 1, MORE)])
                }
            }
            WorkerStep::ConsumeCommandEvent { .. } => {
                if announced {
                    announced = false;
                    WorkerAnswer::Consumed(Ok(()))
                } else {
                    would_block()
                }
            }
            WorkerStep::PopCommand { .. } => WorkerAnswer::Popped(handler.pop_command()),
            WorkerStep::ConsumeExitEvent => WorkerAnswer::Consumed(Ok(())),
            WorkerStep::ReadKick { .. } => panic!("a listener has no kick"),
            WorkerStep::CallBackend { event, .. } => {
                match event {
                    VhostUserBackendEvent::Fd { device_event, evset } => {
                        assert_eq!(*device_event, 2);
                        assert_eq!(*evset, EventSet::input());
                        fd_events += 1;
                        let nop = io_uring::opcode::Nop::new().build();
                        let entry = context.submit_entry(nop, 0x123).unwrap();
                        queued.push(entry.get_user_data());
                    }
                    VhostUserBackendEvent::IoUringCompletion(completion) => {
                        if completion.user_data == 0x123 && completion.result == 0 {
                            completions += 1;
                        }
                    }
                }
                WorkerAnswer::Handled(Ok(()))
            }
            WorkerStep::Done(_) => match step {
                WorkerStep::Done(result) => break result,
                _ => unreachable!(),
            },
        };
        step = worker.resume(step, answer);
    };
    result.unwrap();

    assert_eq!(fd_events, 1);
    assert_eq!(completions, 1);
}

#[test]
fn submissions_become_entries() {
    let add = poll_add(7, 0x2001, true, 5).into_entry();
    assert_eq!(add.get_user_data(), POLL | 5);
    assert_eq!(add.get_opcode(), u32::from(io_uring::opcode::PollAdd::CODE));
    let remove = Submission::PollRemove { target: POLL | 5, user_data: CANCEL | 5 }.into_entry();
    assert_eq!(remove.get_user_data(), CANCEL | 5);
    assert_eq!(remove.get_opcode(), u32::from(io_uring::opcode::PollRemove::CODE));
}

// Submits entries to a queue with room for a few; gives the user data of what is on the queue.
fn submit(
    context: &VhostUserBackendContext,
    entries: Vec<(io_uring::squeue::Entry, u64)>,
    room: usize,
) -> (Vec<u64>, Result<(), IoError<&'static str>>) {
    let mut entries = entries.into_iter();
    let mut queued: Vec<u64> = Vec::new();
    let mut step: SubmitStep<&'static str> = context.submit_entries();
    loop {
        let answer = match step {
            SubmitStep::TakeEntry => SubmitAnswer::Taken(entries.next()),
            SubmitStep::Push { ref entry } => {
                if queued.len() < room {
                    queued.push(entry.get_user_data());
                    SubmitAnswer::Pushed(Ok(()))
                } else {
                    SubmitAnswer::Pushed(Err(IoError::SubmissionQueueFull))
                }
            }
            SubmitStep::Done(result) => return (queued, result),
        };
        step = context.resume_submit(step, answer);
    }
}

#[test]
fn backend_entries_are_tagged() {
    let context = VhostUserBackendContext::new(3);
    assert_eq!(context.thread_id(), 3);
    let nop = || io_uring::opcode::Nop::new().build().user_data(9);
    assert_eq!(context.submit_entry(nop(), 0x123).unwrap().get_user_data(), 0x123);
    assert_eq!(context.submit_entry(nop(), 1 << 60).unwrap_err().code, EINVAL);

    let (tags, result) = submit(&context, vec![(nop(), 1), (nop(), 2)], 9);
    assert!(result.is_ok());
    assert_eq!(tags, [1, 2]);

    let (tags, result) = submit(&context, vec![(nop(), 1), (nop(), u64::MAX), (nop(), 2)], 9);
    assert!(matches!(result, Err(IoError::Os(OsError { code: EINVAL }))));
    assert_eq!(tags, [1]);

    let (tags, result) = submit(&context, Vec::new(), 9);
    assert!(result.is_ok());
    assert!(tags.is_empty());
}

#[test]
fn a_full_queue_ends_a_submission() {
    let context = VhostUserBackendContext::new(3);
    let nop = || io_uring::opcode::Nop::new().build();
    let entries = || vec![(nop(), 1), (nop(), 2), (nop(), u64::MAX), (nop(), 4)];

    let (tags, result) = submit(&context, entries(), 1);
    assert!(matches!(result, Err(IoError::SubmissionQueueFull)));
    assert_eq!(tags, [1]);
    let (tags, result) = submit(&context, entries(), 2);
    assert!(matches!(result, Err(IoError::Os(OsError { code: EINVAL }))));
    assert_eq!(tags, [1, 2]);
}

#[test]
fn entries_are_taken_one_at_a_time() {
    let context = VhostUserBackendContext::new(3);
    let nop = io_uring::opcode::Nop::new().build();
    let step: SubmitStep<&'static str> = context.submit_entries();
    let step = context.resume_submit(step, SubmitAnswer::Taken(Some((nop, 7))));
    match &step {
        SubmitStep::Push { entry } => assert_eq!(entry.get_user_data(), 7),
        _ => panic!("nothing is queued"),
    }
    let step = context.resume_submit(step, SubmitAnswer::Pushed(Err(IoError::Reported("submit"))));
    assert!(matches!(step, SubmitStep::Done(Err(IoError::Reported("submit")))));
}

#[test]
fn backend_completions_come_back_in_order() {
    let mut worker = started(true, true);
    let word = encode_user_data(USER_DATA_KIND_BACKEND, 0x42).unwrap();
    let step = collected(
        &mut worker,
        vec![completion(word, -5, 8), completion(CANCEL | 2, 0, 0), completion(0x43, 3, 0)],
    );
    let seen = |step: &Step| match step {
        WorkerStep::CallBackend { event: VhostUserBackendEvent::IoUringCompletion(c), .. } => *c,
        _ => panic!("the backend is not called"),
    };
    assert_eq!(seen(&step), IoUringCompletion { user_data: 0x42, result: -5, flags: 8 });
    let step = worker.resume(step, WorkerAnswer::Handled(Ok(())));
    assert_eq!(seen(&step), IoUringCompletion { user_data: 0x43, result: 3, flags: 0 });
    let step = worker.resume(step, WorkerAnswer::Handled(Ok(())));
    assert!(matches!(step, WorkerStep::SubmitAndWait));
}

#[test]
fn commands_start_and_end_polls() {
    let mut worker = started(true, true);
    let (submissions, step) = obey(
        &mut worker,
        vec![
            add(2, 7, 5),
            IoUringCommand::Add { token: 3, fd: 8, evset: EventSet::output(), data: 6 },
            IoUringCommand::Remove { token: 2 },
            IoUringCommand::Remove { token: 9 },
        ],
    );
    assert_eq!(
        submissions,
        [
            poll_add(7, 1, true, 2),
            poll_add(8, 4, true, 3),
            Submission::PollRemove { target: POLL | 2, user_data: CANCEL | 2 }
        ]
    );
    assert!(matches!(step, WorkerStep::SubmitAndWait));

    // The poll that has ended is passed over, the other is served.
    let step = collected(&mut worker, vec![completion(POLL | 2, -125, 0), completion(POLL | 3, 4, MORE)]);
    match step {
        WorkerStep::CallBackend {
            event: VhostUserBackendEvent::Fd { device_event: 6, evset },
            ..
        } => assert_eq!(evset, EventSet::output()),
        _ => panic!("the backend is not called"),
    }
}

#[test]
fn polls_that_are_not_armed_any_more_are_armed_again() {
    let mut worker = started(true, true);
    let (_, step) = obey(&mut worker, vec![add(2, 7, 5)]);
    assert!(matches!(step, WorkerStep::SubmitAndWait));

    // Still armed.
    let step = collected(&mut worker, vec![completion(POLL | 2, 1, MORE)]);
    let step = worker.resume(step, WorkerAnswer::Handled(Ok(())));
    assert!(matches!(step, WorkerStep::SubmitAndWait));

    // Not armed any more.
    let step = collected(&mut worker, vec![completion(POLL | 2, 1, 0)]);
    let step = worker.resume(step, WorkerAnswer::Handled(Ok(())));
    assert_eq!(pushed(&step), poll_add(7, 1, true, 2));
    let step = worker.resume(step, WorkerAnswer::Pushed(Ok(())));
    assert!(matches!(step, WorkerStep::SubmitAndWait));

    // In single shot mode a poll is armed again each time.
    let mut worker = started(false, true);
    let step = collected(&mut worker, vec![completion(POLL, 1, MORE)]);
    let step = worker.resume(step, would_block());
    let step = worker.resume(step, WorkerAnswer::Popped(None));
    assert_eq!(pushed(&step), poll_add(COMMAND_FD, 1, false, 0));
}

#[test]
fn multishot_polls_fall_back_to_single_shot() {
    let mut worker = started(true, true);
    let step = collected(&mut worker, vec![completion(POLL | 1, -EINVAL, 0)]);
    assert_eq!(pushed(&step), poll_add(EXIT_FD, 1, false, 1));
    let step = worker.resume(step, WorkerAnswer::Pushed(Ok(())));
    assert!(matches!(step, WorkerStep::SubmitAndWait));

    // A single shot poll that fails the same way is an error.
    let step = collected(&mut worker, vec![completion(POLL | 1, -EINVAL, 0)]);
    assert!(matches!(
        step,
        WorkerStep::Done(Err(VringIoUringError::SubmitAndWait(IoError::Os(OsError {
            code: EINVAL
        }))))
    ));
}

#[test]
fn a_failed_poll_ends_the_worker() {
    let mut worker = started(true, true);
    let step = collected(&mut worker, vec![completion(POLL, -libc::EBADF, 0)]);
    assert!(matches!(
        step,
        WorkerStep::Done(Err(VringIoUringError::SubmitAndWait(IoError::Os(OsError { code: 9 }))))
    ));
}

#[test]
fn queues_are_kicked_before_they_are_processed() {
    let mut worker = started(true, true);
    obey(&mut worker, vec![add(2, 7, 1)]);
    let step = collected(&mut worker, vec![completion(POLL | 2, 1, MORE)]);
    assert!(matches!(step, WorkerStep::ReadKick { data: 1, .. }));
    let step = worker.resume(step, WorkerAnswer::Kicked(Ok(true)));
    assert!(matches!(
        step,
        WorkerStep::CallBackend { event: VhostUserBackendEvent::Fd { device_event: 1, .. }, .. }
    ));

    let step = collected(&mut worker, vec![completion(POLL | 2, 1, 0)]);
    let step = worker.resume(step, WorkerAnswer::Kicked(Ok(false)));
    assert_eq!(pushed(&step), poll_add(7, 1, true, 2));

    let step = collected(&mut worker, vec![completion(POLL | 2, 1, MORE)]);
    let step = worker.resume(step, WorkerAnswer::Kicked(Err("kick")));
    assert!(matches!(step, WorkerStep::Done(Err(VringIoUringError::HandleEventReadKick("kick")))));
}

#[test]
fn completions_are_gone_through_once_and_in_order() {
    let mut worker = started(true, true);
    obey(&mut worker, vec![add(2, 7, 1), add(3, 8, 5)]);
    let step = collected(
        &mut worker,
        vec![
            completion(POLL | 3, 1, 0),
            completion(POLL | 9, 1, 0),
            completion(0x21, 0, 0),
            completion(POLL, 1, MORE),
            completion(POLL | 3, 4, MORE),
            completion(POLL | 2, 1, MORE),
            completion(0x22, 0, 0),
            completion(0x23, 0, 0),
        ],
    );
    // The listener is served and armed again.
    assert!(matches!(
        step,
        WorkerStep::CallBackend { event: VhostUserBackendEvent::Fd { device_event: 5, .. }, .. }
    ));
    let step = worker.resume(step, WorkerAnswer::Handled(Ok(())));
    assert_eq!(pushed(&step), poll_add(8, 1, true, 3));
    let step = worker.resume(step, WorkerAnswer::Pushed(Ok(())));
    // The stale completion is passed over.
    let seen = |step: &Step, user_data: u64| match step {
        WorkerStep::CallBackend { event: VhostUserBackendEvent::IoUringCompletion(c), .. } => {
            c.user_data == user_data
        }
        _ => false,
    };
    assert!(seen(&step, 0x21));
    let step = worker.resume(step, WorkerAnswer::Handled(Ok(())));
    // A command ends the poll of the listener, so its second completion is stale.
    let step = worker.resume(step, would_block());
    let step = worker.resume(
        step,
        WorkerAnswer::Popped(Some(IoUringCommand::Remove { token: 3 })),
    );
    let step = worker.resume(step, WorkerAnswer::Pushed(Ok(())));
    let step = worker.resume(step, WorkerAnswer::Popped(None));
    // The queue is found disabled.
    assert!(matches!(step, WorkerStep::ReadKick { data: 1, .. }));
    let step = worker.resume(step, WorkerAnswer::Kicked(Ok(false)));
    assert!(seen(&step, 0x22));
    // After the first failure nothing more is dispatched.
    let step = worker.resume(step, WorkerAnswer::Handled(Err("backend")));
    let step = worker.resume(step, WorkerAnswer::Handled(Ok(())));
    assert!(matches!(
        step,
        WorkerStep::Done(Err(VringIoUringError::HandleEventBackendHandling("backend")))
    ));
}

#[test]
fn tokens_are_not_used_twice() {
    let mut handler = new_handler(1, 0);
    let input = EventSet::input();
    let mut tokens: Vec<u64> = Vec::new();
    for _ in 0..3 {
        handler.register_event(7, input, 5).unwrap();
        handler.unregister_event(7, input, 5).unwrap();
    }
    while let Some(command) = handler.pop_command() {
        if let IoUringCommand::Add { token, .. } = command {
            tokens.push(token);
        }
    }
    assert_eq!(tokens, [2, 3, 4]);
}

#[test]
fn large_listeners_reach_the_backend() {
    // Their low sixteen bits are those of a queue.
    let mut handler = new_handler(1, 0);
    handler.register_listener(1, 7, EventSet::input(), 0x1_0000).unwrap();
    let mut worker = handler.run::<&'static str>().unwrap().dispatcher;
    let step: Step = worker.run();
    let step = worker.resume(step, WorkerAnswer::Pushed(Ok(())));
    worker.resume(step, WorkerAnswer::Pushed(Ok(())));
    let command = handler.pop_command().unwrap();
    obey(&mut worker, vec![command]);
    let step = collected(&mut worker, vec![completion(POLL | 2, 1, 0)]);
    match step {
        WorkerStep::CallBackend {
            event: VhostUserBackendEvent::Fd { device_event: 0, evset },
            ..
        } => assert_eq!(evset, EventSet::input()),
        _ => panic!("the backend is not called"),
    }
}

#[test]
fn a_cancel_is_aimed_at_the_poll() {
    let mut worker = started(true, true);
    let turn = PollTurn {
        token: 0,
        registration: PollRegistration {
            fd: 7,
            evset: EventSet::input(),
            data: 5,
            kind: PollKind::BackendFd,
            multishot: true,
        },
        more: true,
    };
    let after = AfterPush::DrainCommands(turn);
    let arm: Step = Dispatcher::arm_poll(9, turn.registration, after);
    assert_eq!(pushed(&arm), poll_add(7, 1, true, 9));
    let cancel: Step = Dispatcher::cancel_poll(9, after);
    assert_eq!(
        pushed(&cancel),
        Submission::PollRemove { target: POLL | 9, user_data: CANCEL | 9 }
    );
    let step = collected(&mut worker, vec![completion(CANCEL | 9, 0, 0)]);
    assert!(matches!(step, WorkerStep::SubmitAndWait));
    for refused in [
        Dispatcher::arm_poll::<&'static str>(1 << 60, turn.registration, after),
        Dispatcher::cancel_poll(1 << 60, after),
    ] {
        assert!(matches!(
            refused,
            WorkerStep::Done(Err(VringIoUringError::QueueSubmission(IoError::Os(OsError {
                code: EINVAL
            }))))
        ));
    }
}

#[test]
fn the_exit_event_ends_the_worker() {
    let mut worker = started(true, true);
    let step = collected(&mut worker, vec![completion(POLL | 1, 1, MORE), completion(5, 0, 0)]);
    assert!(matches!(step, WorkerStep::ConsumeExitEvent));
    let step = worker.resume(step, WorkerAnswer::Consumed(Ok(())));
    assert!(matches!(step, WorkerStep::Done(Ok(()))));

    // An exit event that cannot be read is an error, also where it would block.
    let mut worker = started(true, true);
    let step = collected(&mut worker, vec![completion(POLL | 1, 1, 0)]);
    let step = worker.resume(step, would_block());
    assert!(matches!(step, WorkerStep::Done(Err(VringIoUringError::ConsumeEvent("block")))));

    // Without an exit event there is no poll for it.
    let mut worker = started(true, false);
    let step = collected(&mut worker, vec![completion(POLL | 1, 1, MORE)]);
    assert!(matches!(step, WorkerStep::SubmitAndWait));
}

#[test]
fn failures_end_the_ring_worker() {
    let mut worker = started(true, true);
    let wait = |worker: &mut Dispatcher, kind: IoErrorKind| -> Step {
        worker.resume(
            WorkerStep::SubmitAndWait,
            WorkerAnswer::Waited(Err(IoFailure { kind, error: "wait" })),
        )
    };
    assert!(matches!(wait(&mut worker, IoErrorKind::Interrupted), WorkerStep::SubmitAndWait));
    assert!(matches!(
        wait(&mut worker, IoErrorKind::Other),
        WorkerStep::Done(Err(VringIoUringError::SubmitAndWait(IoError::Reported("wait"))))
    ));

    let step = collected(&mut worker, vec![completion(POLL, 1, MORE)]);
    let step = worker.resume(
        step,
        WorkerAnswer::Consumed(Err(IoFailure { kind: IoErrorKind::Other, error: "read" })),
    );
    assert!(matches!(step, WorkerStep::Done(Err(VringIoUringError::ConsumeEvent("read")))));

    let step = collected(&mut worker, vec![completion(0x1, 0, 0)]);
    let step = worker.resume(step, WorkerAnswer::Handled(Err("backend")));
    assert!(matches!(
        step,
        WorkerStep::Done(Err(VringIoUringError::HandleEventBackendHandling("backend")))
    ));

    let mut worker = Dispatcher::new(COMMAND_FD, None, true, 0);
    let step: Step = worker.run();
    let step = worker.resume(step, WorkerAnswer::Pushed(Err(IoError::SubmissionQueueFull)));
    assert!(matches!(
        step,
        WorkerStep::Done(Err(VringIoUringError::QueueSubmission(IoError::SubmissionQueueFull)))
    ));
}

#[test]
fn a_token_that_does_not_fit_ends_the_worker() {
    let mut worker = started(true, true);
    let step = collected(&mut worker, vec![completion(POLL, 1, MORE)]);
    let step = worker.resume(step, would_block());
    let step = worker.resume(step, WorkerAnswer::Popped(Some(add(1 << 60, 7, 5))));
    assert!(matches!(
        step,
        WorkerStep::Done(Err(VringIoUringError::QueueSubmission(IoError::Os(OsError {
            code: EINVAL
        }))))
    ));
}

#[test]
fn a_full_queue_is_submitted_once() {
    let step: PushStep<&'static str> = push_entry();
    assert!(matches!(step, PushStep::Push));
    assert!(matches!(resume_push(step, PushAnswer::Pushed(true)), PushStep::Done(Ok(()))));

    let step = resume_push(push_entry(), PushAnswer::Pushed(false));
    assert!(matches!(step, PushStep::<&'static str>::Submit));
    let step = resume_push(step, PushAnswer::Submitted(Ok(())));
    assert!(matches!(step, PushStep::PushAgain));
    assert!(matches!(resume_push(step, PushAnswer::Pushed(true)), PushStep::Done(Ok(()))));

    let step: PushStep<&'static str> = PushStep::PushAgain;
    let step = resume_push(step, PushAnswer::Pushed(false));
    assert!(matches!(step, PushStep::Done(Err(IoError::SubmissionQueueFull))));
    assert_eq!(submission_queue_full_text(), "submission queue is full");
    assert_eq!(
        IoError::<&'static str>::SubmissionQueueFull.kind(),
        Some(IoErrorKind::WouldBlock)
    );
    assert_eq!(IoError::Reported("submit").kind(), None);
    assert_eq!(IoError::<&'static str>::Os(OsError { code: EINVAL }).kind(), None);

    let step = resume_push(PushStep::Submit, PushAnswer::Submitted(Err("submit")));
    assert!(matches!(step, PushStep::Done(Err(IoError::Reported("submit")))));
}
