//! Putting an entry on the submission queue of a ring.

use vstd::prelude::*;

use crate::error::{IoError, IoErrorKind};

verus! {

/// What putting an entry on the queue asks of the surroundings next.
#[derive(Debug)]
pub enum PushStep<E> {
    /// Put the entry on the queue.
    Push,
    /// Submit what is on the queue, to make room.
    Submit,
    /// Put the entry on the queue, for the second time.
    PushAgain,
    /// Nothing: the entry is on the queue, or it could not be put there.
    Done(Result<(), IoError<E>>),
}

/// What the surroundings answer to a [`PushStep`].
#[derive(Debug)]
pub enum PushAnswer<E> {
    /// To `Push` and `PushAgain`: whether there was room for the entry.
    Pushed(bool),
    /// To `Submit`.
    Submitted(Result<(), E>),
}

/// The step after a step and the answer to it. An answer to some other request changes nothing.
pub open spec fn push_next<E>(step: PushStep<E>, answer: PushAnswer<E>) -> PushStep<E> {
    match (step, answer) {
        (PushStep::Push, PushAnswer::Pushed(true)) => PushStep::Done(Ok(())),
        (PushStep::Push, PushAnswer::Pushed(false)) => PushStep::Submit,
        (PushStep::Submit, PushAnswer::Submitted(Ok(()))) => PushStep::PushAgain,
        (PushStep::Submit, PushAnswer::Submitted(Err(error))) => PushStep::Done(
            Err(IoError::Reported(error)),
        ),
        (PushStep::PushAgain, PushAnswer::Pushed(true)) => PushStep::Done(Ok(())),
        (PushStep::PushAgain, PushAnswer::Pushed(false)) => PushStep::Done(
            Err(IoError::SubmissionQueueFull),
        ),
        _ => step,
    }
}

/// The first step in putting an entry on the queue.
pub fn push_entry<E>() -> (step: PushStep<E>)
    ensures
        step == PushStep::<E>::Push,
{
    PushStep::Push
}

/// The next step in putting an entry on the queue, given the answer to the last one: where there
/// is no room, the queue is submitted once and the entry is tried once more.
pub fn resume_push<E>(step: PushStep<E>, answer: PushAnswer<E>) -> (next: PushStep<E>)
    ensures
        next == push_next(step, answer),
{
    match (step, answer) {
        (PushStep::Push, PushAnswer::Pushed(fitted)) => if fitted {
            PushStep::Done(Ok(()))
        } else {
            PushStep::Submit
        },
        (PushStep::Submit, PushAnswer::Submitted(result)) => match result {
            Ok(()) => PushStep::PushAgain,
            Err(error) => PushStep::Done(Err(IoError::Reported(error))),
        },
        (PushStep::PushAgain, PushAnswer::Pushed(fitted)) => if fitted {
            PushStep::Done(Ok(()))
        } else {
            PushStep::Done(Err(IoError::SubmissionQueueFull))
        },
        (step, _) => step,
    }
}

/// The entry is reported as queued exactly if the queue took it, at the first or the second try.
pub proof fn queued_exactly_when_taken<E>(step: PushStep<E>, answer: PushAnswer<E>)
    requires
        !(step is Done),
    ensures
        push_next(step, answer) == PushStep::<E>::Done(Ok(())) <==> (step is Push
            || step is PushAgain) && answer == PushAnswer::<E>::Pushed(true),
{
}

/// A queue that stays full is reported as an error of the kind "would block", and nothing else that
/// can go wrong here is given that kind: a failed submit is reported as it is.
pub proof fn full_queue_would_block<E>(step: PushStep<E>, answer: PushAnswer<E>)
    requires
        !(step is Done),
    ensures
        (push_next(step, answer) matches PushStep::Done(Err(error)) && error.spec_kind() == Some(
            IoErrorKind::WouldBlock,
        )) <==> step is PushAgain && answer == PushAnswer::<E>::Pushed(false),
        step is Submit ==> (answer matches PushAnswer::Submitted(Err(error)) ==> push_next(
            step,
            answer,
        ) == PushStep::<E>::Done(Err(IoError::Reported(error)))),
{
}

/// An entry is tried at most twice, with one submit in between. A first try that fails leads to the
/// submit and no error; the submit leads to the second try if it succeeds, and is reported if it
/// fails; the second try decides. An answer to some other request changes nothing.
pub proof fn entry_is_tried_twice<E>(error: E, fitted: bool, submitted: Result<(), E>)
    ensures
        push_next(PushStep::<E>::Push, PushAnswer::Pushed(fitted)) == if fitted {
            PushStep::<E>::Done(Ok(()))
        } else {
            PushStep::<E>::Submit
        },
        push_next(PushStep::<E>::Submit, PushAnswer::Submitted(Ok(()))) == PushStep::<
            E,
        >::PushAgain,
        push_next(PushStep::<E>::Submit, PushAnswer::Submitted(Err(error))) == PushStep::<E>::Done(
            Err(IoError::Reported(error)),
        ),
        push_next(PushStep::<E>::PushAgain, PushAnswer::Pushed(fitted)) == if fitted {
            PushStep::<E>::Done(Ok(()))
        } else {
            PushStep::<E>::Done(Err(IoError::SubmissionQueueFull))
        },
        push_next(PushStep::<E>::Push, PushAnswer::Submitted(submitted)) == PushStep::<E>::Push,
        push_next(PushStep::<E>::Submit, PushAnswer::Pushed(fitted)) == PushStep::<E>::Submit,
        push_next(PushStep::<E>::PushAgain, PushAnswer::Submitted(submitted)) == PushStep::<
            E,
        >::PushAgain,
{
}

/// Once the outcome is known, nothing changes it.
pub proof fn push_is_done_once<E>(result: Result<(), IoError<E>>, answer: PushAnswer<E>)
    ensures
        push_next(PushStep::<E>::Done(result), answer) == PushStep::<E>::Done(result),
{
}

} // verus!
