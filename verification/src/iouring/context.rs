//! What a backend can do on the ring of the worker that calls it.

use vstd::prelude::*;

use io_uring::squeue;

use crate::error::IoError;
use crate::iouring::submission::{entry_user_data, entry_with_user_data};
use crate::os::{OsError, EINVAL};
use crate::user_data::{
    backend_words_are_payloads, encode_user_data, encoded, USER_DATA_KIND_BACKEND,
    VHOST_USER_BACKEND_USER_DATA_MASK,
};

verus! {

/// Context passed to backend callbacks running on an io_uring worker thread.
#[derive(Debug)]
pub struct VhostUserBackendContext {
    thread_id: usize,
}

/// The entry that a backend's entry goes on the queue as, or `EINVAL` if its user data uses a
/// reserved bit.
pub open spec fn backend_entry(entry: squeue::Entry, user_data: u64) -> Result<
    squeue::Entry,
    OsError,
> {
    match encoded(USER_DATA_KIND_BACKEND, user_data) {
        Ok(word) => Ok(entry_with_user_data(entry, word)),
        Err(error) => Err(error),
    }
}

/// What submitting several entries asks of the surroundings next.
#[derive(Debug)]
pub enum SubmitStep<E> {
    /// Take the next of the entries to submit, with its user data.
    TakeEntry,
    /// Put the entry on the queue.
    Push { entry: squeue::Entry },
    /// Nothing: the request is done.
    Done(Result<(), IoError<E>>),
}

/// What the surroundings answer to a [`SubmitStep`].
#[derive(Debug)]
pub enum SubmitAnswer<E> {
    /// To `TakeEntry`: the entry, or `None` if there is none left.
    Taken(Option<(squeue::Entry, u64)>),
    /// To `Push`.
    Pushed(Result<(), IoError<E>>),
}

/// The step after a step and the answer to it. An answer to some other request changes nothing.
pub open spec fn submit_next<E>(step: SubmitStep<E>, answer: SubmitAnswer<E>) -> SubmitStep<E> {
    match (step, answer) {
        (SubmitStep::TakeEntry, SubmitAnswer::Taken(None)) => SubmitStep::Done(Ok(())),
        (SubmitStep::TakeEntry, SubmitAnswer::Taken(Some((entry, user_data)))) => {
            match backend_entry(entry, user_data) {
                Ok(entry) => SubmitStep::Push { entry },
                Err(error) => SubmitStep::Done(Err(IoError::Os(error))),
            }
        },
        (SubmitStep::Push { .. }, SubmitAnswer::Pushed(Ok(()))) => SubmitStep::TakeEntry,
        (SubmitStep::Push { .. }, SubmitAnswer::Pushed(Err(error))) => SubmitStep::Done(Err(error)),
        _ => step,
    }
}

impl VhostUserBackendContext {
    /// The number of the worker.
    pub closed spec fn spec_thread_id(self) -> usize {
        self.thread_id
    }

    /// The context of the worker numbered `thread_id`.
    pub fn new(thread_id: usize) -> (context: VhostUserBackendContext)
        ensures
            context.spec_thread_id() == thread_id,
    {
        VhostUserBackendContext { thread_id }
    }

    /// Worker thread id associated with this io_uring.
    pub fn thread_id(&self) -> (thread_id: usize)
        ensures
            thread_id == self.spec_thread_id(),
    {
        self.thread_id
    }

    /// Submit one backend SQE using the shared worker io_uring: the entry to put on its queue.
    ///
    /// The top 4 bits of `user_data` are reserved by the library and must be zero; otherwise the
    /// entry is refused with `EINVAL`.
    pub fn submit_entry(
        &self,
        entry: squeue::Entry,
        user_data: u64,
    ) -> (tagged: Result<squeue::Entry, OsError>)
        ensures
            tagged == backend_entry(entry, user_data),
            tagged matches Ok(tagged) ==> entry_user_data(tagged) == user_data,
    {
        match encode_user_data(USER_DATA_KIND_BACKEND, user_data) {
            Ok(word) => Ok(entry.user_data(word)),
            Err(error) => Err(error),
        }
    }

    /// Submit several backend SQEs using the shared worker io_uring: the first step.
    ///
    /// The top 4 bits of each `user_data` value are reserved by the library and must be zero.
    pub fn submit_entries<E>(&self) -> (step: SubmitStep<E>)
        ensures
            step == SubmitStep::<E>::TakeEntry,
    {
        SubmitStep::TakeEntry
    }

    /// The next step in submitting several entries, given the answer to the last one. The entries
    /// are taken one at a time. The first that is refused, because of its user data or by the
    /// queue, ends the request with that error; the entries before it stay on the queue, and those
    /// after it are not even taken.
    pub fn resume_submit<E>(&self, step: SubmitStep<E>, answer: SubmitAnswer<E>) -> (next:
        SubmitStep<E>)
        ensures
            next == submit_next(step, answer),
            step is TakeEntry ==> (next matches SubmitStep::Push { entry } ==> answer
                matches SubmitAnswer::Taken(Some((_, user_data))) && entry_user_data(entry)
                == user_data),
    {
        match (step, answer) {
            (SubmitStep::TakeEntry, SubmitAnswer::Taken(taken)) => match taken {
                Some((entry, user_data)) => match self.submit_entry(entry, user_data) {
                    Ok(entry) => SubmitStep::Push { entry },
                    Err(error) => SubmitStep::Done(Err(IoError::Os(error))),
                },
                None => SubmitStep::Done(Ok(())),
            },
            (SubmitStep::Push { .. }, SubmitAnswer::Pushed(result)) => match result {
                Ok(()) => SubmitStep::TakeEntry,
                Err(error) => SubmitStep::Done(Err(error)),
            },
            (step, _) => step,
        }
    }
}

/// How many steps there are still to take before another entry is taken.
pub open spec fn steps_to_take<E>(step: SubmitStep<E>) -> nat {
    match step {
        SubmitStep::Push { .. } => 2,
        SubmitStep::TakeEntry => 1,
        SubmitStep::Done(_) => 0,
    }
}

/// What becomes of a request to submit `entries`, from a step on at which `taken` of them have been
/// taken: the entries that are put on the queue, in their order, and what the request is answered.
/// `pushes` says of each entry what comes of putting it on the queue.
pub open spec fn submitted<E>(
    entries: Seq<(squeue::Entry, u64)>,
    pushes: spec_fn(int) -> Result<(), IoError<E>>,
    taken: nat,
    step: SubmitStep<E>,
) -> (Seq<squeue::Entry>, Result<(), IoError<E>>)
    decreases entries.len() - taken, steps_to_take(step),
{
    match step {
        SubmitStep::TakeEntry => if taken < entries.len() {
            let answer = SubmitAnswer::Taken(Some(entries[taken as int]));
            submitted(entries, pushes, taken + 1, submit_next(step, answer))
        } else {
            submitted(entries, pushes, taken, submit_next(step, SubmitAnswer::Taken(None)))
        },
        SubmitStep::Push { entry } => {
            let result = pushes(taken - 1);
            let later = submitted(
                entries,
                pushes,
                taken,
                submit_next(step, SubmitAnswer::Pushed(result)),
            );
            if result is Ok {
                (seq![entry] + later.0, later.1)
            } else {
                later
            }
        },
        SubmitStep::Done(result) => (Seq::empty(), result),
    }
}

/// Why an entry is not submitted, if it is not: its user data uses a reserved bit, or it could not
/// be put on the queue.
pub open spec fn entry_failure<E>(
    entry: (squeue::Entry, u64),
    push: Result<(), IoError<E>>,
) -> Option<IoError<E>> {
    if entry.1 > VHOST_USER_BACKEND_USER_DATA_MASK {
        Some(IoError::Os(OsError { code: EINVAL }))
    } else {
        match push {
            Ok(()) => None,
            Err(error) => Some(error),
        }
    }
}

/// Whether, of the entries from `taken` on, just those before the first that fails are put on the
/// queue, and the answer is the error of that one, or success if there is none.
pub open spec fn stops_at_first_failure<E>(
    entries: Seq<(squeue::Entry, u64)>,
    pushes: spec_fn(int) -> Result<(), IoError<E>>,
    taken: nat,
    queued: Seq<squeue::Entry>,
    answer: Result<(), IoError<E>>,
) -> bool {
    &&& taken + queued.len() <= entries.len()
    &&& forall|i: int|
        0 <= i < queued.len() ==> {
            let (entry, user_data) = entries[taken + i];
            &&& #[trigger] queued[i] == entry_with_user_data(entry, user_data)
            &&& entry_failure(entries[taken + i], pushes(taken + i)) is None
        }
    &&& match answer {
        Ok(()) => taken + queued.len() == entries.len(),
        Err(error) => {
            let refused = (taken + queued.len()) as int;
            &&& refused < entries.len()
            &&& entry_failure(entries[refused], pushes(refused)) == Some(error)
        },
    }
}

/// What becomes of the entries that have not been taken yet.
proof fn later_entries_are_submitted<E>(
    entries: Seq<(squeue::Entry, u64)>,
    pushes: spec_fn(int) -> Result<(), IoError<E>>,
    taken: nat,
)
    requires
        taken <= entries.len(),
    ensures
        ({
            let (queued, answer) = submitted(entries, pushes, taken, SubmitStep::TakeEntry);
            stops_at_first_failure(entries, pushes, taken, queued, answer)
        }),
    decreases entries.len() - taken,
{
    reveal_with_fuel(submitted, 3);
    if taken < entries.len() {
        later_entries_are_submitted(entries, pushes, taken + 1);
        let first = entries[taken as int];
        backend_words_are_payloads(first.1);
        let (queued, answer) = submitted(entries, pushes, taken, SubmitStep::TakeEntry);
        let later = submitted(entries, pushes, taken + 1, SubmitStep::TakeEntry);
        match (backend_entry(first.0, first.1), pushes(taken as int)) {
            (Ok(entry), Ok(())) => {
                assert(queued == seq![entry] + later.0);
                assert(answer == later.1);
                assert forall|i: int| 0 <= i < queued.len() implies {
                    &&& #[trigger] queued[i] == entry_with_user_data(
                        entries[taken + i].0,
                        entries[taken + i].1,
                    )
                    &&& entry_failure(entries[taken + i], pushes(taken + i)) is None
                } by {
                    if i > 0 {
                        assert(queued[i] == later.0[i - 1]);
                    }
                }
            },
            (Ok(_), Err(error)) => {
                assert(queued.len() == 0);
                assert(answer == Err::<(), IoError<E>>(error));
            },
            (Err(error), _) => {
                assert(queued.len() == 0);
                assert(answer == Err::<(), IoError<E>>(IoError::Os(error)));
            },
        }
    }
}

/// A request to submit entries puts them on the queue in their order, each once and with its own
/// user data, up to the first that fails. It is answered with the error of that one, and what is on
/// the queue before it stays there; if none fails it succeeds, with all entries on the queue.
pub proof fn entries_are_submitted_up_to_the_first_failure<E>(
    entries: Seq<(squeue::Entry, u64)>,
    pushes: spec_fn(int) -> Result<(), IoError<E>>,
)
    ensures
        ({
            let (queued, answer) = submitted(entries, pushes, 0, SubmitStep::TakeEntry);
            stops_at_first_failure(entries, pushes, 0, queued, answer)
        }),
{
    later_entries_are_submitted(entries, pushes, 0);
}

/// A backend may use all user data but for the top four bits: an entry with any user data below
/// them is accepted, and nothing but its user data is changed; one that uses any of them is refused
/// with error number 22.
pub proof fn backends_have_sixty_bits(entry: squeue::Entry, user_data: u64)
    ensures
        user_data <= 0x0fff_ffff_ffff_ffff ==> backend_entry(entry, user_data) == Ok::<
            squeue::Entry,
            OsError,
        >(entry_with_user_data(entry, user_data)),
        user_data > 0x0fff_ffff_ffff_ffff ==> backend_entry(entry, user_data) == Err::<
            squeue::Entry,
            OsError,
        >(OsError { code: 22 }),
{
}

/// Several entries are submitted like one after the other: each that is taken is put on the queue
/// if a backend may use its user data, and ends the request if not; each that is on the queue leads
/// to the next; one that cannot be put there ends the request with the reason; and a request ends
/// well when there are no entries left. An answer to some other request changes nothing.
pub proof fn entries_are_submitted_one_by_one<E>(
    entry: squeue::Entry,
    user_data: u64,
    error: IoError<E>,
    taken: Option<(squeue::Entry, u64)>,
    pushed: Result<(), IoError<E>>,
    result: Result<(), IoError<E>>,
    answer: SubmitAnswer<E>,
)
    ensures
        submit_next(SubmitStep::<E>::TakeEntry, SubmitAnswer::Taken(Some((entry, user_data)))) == if
            user_data <= 0x0fff_ffff_ffff_ffff {
            SubmitStep::<E>::Push { entry: entry_with_user_data(entry, user_data) }
        } else {
            SubmitStep::<E>::Done(Err(IoError::Os(OsError { code: 22 })))
        },
        submit_next(SubmitStep::<E>::TakeEntry, SubmitAnswer::Taken(None)) == SubmitStep::<E>::Done(
            Ok(()),
        ),
        submit_next((SubmitStep::<E>::Push { entry }), SubmitAnswer::Pushed(Ok(()))) == SubmitStep::<
            E,
        >::TakeEntry,
        submit_next((SubmitStep::<E>::Push { entry }), SubmitAnswer::Pushed(Err(error)))
            == SubmitStep::<E>::Done(Err(error)),
        submit_next(SubmitStep::<E>::TakeEntry, SubmitAnswer::Pushed(pushed)) == SubmitStep::<
            E,
        >::TakeEntry,
        submit_next((SubmitStep::<E>::Push { entry }), SubmitAnswer::Taken(taken)) == (SubmitStep::<
            E,
        >::Push { entry }),
        submit_next(SubmitStep::<E>::Done(result), answer) == SubmitStep::<E>::Done(result),
{
}

} // verus!
