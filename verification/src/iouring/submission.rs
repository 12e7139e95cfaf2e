//! The entries that go on the submission queue of a ring.

use vstd::prelude::*;

use io_uring::squeue;

verus! {

/// `io_uring::squeue::Entry`, an entry for the submission queue. It is carried through and never
/// looked into.
#[verifier::external_type_specification]
#[verifier::external_body]
pub struct ExSqueueEntry(squeue::Entry);

/// The entry that `io_uring::opcode::PollAdd` builds to poll `fd` for `flags`, once or repeatedly.
pub uninterp spec fn poll_add_entry(fd: i32, flags: u32, multishot: bool) -> squeue::Entry;

/// The entry that `io_uring::opcode::PollRemove` builds to end the poll with the user data
/// `target`.
pub uninterp spec fn poll_remove_entry(target: u64) -> squeue::Entry;

/// What `io_uring::squeue::Entry::user_data` makes of an entry: the same entry with `user_data` for
/// its user data.
pub uninterp spec fn entry_with_user_data(entry: squeue::Entry, user_data: u64) -> squeue::Entry;

/// The user data of an entry, as `io_uring::squeue::Entry::get_user_data` reads it.
pub uninterp spec fn entry_user_data(entry: squeue::Entry) -> u64;

/// `io_uring::squeue::Entry::user_data` gives the entry with its user data replaced. It sets one
/// field of the entry, so the result depends on the entry and the user data alone, and that field,
/// which `io_uring::squeue::Entry::get_user_data` reads, holds what was set.
pub assume_specification[ squeue::Entry::user_data ](
    entry: squeue::Entry,
    user_data: u64,
) -> (tagged: squeue::Entry)
    ensures
        tagged == entry_with_user_data(entry, user_data),
        entry_user_data(tagged) == user_data,
;

/// `io_uring::opcode::PollAdd`: `new` takes a descriptor and flags, `multi` says whether the poll
/// is repeated, and `build` fills an entry from these alone.
#[verifier::external_body]
fn build_poll_add(fd: i32, flags: u32, multishot: bool) -> (entry: squeue::Entry)
    ensures
        entry == poll_add_entry(fd, flags, multishot),
{
    io_uring::opcode::PollAdd::new(io_uring::types::Fd(fd), flags).multi(multishot).build()
}

/// `io_uring::opcode::PollRemove`: `new` takes the user data of a poll, and `build` fills an entry
/// from it alone.
#[verifier::external_body]
fn build_poll_remove(target: u64) -> (entry: squeue::Entry)
    ensures
        entry == poll_remove_entry(target),
{
    io_uring::opcode::PollRemove::new(target).build()
}

/// A request that the worker puts on the submission queue.
#[derive(Clone, Copy, Debug, PartialEq, Eq, Structural)]
pub enum Submission {
    /// Poll a descriptor for events, once or repeatedly.
    PollAdd { fd: i32, flags: u32, multishot: bool, user_data: u64 },
    /// End the poll with the user data `target`.
    PollRemove { target: u64, user_data: u64 },
}

impl Submission {
    /// The user data of this request.
    pub open spec fn carried(self) -> u64 {
        match self {
            Submission::PollAdd { user_data, .. } => user_data,
            Submission::PollRemove { user_data, .. } => user_data,
        }
    }

    /// The entry for this request.
    pub open spec fn entry(self) -> squeue::Entry {
        match self {
            Submission::PollAdd { fd, flags, multishot, user_data } => entry_with_user_data(
                poll_add_entry(fd, flags, multishot),
                user_data,
            ),
            Submission::PollRemove { target, user_data } => entry_with_user_data(
                poll_remove_entry(target),
                user_data,
            ),
        }
    }

    /// The entry for this request.
    pub fn into_entry(self) -> (entry: squeue::Entry)
        ensures
            entry == self.entry(),
            entry_user_data(entry) == self.carried(),
    {
        match self {
            Submission::PollAdd { fd, flags, multishot, user_data } => build_poll_add(
                fd,
                flags,
                multishot,
            ).user_data(user_data),
            Submission::PollRemove { target, user_data } => build_poll_remove(target).user_data(
                user_data,
            ),
        }
    }
}

/// The entry for a request is built from all of the request and from nothing else, and carries the
/// user data of the request.
pub proof fn entries_are_built_from_requests(
    fd: i32,
    flags: u32,
    multishot: bool,
    target: u64,
    user_data: u64,
)
    ensures
        (Submission::PollAdd { fd, flags, multishot, user_data }).entry() == entry_with_user_data(
            poll_add_entry(fd, flags, multishot),
            user_data,
        ),
        (Submission::PollRemove { target, user_data }).entry() == entry_with_user_data(
            poll_remove_entry(target),
            user_data,
        ),
        (Submission::PollAdd { fd, flags, multishot, user_data }).carried() == user_data,
        (Submission::PollRemove { target, user_data }).carried() == user_data,
{
}

} // verus!
