//! Sets of file descriptor events, and their translation to and from `poll` flags.

use vstd::prelude::*;

verus! {

/// Ready for reading.
pub const EVENT_IN: u32 = 0x1;

/// Exceptional condition, such as urgent data.
pub const EVENT_PRIORITY: u32 = 0x2;

/// Ready for writing.
pub const EVENT_OUT: u32 = 0x4;

/// Error condition.
pub const EVENT_ERROR: u32 = 0x8;

/// Hang up.
pub const EVENT_HANG_UP: u32 = 0x10;

/// The peer shut down its writing half.
pub const EVENT_READ_HANG_UP: u32 = 0x2000;

/// Every event and mode bit that an event set can hold: the six above, and the modes exclusive,
/// wake up, one shot and edge triggered.
pub const EVENT_ALL: u32 = 0xf000_201f;

/// `poll` flag: ready for reading.
pub const POLL_IN: u32 = 0x1;

/// `poll` flag: exceptional condition.
pub const POLL_PRIORITY: u32 = 0x2;

/// `poll` flag: ready for writing.
pub const POLL_OUT: u32 = 0x4;

/// `poll` flag: error condition.
pub const POLL_ERROR: u32 = 0x8;

/// `poll` flag: hang up.
pub const POLL_HANG_UP: u32 = 0x10;

/// `poll` flag: the peer shut down its writing half.
pub const POLL_READ_HANG_UP: u32 = 0x2000;

/// Whether `bits` holds none but the bits that an event set can hold.
pub open spec fn known_events(bits: u32) -> bool {
    bits & !EVENT_ALL == 0
}

/// A set of file descriptor events, as `epoll` numbers them. It holds no unknown bit.
#[derive(Clone, Copy, Debug, PartialEq, Eq, Structural)]
pub struct EventSet {
    bits: u32,
}

impl View for EventSet {
    type V = u32;

    closed spec fn view(&self) -> u32 {
        self.bits
    }
}

/// The constant `vmm_sys_util::epoll::EventSet::IN` as a number: `EPOLLIN`, which is 0x1.
#[verifier::external_body]
fn outside_in() -> (bits: u32)
    ensures
        bits == EVENT_IN,
{
    vmm_sys_util::epoll::EventSet::IN.bits()
}

/// The constant `vmm_sys_util::epoll::EventSet::PRIORITY` as a number: `EPOLLPRI`, which is 0x2.
#[verifier::external_body]
fn outside_priority() -> (bits: u32)
    ensures
        bits == EVENT_PRIORITY,
{
    vmm_sys_util::epoll::EventSet::PRIORITY.bits()
}

/// The constant `vmm_sys_util::epoll::EventSet::OUT` as a number: `EPOLLOUT`, which is 0x4.
#[verifier::external_body]
fn outside_out() -> (bits: u32)
    ensures
        bits == EVENT_OUT,
{
    vmm_sys_util::epoll::EventSet::OUT.bits()
}

/// The constant `vmm_sys_util::epoll::EventSet::ERROR` as a number: `EPOLLERR`, which is 0x8.
#[verifier::external_body]
fn outside_error() -> (bits: u32)
    ensures
        bits == EVENT_ERROR,
{
    vmm_sys_util::epoll::EventSet::ERROR.bits()
}

/// The constant `vmm_sys_util::epoll::EventSet::HANG_UP` as a number: `EPOLLHUP`, which is 0x10.
#[verifier::external_body]
fn outside_hang_up() -> (bits: u32)
    ensures
        bits == EVENT_HANG_UP,
{
    vmm_sys_util::epoll::EventSet::HANG_UP.bits()
}

/// The constant `vmm_sys_util::epoll::EventSet::READ_HANG_UP` as a number: `EPOLLRDHUP`, which is
/// 0x2000.
#[verifier::external_body]
fn outside_read_hang_up() -> (bits: u32)
    ensures
        bits == EVENT_READ_HANG_UP,
{
    vmm_sys_util::epoll::EventSet::READ_HANG_UP.bits()
}

/// `vmm_sys_util::epoll::EventSet::from_bits`, with the set taken as its bits: it accepts exactly
/// the words without an unknown bit, and keeps them as they are.
#[verifier::external_body]
fn outside_from_bits(bits: u32) -> (set: Option<u32>)
    ensures
        set == (if known_events(bits) { Some(bits) } else { None }),
{
    vmm_sys_util::epoll::EventSet::from_bits(bits).map(|set| set.bits())
}

/// `vmm_sys_util::epoll::EventSet::contains`, with both sets taken as their bits: whether every bit
/// of `other` is one of `set`.
#[verifier::external_body]
fn outside_contains(set: u32, other: u32) -> (contained: bool)
    requires
        known_events(set),
        known_events(other),
    ensures
        contained == (set & other == other),
{
    vmm_sys_util::epoll::EventSet::from_bits_truncate(set).contains(
        vmm_sys_util::epoll::EventSet::from_bits_truncate(other),
    )
}

/// The operator `|=` of `vmm_sys_util::epoll::EventSet`, with the sets taken as their bits: the
/// bits of both.
#[verifier::external_body]
fn outside_union(set: u32, other: u32) -> (union: u32)
    requires
        known_events(set),
        known_events(other),
    ensures
        union == set | other,
{
    let mut union = vmm_sys_util::epoll::EventSet::from_bits_truncate(set);
    union |= vmm_sys_util::epoll::EventSet::from_bits_truncate(other);
    union.bits()
}

impl EventSet {
    #[verifier::type_invariant]
    spec fn type_inv(self) -> bool {
        known_events(self.bits)
    }

    /// The set that stands for a word.
    pub closed spec fn of_bits(bits: u32) -> EventSet {
        EventSet { bits }
    }

    /// The set that a word stands for, or `None` where the word holds an unknown bit.
    pub fn from_bits(bits: u32) -> (set: Option<EventSet>)
        ensures
            set is Some <==> known_events(bits),
            set matches Some(set) ==> set@ == bits,
    {
        match outside_from_bits(bits) {
            Some(bits) => Some(EventSet { bits }),
            None => None,
        }
    }

    /// The word that stands for the set.
    pub fn bits(&self) -> (bits: u32)
        ensures
            bits == self@,
            known_events(bits),
    {
        proof {
            use_type_invariant(self);
        }
        self.bits
    }

    /// The set without any event.
    pub fn empty() -> (set: EventSet)
        ensures
            set@ == 0,
    {
        assert(0u32 & !0xf000_201fu32 == 0) by (bit_vector);
        EventSet { bits: 0 }
    }

    /// The event "ready for reading".
    pub fn input() -> (set: EventSet)
        ensures
            set@ == EVENT_IN,
    {
        assert(0x1u32 & !0xf000_201fu32 == 0) by (bit_vector);
        EventSet { bits: outside_in() }
    }

    /// The event "ready for writing".
    pub fn output() -> (set: EventSet)
        ensures
            set@ == EVENT_OUT,
    {
        assert(0x4u32 & !0xf000_201fu32 == 0) by (bit_vector);
        EventSet { bits: outside_out() }
    }

    /// The event "error condition".
    pub fn error() -> (set: EventSet)
        ensures
            set@ == EVENT_ERROR,
    {
        assert(0x8u32 & !0xf000_201fu32 == 0) by (bit_vector);
        EventSet { bits: outside_error() }
    }

    /// The event "hang up".
    pub fn hang_up() -> (set: EventSet)
        ensures
            set@ == EVENT_HANG_UP,
    {
        assert(0x10u32 & !0xf000_201fu32 == 0) by (bit_vector);
        EventSet { bits: outside_hang_up() }
    }

    /// The event "exceptional condition".
    pub fn priority() -> (set: EventSet)
        ensures
            set@ == EVENT_PRIORITY,
    {
        assert(0x2u32 & !0xf000_201fu32 == 0) by (bit_vector);
        EventSet { bits: outside_priority() }
    }

    /// The event "the peer shut down its writing half".
    pub fn read_hang_up() -> (set: EventSet)
        ensures
            set@ == EVENT_READ_HANG_UP,
    {
        assert(0x2000u32 & !0xf000_201fu32 == 0) by (bit_vector);
        EventSet { bits: outside_read_hang_up() }
    }

    /// Whether every event of `other` is in this set.
    pub fn contains(&self, other: EventSet) -> (contained: bool)
        ensures
            contained == (self@ & other@ == other@),
    {
        proof {
            use_type_invariant(self);
            use_type_invariant(&other);
        }
        outside_contains(self.bits, other.bits)
    }

    /// The events of both sets.
    pub fn union(self, other: EventSet) -> (union: EventSet)
        ensures
            union@ == self@ | other@,
    {
        proof {
            use_type_invariant(&self);
            use_type_invariant(&other);
            let a = self.bits;
            let b = other.bits;
            assert((a | b) & !0xf000_201fu32 == 0) by (bit_vector)
                requires
                    a & !0xf000_201fu32 == 0,
                    b & !0xf000_201fu32 == 0,
            ;
        }
        EventSet { bits: outside_union(self.bits, other.bits) }
    }
}

/// A set is determined by its bits.
pub broadcast proof fn event_set_of_bits(set: EventSet)
    ensures
        EventSet::of_bits(#[trigger] set@) == set,
{
}

/// The bits of the set that stands for a word are that word.
pub broadcast proof fn bits_of_event_set(bits: u32)
    ensures
        #[trigger] EventSet::of_bits(bits)@ == bits,
{
}

/// The flag `to` if all of `from` is in `bits`, no flag otherwise.
pub open spec fn carry_flag(bits: u32, from: u32, to: u32) -> u32 {
    if bits & from == from {
        to
    } else {
        0
    }
}

/// The `poll` flags for a word of events: each of the six events that `poll` knows is carried over
/// to its flag, and nothing else is.
pub open spec fn poll_flags_of(events: u32) -> u32 {
    carry_flag(events, EVENT_IN, POLL_IN) | carry_flag(events, EVENT_OUT, POLL_OUT) | carry_flag(
        events,
        EVENT_ERROR,
        POLL_ERROR,
    ) | carry_flag(events, EVENT_HANG_UP, POLL_HANG_UP) | carry_flag(
        events,
        EVENT_PRIORITY,
        POLL_PRIORITY,
    ) | carry_flag(events, EVENT_READ_HANG_UP, POLL_READ_HANG_UP)
}

/// The events for a word of `poll` flags: each of the six flags is carried over to its event, and
/// nothing else is.
pub open spec fn events_of(poll_flags: u32) -> u32 {
    carry_flag(poll_flags, POLL_IN, EVENT_IN) | carry_flag(poll_flags, POLL_OUT, EVENT_OUT)
        | carry_flag(poll_flags, POLL_ERROR, EVENT_ERROR) | carry_flag(
        poll_flags,
        POLL_HANG_UP,
        EVENT_HANG_UP,
    ) | carry_flag(poll_flags, POLL_PRIORITY, EVENT_PRIORITY) | carry_flag(
        poll_flags,
        POLL_READ_HANG_UP,
        EVENT_READ_HANG_UP,
    )
}

/// The constant `libc::POLLIN`, which is 0x1.
#[verifier::external_body]
fn libc_pollin() -> (flag: u32)
    ensures
        flag == POLL_IN,
{
    libc::POLLIN as u32
}

/// The constant `libc::POLLOUT`, which is 0x4.
#[verifier::external_body]
fn libc_pollout() -> (flag: u32)
    ensures
        flag == POLL_OUT,
{
    libc::POLLOUT as u32
}

/// The constant `libc::POLLERR`, which is 0x8.
#[verifier::external_body]
fn libc_pollerr() -> (flag: u32)
    ensures
        flag == POLL_ERROR,
{
    libc::POLLERR as u32
}

/// The constant `libc::POLLHUP`, which is 0x10.
#[verifier::external_body]
fn libc_pollhup() -> (flag: u32)
    ensures
        flag == POLL_HANG_UP,
{
    libc::POLLHUP as u32
}

/// The constant `libc::POLLPRI`, which is 0x2.
#[verifier::external_body]
fn libc_pollpri() -> (flag: u32)
    ensures
        flag == POLL_PRIORITY,
{
    libc::POLLPRI as u32
}

/// The constant `libc::POLLRDHUP`, which is 0x2000 on every machine that `io_uring` has bindings
/// for.
#[verifier::external_body]
fn libc_pollrdhup() -> (flag: u32)
    ensures
        flag == POLL_READ_HANG_UP,
{
    libc::POLLRDHUP as u32
}

/// The `poll` flags to ask for, to be told of the events of a set. Events and modes that `poll`
/// does not know are left out.
pub fn event_set_to_poll_flags(evset: EventSet) -> (flags: u32)
    ensures
        flags == poll_flags_of(evset@),
{
    let mut flags: u32 = 0;
    if evset.contains(EventSet::input()) {
        flags |= libc_pollin();
    }
    if evset.contains(EventSet::output()) {
        flags |= libc_pollout();
    }
    if evset.contains(EventSet::error()) {
        flags |= libc_pollerr();
    }
    if evset.contains(EventSet::hang_up()) {
        flags |= libc_pollhup();
    }
    if evset.contains(EventSet::priority()) {
        flags |= libc_pollpri();
    }
    if evset.contains(EventSet::read_hang_up()) {
        flags |= libc_pollrdhup();
    }
    proof {
        bits_or_zero();
    }
    flags
}

/// The events that a word of `poll` flags reports. Flags that stand for no event of a set are left
/// out.
pub fn poll_flags_to_event_set(flags: u32) -> (evset: EventSet)
    ensures
        evset@ == events_of(flags),
{
    let mut evset = EventSet::empty();
    if flags & libc_pollin() != 0 {
        evset = evset.union(EventSet::input());
    }
    if flags & libc_pollout() != 0 {
        evset = evset.union(EventSet::output());
    }
    if flags & libc_pollerr() != 0 {
        evset = evset.union(EventSet::error());
    }
    if flags & libc_pollhup() != 0 {
        evset = evset.union(EventSet::hang_up());
    }
    if flags & libc_pollpri() != 0 {
        evset = evset.union(EventSet::priority());
    }
    if flags & libc_pollrdhup() != 0 {
        evset = evset.union(EventSet::read_hang_up());
    }
    proof {
        bits_or_zero();
        single_bit_tests(flags);
    }
    evset
}

/// Zero is neutral for `|`.
proof fn bits_or_zero()
    ensures
        forall|a: u32| #[trigger] (a | 0u32) == a,
        forall|a: u32| #[trigger] (0u32 | a) == a,
{
    assert(forall|a: u32| #[trigger] (a | 0u32) == a) by (bit_vector);
    assert(forall|a: u32| #[trigger] (0u32 | a) == a) by (bit_vector);
}

/// A single bit is wholly in a word exactly if it has something in common with the word.
proof fn single_bit_tests(flags: u32)
    ensures
        (flags & 0x1 != 0) == (flags & 0x1 == 0x1),
        (flags & 0x2 != 0) == (flags & 0x2 == 0x2),
        (flags & 0x4 != 0) == (flags & 0x4 == 0x4),
        (flags & 0x8 != 0) == (flags & 0x8 == 0x8),
        (flags & 0x10 != 0) == (flags & 0x10 == 0x10),
        (flags & 0x2000 != 0) == (flags & 0x2000 == 0x2000),
{
    assert(((flags & 0x1 != 0) == (flags & 0x1 == 0x1)) && ((flags & 0x2 != 0) == (flags & 0x2
        == 0x2)) && ((flags & 0x4 != 0) == (flags & 0x4 == 0x4)) && ((flags & 0x8 != 0) == (flags
        & 0x8 == 0x8)) && ((flags & 0x10 != 0) == (flags & 0x10 == 0x10)) && ((flags & 0x2000 != 0)
        == (flags & 0x2000 == 0x2000))) by (bit_vector);
}

/// The events that `poll` knows.
pub const POLLABLE_EVENTS: u32 = 0x201f;

/// Both translations keep the numbers of the six events and drop every other bit.
pub proof fn translations_keep_numbers(word: u32)
    ensures
        poll_flags_of(word) == word & POLLABLE_EVENTS,
        events_of(word) == word & POLLABLE_EVENTS,
{
    assert(poll_flags_of(word) == word & 0x201f) by (bit_vector);
    assert(events_of(word) == word & 0x201f) by (bit_vector);
}

/// Asking `poll` for a set of events, and reading the flags back, gives the events of the set that
/// `poll` knows; a set of none but those comes back unchanged.
pub proof fn events_survive_poll_flags(events: u32)
    ensures
        events_of(poll_flags_of(events)) == events & POLLABLE_EVENTS,
        events & !POLLABLE_EVENTS == 0 ==> events_of(poll_flags_of(events)) == events,
        known_events(events_of(events)),
{
    translations_keep_numbers(events);
    translations_keep_numbers(poll_flags_of(events));
    assert((events & 0x201f) & 0x201f == events & 0x201f) by (bit_vector);
    assert(events & !0x201fu32 == 0 ==> events & 0x201f == events) by (bit_vector);
    assert((events & 0x201f) & !0xf000_201fu32 == 0) by (bit_vector);
}

/// A word stands for a set of events exactly if it has none of the bits that mean nothing to
/// `epoll`. Of the bits that do, the first five and bit 13 are the events that `poll` knows too,
/// under the same numbers; those and no others pass through either translation.
pub proof fn events_have_their_epoll_numbers(word: u32)
    ensures
        known_events(word) <==> word & 0x0fff_dfe0 == 0,
        poll_flags_of(word) == word & 0x201f,
        events_of(word) == word & 0x201f,
        EVENT_IN == 0x1 && EVENT_PRIORITY == 0x2 && EVENT_OUT == 0x4 && EVENT_ERROR == 0x8,
        EVENT_HANG_UP == 0x10 && EVENT_READ_HANG_UP == 0x2000,
{
    translations_keep_numbers(word);
    assert(word & !0xf000_201fu32 == word & 0x0fff_dfe0) by (bit_vector);
}

} // verus!
