use vhost_user_backend::event_set::{
    event_set_to_poll_flags, poll_flags_to_event_set, EventSet, EVENT_ALL,
};

fn outside(bits: u32) -> vmm_sys_util::epoll::EventSet {
    vmm_sys_util::epoll::EventSet::from_bits(bits).unwrap()
}

#[test]
fn known_words_are_accepted_and_others_are_not() {
    assert_eq!(EVENT_ALL, vmm_sys_util::epoll::EventSet::all().bits());
    for bit in 0..32 {
        let word = 1u32 << bit;
        assert_eq!(
            EventSet::from_bits(word).map(|set| set.bits()),
            vmm_sys_util::epoll::EventSet::from_bits(word).map(|set| set.bits())
        );
    }
    assert_eq!(EventSet::from_bits(0).unwrap().bits(), 0);
    assert_eq!(EventSet::from_bits(EVENT_ALL).unwrap().bits(), EVENT_ALL);
    assert!(EventSet::from_bits(0x20).is_none());
    assert!(EventSet::from_bits(0x21).is_none());
}

#[test]
fn single_events_have_the_numbers_of_epoll() {
    assert_eq!(EventSet::input().bits(), libc::EPOLLIN as u32);
    assert_eq!(EventSet::output().bits(), libc::EPOLLOUT as u32);
    assert_eq!(EventSet::error().bits(), libc::EPOLLERR as u32);
    assert_eq!(EventSet::hang_up().bits(), libc::EPOLLHUP as u32);
    assert_eq!(EventSet::priority().bits(), libc::EPOLLPRI as u32);
    assert_eq!(EventSet::read_hang_up().bits(), libc::EPOLLRDHUP as u32);
    assert_eq!(EventSet::empty().bits(), 0);
}

#[test]
fn sets_contain_and_unite() {
    let both = EventSet::input().union(EventSet::output());
    assert_eq!(both.bits(), 0x5);
    assert_eq!(
        both.bits(),
        (vmm_sys_util::epoll::EventSet::IN | vmm_sys_util::epoll::EventSet::OUT).bits()
    );
    assert!(both.contains(EventSet::input()));
    assert!(both.contains(EventSet::empty()));
    assert!(!EventSet::input().contains(both));
    assert_eq!(
        outside(both.bits()).contains(vmm_sys_util::epoll::EventSet::OUT),
        both.contains(EventSet::output())
    );
}

#[test]
fn events_become_poll_flags() {
    assert_eq!(event_set_to_poll_flags(EventSet::empty()), 0);
    assert_eq!(event_set_to_poll_flags(EventSet::input()), libc::POLLIN as u32);
    assert_eq!(event_set_to_poll_flags(EventSet::output()), libc::POLLOUT as u32);
    assert_eq!(event_set_to_poll_flags(EventSet::error()), libc::POLLERR as u32);
    assert_eq!(event_set_to_poll_flags(EventSet::hang_up()), libc::POLLHUP as u32);
    assert_eq!(event_set_to_poll_flags(EventSet::priority()), libc::POLLPRI as u32);
    assert_eq!(event_set_to_poll_flags(EventSet::read_hang_up()), libc::POLLRDHUP as u32);
    // Modes are no events.
    assert_eq!(event_set_to_poll_flags(EventSet::from_bits(EVENT_ALL).unwrap()), 0x201f);
    assert_eq!(event_set_to_poll_flags(EventSet::from_bits(0x8000_0001).unwrap()), 0x1);
}

#[test]
fn poll_flags_become_events() {
    assert_eq!(poll_flags_to_event_set(0).bits(), 0);
    assert_eq!(poll_flags_to_event_set(libc::POLLIN as u32), EventSet::input());
    assert_eq!(poll_flags_to_event_set(libc::POLLOUT as u32), EventSet::output());
    assert_eq!(poll_flags_to_event_set(libc::POLLERR as u32), EventSet::error());
    assert_eq!(poll_flags_to_event_set(libc::POLLHUP as u32), EventSet::hang_up());
    assert_eq!(poll_flags_to_event_set(libc::POLLPRI as u32), EventSet::priority());
    assert_eq!(poll_flags_to_event_set(libc::POLLRDHUP as u32), EventSet::read_hang_up());
    // POLLNVAL and POLLRDNORM are no events of a set.
    assert_eq!(poll_flags_to_event_set(0x61).bits(), 0x1);
    assert_eq!(poll_flags_to_event_set(u32::MAX).bits(), 0x201f);
}

#[test]
fn events_survive_the_round_trip() {
    for word in [0u32, 0x1, 0x5, 0x1f, 0x2000, 0x201f] {
        let set = EventSet::from_bits(word).unwrap();
        assert_eq!(poll_flags_to_event_set(event_set_to_poll_flags(set)), set);
    }
}
