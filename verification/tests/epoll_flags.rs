use complete_io::epoll::flags::Event;
use complete_io::epoll::registration::CtlOp;
use complete_io::epoll::{EventMask, EventMode, Registration};

const ALL: [(Event, i32); 6] = [
    (Event::Read, libc::EPOLLIN),
    (Event::Write, libc::EPOLLOUT),
    (Event::ReadHup, libc::EPOLLRDHUP),
    (Event::Exceptional, libc::EPOLLPRI),
    (Event::Error, libc::EPOLLERR),
    (Event::Hup, libc::EPOLLHUP),
];

#[test]
fn each_condition_has_its_bit() {
    for &(event, bit) in ALL.iter() {
        let mask = EventMask::only(event);
        assert_eq!(mask.bits(), bit as u32);
        assert_eq!(EventMask::from_bits_truncate(bit as u32), mask);
    }
    assert_eq!(EventMask::empty().bits(), 0);
}

#[test]
fn modes_have_their_bits() {
    assert_eq!(EventMode { edge: true, one_shot: false }.bits(), libc::EPOLLET as u32);
    assert_eq!(EventMode { edge: false, one_shot: true }.bits(), libc::EPOLLONESHOT as u32);
    assert_eq!(EventMode { edge: true, one_shot: true }.bits(), 0xc000_0000);
    assert_eq!(EventMode { edge: false, one_shot: false }.bits(), 0);
}

#[test]
fn mask_is_read_back_from_interest_word() {
    for set in 0u32..64 {
        let mut mask = EventMask::empty();
        for (i, &(event, _)) in ALL.iter().enumerate() {
            if set & (1 << i) != 0 {
                mask.insert(EventMask::only(event));
            }
        }
        for mode in 0u32..4 {
            let mode = EventMode { edge: mode & 1 != 0, one_shot: mode & 2 != 0 };
            let word = Registration { fd: 3, token: 9 }.modify(mask, mode).events;
            assert_eq!(EventMask::from_bits_truncate(word), mask);
        }
    }
}

#[test]
fn unknown_bits_are_passed_over() {
    assert_eq!(EventMask::from_bits_truncate(0x1000_0400), EventMask::empty());
    assert_eq!(EventMask::from_bits_truncate(0x1000_0401), EventMask::only(Event::Read));
}

#[test]
fn containment_and_intersection() {
    let read = EventMask::only(Event::Read);
    let write = EventMask::only(Event::Write);
    let both = read | write;
    assert_eq!(both.bits(), 5);
    assert!(both.contains(read) && both.contains(write) && both.contains(both));
    assert!(!read.contains(both) && !read.contains(write));
    assert!(read.contains(EventMask::empty()) && EventMask::empty().contains(EventMask::empty()));
    assert!(both.intersects(read) && !read.intersects(write));
    assert!(!both.intersects(EventMask::empty()));
}

#[test]
fn mask_is_made_of_its_conditions() {
    let mut mask = EventMask::only(Event::Hup);
    mask.insert(EventMask::only(Event::Read));
    mask.insert(EventMask::only(Event::Hup));
    assert_eq!(mask, EventMask::only(Event::Read) | EventMask::only(Event::Hup));
    assert!(mask.read && mask.hup && !mask.write && !mask.error);
}

#[test]
fn modification_names_registration() {
    let ctl = Registration { fd: 3, token: 9 }
        .modify(EventMask::only(Event::Write), EventMode { edge: true, one_shot: true });
    assert_eq!(ctl.op, CtlOp::Modify);
    assert_eq!(ctl.fd, 3);
    assert_eq!(ctl.data, 9);
    assert_eq!(ctl.events, 0xc000_0004);
}
