use complete_io::epoll::flags::Event;
use complete_io::epoll::interest::FuturesRegistrationHandler;
use complete_io::epoll::registration::{Ctl, CtlOp};
use complete_io::epoll::{Epoll, EventMask, FuturesRegistration};
use complete_io::io::{Async, Error};

const READ: Event = Event::Read;
const WRITE: Event = Event::Write;

fn only(event: Event) -> EventMask {
    EventMask::only(event)
}

fn registration() -> FuturesRegistration {
    let mut epoll: Epoll<u8> = Epoll::new(7, Error::LoopDied).unwrap();
    let handle = epoll.handle();
    let (registration, ctl) = FuturesRegistration::new(&handle, &mut epoll, 10, 1);
    assert_eq!(ctl, Ctl { op: CtlOp::Add, fd: 10, events: 0xc000_0000, data: 0 });
    registration
}

fn modify(events: u32) -> Option<Ctl> {
    Some(Ctl { op: CtlOp::Modify, fd: 10, events: 0xc000_0000 | events, data: 0 })
}

#[test]
fn interests_ask_for_what_is_not_asked_for() {
    let fr = registration();
    let mut inner = FuturesRegistrationHandler::new();
    assert!(inner.can_add());
    assert_eq!(fr.add_interest(&mut inner, only(READ), 'a').1, modify(1));
    assert_eq!(fr.add_interest(&mut inner, only(READ), 'b').1, None);
    assert_eq!(fr.add_interest(&mut inner, only(WRITE), 'c').1, modify(5));
    assert_eq!(fr.add_interest(&mut inner, only(READ) | only(WRITE), 'd').1, None);
    assert_eq!(fr.add_interest(&mut inner, EventMask::empty(), 'e').1, None);
}

#[test]
fn event_parts_interests() {
    let fr = registration();
    let mut inner = FuturesRegistrationHandler::new();
    let (a, _) = fr.add_interest(&mut inner, only(READ), 'a');
    let (b, _) = fr.add_interest(&mut inner, only(WRITE), 'b');
    let (c, _) = fr.add_interest(&mut inner, only(READ) | only(WRITE), 'c');
    let (d, _) = fr.add_interest(&mut inner, only(Event::Exceptional), 'd');
    let (notified, rearm) = inner.handle_event(&fr.registration, only(READ));
    assert_eq!(notified, vec!['a', 'c']);
    assert_eq!(rearm, modify(6));
    assert!(a.fired(&inner) && !b.fired(&inner) && c.fired(&inner) && !d.fired(&inner));
    let (notified, rearm) = inner.handle_event(&fr.registration, only(READ));
    assert_eq!(notified, Vec::<char>::new());
    assert_eq!(rearm, modify(6));
}

#[test]
fn event_with_more_than_is_waited_for() {
    let fr = registration();
    let mut inner = FuturesRegistrationHandler::new();
    fr.add_interest(&mut inner, only(READ), 'a');
    fr.add_interest(&mut inner, only(READ) | only(WRITE), 'b');
    let (notified, rearm) = inner.handle_event(&fr.registration, only(READ) | only(WRITE));
    assert_eq!(notified, vec!['b']);
    assert_eq!(rearm, modify(1));
}

#[test]
fn error_and_hup_wake_all() {
    for event in [Event::Error, Event::Hup].iter() {
        let fr = registration();
        let mut inner = FuturesRegistrationHandler::new();
        for task in 0..5u32 {
            fr.add_interest(&mut inner, only(WRITE), task);
        }
        let (mut notified, rearm) = inner.handle_event(&fr.registration, only(*event));
        notified.sort();
        assert_eq!(notified, vec![0, 1, 2, 3, 4]);
        assert_eq!(rearm, None);
    }
}

#[test]
fn last_interest_moves_into_gap() {
    let fr = registration();
    let mut inner = FuturesRegistrationHandler::new();
    fr.add_interest(&mut inner, only(READ), 'a');
    fr.add_interest(&mut inner, only(WRITE), 'b');
    fr.add_interest(&mut inner, only(READ), 'c');
    fr.add_interest(&mut inner, only(READ), 'd');
    assert_eq!(inner.handle_event(&fr.registration, only(READ)).0, vec!['a', 'd', 'c']);
}

#[test]
fn interest_waits_until_woken() {
    let fr = registration();
    let mut inner = FuturesRegistrationHandler::new();
    let (interest, _) = fr.add_interest(&mut inner, only(READ), 'a');
    assert_eq!(interest.poll(&mut inner, 'b'), Async::NotReady);
    assert!(!interest.fired(&inner));
    assert_eq!(inner.handle_event(&fr.registration, only(WRITE)).0, Vec::<char>::new());
    assert_eq!(interest.poll(&mut inner, 'c'), Async::NotReady);
    assert_eq!(inner.handle_event(&fr.registration, only(READ)).0, vec!['c']);
    assert_eq!(interest.poll(&mut inner, 'd'), Async::Ready(()));
    assert_eq!(interest.poll(&mut inner, 'd'), Async::Ready(()));
    interest.register(&mut inner, 'e');
    assert_eq!(inner.handle_event(&fr.registration, only(READ)).0, Vec::<char>::new());
}

#[test]
fn registered_task_replaces_earlier_one() {
    let fr = registration();
    let mut inner = FuturesRegistrationHandler::new();
    let (a, _) = fr.add_interest(&mut inner, only(READ), 'a');
    fr.add_interest(&mut inner, only(READ), 'b');
    a.register(&mut inner, 'c');
    let (mut notified, _) = inner.handle_event(&fr.registration, only(READ));
    notified.sort();
    assert_eq!(notified, vec!['b', 'c']);
}

#[test]
fn added_interest_is_watched_after_event() {
    let fr = registration();
    let mut inner = FuturesRegistrationHandler::new();
    fr.add_interest(&mut inner, only(READ), 'a');
    assert_eq!(inner.handle_event(&fr.registration, only(READ)).1, None);
    assert_eq!(fr.add_interest(&mut inner, only(READ), 'b').1, modify(1));
}

#[test]
fn interest_whose_request_failed() {
    let fr = registration();
    let mut inner = FuturesRegistrationHandler::new();
    let (interest, ctl) = fr.add_interest(&mut inner, only(READ), 'a');
    assert_eq!(ctl, modify(1));
    assert_eq!(fr.interest_added(interest, Some(Err(Error::LoopDied))), Err(Error::LoopDied));
    assert_eq!(fr.interest_added(interest, Some(Ok(()))), Ok(interest));
    assert_eq!(fr.interest_added(interest, None), Ok(interest));
    assert_eq!(inner.handle_event(&fr.registration, only(READ)).0, vec!['a']);
}

#[test]
fn fired_interest_notifies_nobody() {
    let fr = registration();
    let mut inner = FuturesRegistrationHandler::new();
    let (interest, _) = fr.add_interest(&mut inner, only(READ), 'a');
    assert_eq!(inner.handle_event(&fr.registration, only(READ)).0, vec!['a']);
    interest.register(&mut inner, 'b');
    assert_eq!(inner.handle_event(&fr.registration, only(READ)).0, Vec::<char>::new());
    assert!(interest.fired(&inner));
}
