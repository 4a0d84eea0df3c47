use complete_io::epoll::custom::CustomStep;
use complete_io::epoll::flags::Event;
use complete_io::epoll::registration::{Ctl, CtlOp};
use complete_io::epoll::turn::{
    chain_signal, timeout_ms, DispatchStep, InterruptStep, OldHandler, RawEvent, SignalStep, Turn,
    TurnStep, EVENT_BUFFER_SIZE, SIG_DFL, SIG_IGN,
};
use complete_io::epoll::{Epoll, EventMask, EventMode, EventTag, Interrupt, Registration};
use complete_io::io::{AsRegistrar, Error, ErrorKind};
use complete_io::queue::Timeout;

const BADF: Error = Error::Os { kind: ErrorKind::Other, code: 9 };
const INTR: Error = Error::Os { kind: ErrorKind::Interrupted, code: 4 };
const AGAIN: Error = Error::Os { kind: ErrorKind::WouldBlock, code: 11 };

fn queue() -> Epoll<&'static str> {
    Epoll::new(7, BADF).unwrap()
}

fn register(epoll: &mut Epoll<&'static str>, fd: i32, handler: &'static str) -> (Registration, Ctl) {
    let handle = epoll.handle();
    assert!(epoll.can_register());
    handle.register_fd(
        epoll,
        fd,
        EventMask::only(Event::Read),
        EventMode { edge: true, one_shot: false },
        handler,
    )
}

fn custom_event(epoll: &mut Epoll<&'static str>, fd: i32) -> EventTag {
    let (registration, ctl) = epoll.open_custom_event(fd, BADF, "custom").unwrap();
    assert_eq!(
        ctl,
        Ctl { op: CtlOp::Add, fd, events: 0x4000_0001, data: registration.token }
    );
    epoll.new_custom_event(registration, Ok(())).unwrap()
}

#[test]
fn queue_that_could_not_be_made() {
    assert_eq!(Epoll::<u8>::new(-1, BADF).err(), Some(BADF));
    assert!(Epoll::<u8>::new(0, BADF).is_ok());
}

#[test]
fn handle_is_its_own_registrar() {
    let epoll = queue();
    let handle = epoll.handle();
    assert_eq!(handle.epoll_fd, 7);
    let registrar = AsRegistrar::<Epoll<&'static str>>::as_registrar(&handle);
    assert_eq!(*registrar, handle);
}

#[test]
fn registrations_are_told_apart() {
    let mut epoll = queue();
    let (a, ctl) = register(&mut epoll, 10, "a");
    let (b, _) = register(&mut epoll, 10, "b");
    assert_eq!(ctl, Ctl { op: CtlOp::Add, fd: 10, events: 0x8000_0001, data: a.token });
    assert_ne!(a.token, b.token);
    assert_eq!(epoll.registered(a, Ok(())), Ok(a));
    assert_eq!(epoll.handler(a.token), Some(&"a"));
    assert_eq!(epoll.handler(b.token), Some(&"b"));
    assert_eq!(epoll.live(a.token), Some(a));
}

#[test]
fn failed_registration_is_gone() {
    let mut epoll = queue();
    let (a, _) = register(&mut epoll, 10, "a");
    assert_eq!(epoll.registered(a, Err(BADF)), Err(BADF));
    assert_eq!(epoll.live(a.token), None);
    let (b, _) = register(&mut epoll, 10, "b");
    assert_ne!(a.token, b.token);
}

#[test]
fn dropped_registration_is_unwatched() {
    let mut epoll = queue();
    let (a, _) = register(&mut epoll, 10, "a");
    assert_eq!(epoll.unregister(a), Ctl { op: CtlOp::Delete, fd: 10, events: 0, data: 0 });
    assert_eq!(epoll.handler(a.token), None);
}

#[test]
fn new_token_is_unused() {
    let mut epoll = queue();
    let (a, _) = register(&mut epoll, 10, "a");
    epoll.unregister(a);
    let (b, _) = register(&mut epoll, 10, "b");
    assert_ne!(a.token, b.token);
    assert_eq!(epoll.live(a.token), None);
}

#[test]
fn posted_data_come_out_in_order() {
    let mut epoll = queue();
    let handle = epoll.handle();
    let tag = custom_event(&mut epoll, 20);
    assert_eq!(tag, EventTag { event: 0, epoll_fd: 7 });
    assert!(epoll.is_tagged(tag));
    for data in 0..100usize {
        assert_eq!(handle.post_custom_event(&mut epoll, tag, data * 3), 20);
    }
    assert_eq!(epoll.handle_custom_event(tag, Ok(1)), CustomStep::Deliver(0));
    for data in 1..100usize {
        assert_eq!(epoll.deliver_custom_event(tag), CustomStep::Deliver(data * 3));
    }
    let rearm = Ctl { op: CtlOp::Modify, fd: 20, events: 0x4000_0001, data: 0 };
    assert_eq!(epoll.deliver_custom_event(tag), CustomStep::Rearm(rearm));
    assert_eq!(epoll.deliver_custom_event(tag), CustomStep::Rearm(rearm));
}

#[test]
fn later_posts_come_out_later() {
    let mut epoll = queue();
    let handle = epoll.handle();
    let tag = custom_event(&mut epoll, 20);
    handle.post_custom_event(&mut epoll, tag, 1);
    assert_eq!(epoll.handle_custom_event(tag, Ok(1)), CustomStep::Deliver(1));
    handle.post_custom_event(&mut epoll, tag, 2);
    assert_eq!(epoll.deliver_custom_event(tag), CustomStep::Deliver(2));
}

#[test]
fn custom_events_are_apart() {
    let mut epoll = queue();
    let handle = epoll.handle();
    let a = custom_event(&mut epoll, 20);
    let b = custom_event(&mut epoll, 21);
    assert_ne!(a, b);
    assert_eq!(epoll.custom_event_fd(a), 20);
    assert_eq!(epoll.custom_event_fd(b), 21);
    handle.post_custom_event(&mut epoll, b, 5);
    assert!(matches!(epoll.handle_custom_event(a, Ok(1)), CustomStep::Rearm(_)));
    assert_eq!(epoll.handle_custom_event(b, Ok(1)), CustomStep::Deliver(5));
}

#[test]
fn signal_that_another_thread_took() {
    let mut epoll = queue();
    let handle = epoll.handle();
    let tag = custom_event(&mut epoll, 20);
    handle.post_custom_event(&mut epoll, tag, 5);
    assert!(matches!(epoll.handle_custom_event(tag, Err(AGAIN)), CustomStep::Rearm(_)));
    assert!(matches!(epoll.handle_custom_event(tag, Ok(0)), CustomStep::Rearm(_)));
    assert_eq!(epoll.handle_custom_event(tag, Ok(1)), CustomStep::Deliver(5));
}

#[test]
fn foreign_tags() {
    let mut epoll = queue();
    let tag = custom_event(&mut epoll, 20);
    assert!(!epoll.is_tagged(EventTag { epoll_fd: 8, ..tag }));
    assert!(!epoll.is_tagged(EventTag { event: 1, ..tag }));
}

#[test]
fn custom_event_that_could_not_be_made() {
    let mut epoll = queue();
    assert_eq!(epoll.open_custom_event(-1, BADF, "custom"), Err(BADF));
    let (registration, _) = epoll.open_custom_event(20, INTR, "custom").unwrap();
    assert_eq!(epoll.new_custom_event(registration, Err(BADF)), Err(BADF));
    assert_eq!(epoll.live(registration.token), None);
    assert!(!epoll.is_tagged(EventTag { event: 0, epoll_fd: 7 }));
}

#[test]
fn waiting_times() {
    let wait = |secs, nanos| timeout_ms(Some(Timeout { secs, nanos }));
    assert_eq!(timeout_ms(None), -1);
    assert_eq!(wait(0, 0), 0);
    assert_eq!(wait(0, 999_999), 0);
    assert_eq!(wait(0, 1_000_000), 1);
    assert_eq!(wait(2, 3_999_999), 2003);
    assert_eq!(wait(2_147_483, 647_000_000), i32::MAX);
}

#[test]
fn wait_is_no_longer_than_asked() {
    let wait = |secs, nanos| timeout_ms(Some(Timeout { secs, nanos }));
    assert_eq!(wait(2_147_483, 648_000_000), i32::MAX);
    assert_eq!(wait(4_294_967, 296_000_000), i32::MAX);
    assert_eq!(wait(0x1_0000_0005, 0), i32::MAX);
    assert_eq!(wait(u64::MAX, 999_999_999), i32::MAX);
}

fn events(data: &[u64]) -> Vec<RawEvent> {
    data.iter().map(|&data| RawEvent { events: 0x4000_0011, data }).collect()
}

#[test]
fn signal_ends_only_interruptible_turn() {
    let epoll = queue();
    let mut turn: Turn = epoll.turn(None);
    assert_eq!(turn.timeout_ms(), -1);
    assert_eq!(turn.waited(70, Err(INTR)), TurnStep::Wait);
    assert_eq!(turn.timeout_ms(), -1);
    assert_eq!(turn.waited(0, Err(BADF)), TurnStep::Done(Err(BADF)));
    let mut interrupt = Interrupt::new();
    let second = Some(Timeout { secs: 1, nanos: 0 });
    let mut turn = epoll.turn_interruptible(second, &mut interrupt, 77);
    assert_eq!(turn.timeout_ms(), 1000);
    assert_eq!(interrupt.interrupt(), InterruptStep::Signal(77));
    assert_eq!(turn.waited_interruptible(&mut interrupt, Err(INTR)), TurnStep::Done(Ok(0)));
}

#[test]
fn waits_add_up_to_no_more_than_asked() {
    let epoll = queue();
    let mut turn = epoll.turn(Some(Timeout { secs: 1, nanos: 0 }));
    assert_eq!(turn.timeout_ms(), 1000);
    assert_eq!(turn.waited(300, Err(INTR)), TurnStep::Wait);
    assert_eq!(turn.timeout_ms(), 700);
    assert_eq!(turn.waited(0, Err(INTR)), TurnStep::Wait);
    assert_eq!(turn.timeout_ms(), 700);
    assert_eq!(turn.waited(699, Err(INTR)), TurnStep::Wait);
    assert_eq!(turn.timeout_ms(), 1);
    assert_eq!(turn.waited(u32::MAX, Err(INTR)), TurnStep::Wait);
    assert_eq!(turn.timeout_ms(), 0);
    assert_eq!(turn.waited(0, Ok(Vec::new())), TurnStep::Done(Ok(0)));
}

#[test]
fn finished_turns_leave_no_thread() {
    let mut epoll = queue();
    let (a, _) = register(&mut epoll, 10, "a");
    let mut interrupt = Interrupt::new();
    assert_eq!(interrupt.interrupt(), InterruptStep::Idle);
    let outcomes = vec![
        (Err(INTR), TurnStep::Done(Ok(0))),
        (Err(BADF), TurnStep::Done(Err(BADF))),
        (Ok(Vec::new()), TurnStep::Done(Ok(0))),
        (Ok(events(&[a.token])), TurnStep::Dispatch),
    ];
    for (thread, (reported, expected)) in outcomes.into_iter().enumerate() {
        let mut turn = epoll.turn_interruptible(None, &mut interrupt, thread + 1);
        assert_eq!(interrupt.interrupt(), InterruptStep::Signal(thread + 1));
        assert_eq!(turn.waited_interruptible(&mut interrupt, reported), expected);
        assert_eq!(interrupt.interrupt(), InterruptStep::Idle);
    }
}

#[test]
fn tags_differ() {
    let mut epoll = queue();
    let handle = epoll.handle();
    let mut tags = Vec::new();
    for fd in 20..30 {
        let tag = custom_event(&mut epoll, fd);
        assert!(!tags.contains(&tag));
        tags.push(tag);
        handle.post_custom_event(&mut epoll, tag, 1);
        let (failed, _) = epoll.open_custom_event(50, BADF, "custom").unwrap();
        assert_eq!(epoll.new_custom_event(failed, Err(BADF)), Err(BADF));
        assert_eq!(epoll.handle_custom_event(tag, Ok(1)), CustomStep::Deliver(1));
    }
    assert!(tags.iter().all(|&tag| epoll.is_tagged(tag)));
}

#[test]
fn turn_without_events() {
    let epoll = queue();
    let mut turn = epoll.turn(Some(Timeout { secs: 0, nanos: 0 }));
    assert_eq!(turn.waited(0, Ok(Vec::new())), TurnStep::Done(Ok(0)));
    assert_eq!(EVENT_BUFFER_SIZE, 32);
}

#[test]
fn dispatch_skips_only_dead() {
    let mut epoll = queue();
    let (a, _) = register(&mut epoll, 10, "a");
    let (b, _) = register(&mut epoll, 11, "b");
    let (c, _) = register(&mut epoll, 12, "c");
    let mut turn = epoll.turn(None);
    let reported = events(&[a.token, b.token, 999, c.token]);
    assert_eq!(turn.waited(5, Ok(reported)), TurnStep::Dispatch);
    let mask = EventMask::only(Event::Read) | EventMask::only(Event::Hup);
    assert_eq!(turn.dispatch(&epoll), DispatchStep::Handle(a, mask));
    epoll.unregister(b);
    assert_eq!(turn.dispatch(&epoll), DispatchStep::Handle(c, mask));
    assert_eq!(turn.dispatch(&epoll), DispatchStep::Done(4));
}

#[test]
fn what_signalling_a_thread_gave() {
    assert_eq!(Interrupt::signalled(0, BADF), Ok(true));
    assert_eq!(Interrupt::signalled(3, BADF), Err(BADF));
}

#[test]
fn signals_are_passed_on() {
    let with = |address, flags| chain_signal(Some(OldHandler { address, flags }), 4);
    assert_eq!(chain_signal(None, 4), SignalStep::Ignore);
    assert_eq!(with(SIG_DFL, 4), SignalStep::Ignore);
    assert_eq!(with(SIG_IGN, 0), SignalStep::Ignore);
    assert_eq!(with(0x1234, 4), SignalStep::CallWithInfo(0x1234));
    assert_eq!(with(0x1234, 0x1000_0004), SignalStep::CallWithInfo(0x1234));
    assert_eq!(with(0x1234, 0x1000_0000), SignalStep::Call(0x1234));
    assert_eq!(SIG_DFL, libc::SIG_DFL);
    assert_eq!(SIG_IGN, libc::SIG_IGN);
    let other = chain_signal(Some(OldHandler { address: 0x1234, flags: 4 }), 8);
    assert_eq!(other, SignalStep::Call(0x1234));
}
