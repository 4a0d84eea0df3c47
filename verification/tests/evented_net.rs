use bytes::{Bytes, BytesMut};
use complete_io::io::{Async, Error, ErrorKind};
use complete_io::tokio::{
    Accept, AcceptStep, Connect, Direction, FutureStep, OpEvent, RecvFrom, SendTo, TcpRead,
    TcpWrite,
};

const AGAIN: Error = Error::Os { kind: ErrorKind::WouldBlock, code: 11 };
const RESET: Error = Error::Os { kind: ErrorKind::Other, code: 104 };

type Acc = Accept<&'static str, char, u32, u16>;
type AccStep = AcceptStep<&'static str, char, (u8, u16)>;

#[test]
fn write_when_ready() {
    let mut write = TcpWrite::new("s", Bytes::from_static(b"hello"));
    assert_eq!(write.poll(OpEvent::Polled), FutureStep::PollReadiness(Direction::Write));
    assert_eq!(write.poll(OpEvent::Readiness(Async::Ready(()))), FutureStep::Perform);
    let done = ("s", Bytes::from_static(b"hello"), 2);
    let step = write.poll(OpEvent::Performed(Ok(2)));
    assert_eq!(step, FutureStep::Return(Ok(Async::Ready(done))));
    assert!(write.op().payload().is_none());
}

#[test]
fn evented_task_waits_when_notified_later() {
    let mut read = TcpRead::new("s", BytesMut::from(b"0123".to_vec()));
    assert_eq!(read.limit(), 4);
    assert_eq!(read.poll(OpEvent::Polled), FutureStep::PollReadiness(Direction::Read));
    let step = read.poll(OpEvent::Readiness(Async::NotReady));
    assert_eq!(step, FutureStep::Return(Ok(Async::NotReady)));
    read.poll(OpEvent::Polled);
    read.poll(OpEvent::Readiness(Async::Ready(())));
    let step = read.poll(OpEvent::Performed(Err(AGAIN)));
    assert_eq!(step, FutureStep::NeedReadiness(Direction::Read));
    assert_eq!(read.poll(OpEvent::Requested), FutureStep::Return(Ok(Async::NotReady)));
    assert_eq!(read.op().payload().unwrap().0, "s");
    read.poll(OpEvent::Polled);
    read.poll(OpEvent::Readiness(Async::Ready(())));
    match read.poll(OpEvent::Performed(Ok(b"ab".to_vec()))) {
        FutureStep::Return(Ok(Async::Ready((_, buffer, count)))) => {
            assert_eq!((&buffer[..], count), (&b"ab23"[..], 2));
        },
        other => panic!("{:?}", other),
    }
}

#[test]
fn evented_operation_fails() {
    let mut read = TcpRead::new("s", BytesMut::new());
    assert_eq!(read.limit(), 0);
    read.poll(OpEvent::Polled);
    read.poll(OpEvent::Readiness(Async::Ready(())));
    assert_eq!(read.poll(OpEvent::Performed(Err(RESET))), FutureStep::Return(Err(RESET)));
    assert!(read.op().payload().is_none());
}

#[test]
fn evented_datagrams() {
    let mut recv = RecvFrom::new("s", BytesMut::from(b"0123".to_vec()));
    assert_eq!(recv.limit(), 4);
    recv.poll::<u16>(OpEvent::Polled);
    recv.poll::<u16>(OpEvent::Readiness(Async::Ready(())));
    match recv.poll(OpEvent::Performed(Ok((b"abcd".to_vec(), 9u16)))) {
        FutureStep::Return(Ok(Async::Ready((socket, buffer, count, addr)))) => {
            assert_eq!((socket, &buffer[..], count, addr), ("s", &b"abcd"[..], 4, 9));
        },
        other => panic!("{:?}", other),
    }
    for &(sent, whole) in [(5, true), (3, false)].iter() {
        let mut send = SendTo::new("s", Bytes::from_static(b"hello"), 80u16);
        assert_eq!(send.poll(OpEvent::Polled), FutureStep::PollReadiness(Direction::Write));
        send.poll(OpEvent::Readiness(Async::Ready(())));
        let expected = if whole {
            Ok(Async::Ready(("s", Bytes::from_static(b"hello"))))
        } else {
            Err(Error::Simple(ErrorKind::WriteZero))
        };
        assert_eq!(send.poll(OpEvent::Performed(Ok(sent))), FutureStep::Return(expected));
    }
}

#[test]
fn writable_stream_is_connected() {
    let mut connect = Connect::new(Ok("s"));
    assert_eq!(connect.poll(Async::NotReady), Ok(Async::NotReady));
    assert_eq!(connect.stream(), Some(&"s"));
    assert_eq!(connect.poll(Async::Ready(())), Ok(Async::Ready("s")));
    assert_eq!(connect.stream(), None);
    let mut connect: Connect<u8> = Connect::new(Err(RESET));
    assert_eq!(connect.stream(), None);
    assert_eq!(connect.poll(Async::NotReady), Err(RESET));
}

fn accepted() -> Acc {
    let mut accept = Acc::new("l");
    let step: AccStep = accept.poll(OpEvent::Polled);
    assert_eq!(step, AcceptStep::Op(FutureStep::PollReadiness(Direction::Read)));
    let step: AccStep = accept.poll(OpEvent::Readiness(Async::Ready(())));
    assert_eq!(step, AcceptStep::Op(FutureStep::Perform));
    assert_eq!(accept.op().payload(), Some(&"l"));
    let step: AccStep = accept.poll(OpEvent::Performed(Ok(('x', 80))));
    assert_eq!(step, AcceptStep::Locate);
    assert_eq!(accept.located_listener(), Some(&"l"));
    accept
}

#[test]
fn connection_accepted_on_the_loop() {
    let mut accept = accepted();
    let step: AccStep = accept.located(true);
    assert_eq!(step, AcceptStep::Register('x'));
    assert_eq!(accept.registered(Ok(5u8)), Ok(Async::Ready((5, 80))));
    let mut accept = accepted();
    accept.located::<u8>(true);
    assert_eq!(accept.registered::<u8>(Err(RESET)), Err(RESET));
}

#[test]
fn connection_accepted_off_the_loop() {
    let mut accept = accepted();
    let step: AccStep = accept.located(false);
    assert_eq!(step, AcceptStep::Send("l", 'x'));
    let step: AccStep = accept.sent(33);
    assert_eq!(step, AcceptStep::Receive);
    assert_eq!(accept.receiver(), Some(&mut 33));
    assert_eq!(accept.received::<u8>(Ok(Async::NotReady)), Ok(Async::NotReady));
    let step: AccStep = accept.poll(OpEvent::Polled);
    assert_eq!(step, AcceptStep::Receive);
    assert_eq!(accept.received(Ok(Async::Ready(Ok(5u8)))), Ok(Async::Ready((5, 80))));
    assert_eq!(accept.receiver(), None);
}

#[test]
fn connection_that_the_loop_lost() {
    let mut accept = accepted();
    accept.located::<u8>(false);
    accept.sent::<u8>(33);
    assert_eq!(accept.received::<u8>(Err(())), Err(Error::LoopDied));
    assert_eq!(Error::LoopDied.kind(), ErrorKind::Interrupted);
    let mut accept = accepted();
    accept.located::<u8>(false);
    accept.sent::<u8>(33);
    assert_eq!(accept.received::<u8>(Ok(Async::Ready(Err(RESET)))), Err(RESET));
}

#[test]
fn evented_accept_waits_or_fails() {
    let mut accept = Acc::new("l");
    accept.poll::<u8>(OpEvent::Polled);
    accept.poll::<u8>(OpEvent::Readiness(Async::Ready(())));
    let step: AccStep = accept.poll(OpEvent::Performed(Err(AGAIN)));
    assert_eq!(step, AcceptStep::Op(FutureStep::NeedReadiness(Direction::Read)));
    let step: AccStep = accept.poll(OpEvent::Requested);
    assert_eq!(step, AcceptStep::Op(FutureStep::Return(Ok(Async::NotReady))));
    accept.poll::<u8>(OpEvent::Polled);
    accept.poll::<u8>(OpEvent::Readiness(Async::Ready(())));
    let step: AccStep = accept.poll(OpEvent::Performed(Err(RESET)));
    assert_eq!(step, AcceptStep::Op(FutureStep::Return(Err(RESET))));
}
