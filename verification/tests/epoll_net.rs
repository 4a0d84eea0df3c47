use bytes::{Bytes, BytesMut};
use complete_io::epoll::flags::Event;
use complete_io::epoll::net::{
    Accept, AcceptStep, Connect, FutureStep, OpEvent, RecvFrom, SendTo, TcpRead, TcpWrite,
};
use complete_io::epoll::EventMask;
use complete_io::net::Family;
use complete_io::io::{check, Async, Error, ErrorKind};

const AGAIN: Error = Error::Os { kind: ErrorKind::WouldBlock, code: 11 };
const RESET: Error = Error::Os { kind: ErrorKind::Other, code: 104 };
const PROGRESS: Error = Error::Os { kind: ErrorKind::Other, code: libc::EINPROGRESS };

type Read = TcpRead<&'static str, u32>;
type Write = TcpWrite<&'static str, u32>;
type Recv = RecvFrom<&'static str, u32>;
type Send = SendTo<&'static str, u16, u32>;
type Conn = Connect<&'static str, u16, u32>;
type Acc = Accept<&'static str, u16, u32>;

fn waits<T>() -> FutureStep<T> {
    FutureStep::Return(Ok(Async::NotReady))
}

#[test]
fn read_at_once() {
    let mut read = Read::new("s", BytesMut::with_capacity(64));
    assert!(read.limit() >= 64);
    assert_eq!(read.op().payload().unwrap().0, "s");
    assert_eq!(read.poll(OpEvent::Polled), FutureStep::Perform);
    match read.poll(OpEvent::Performed(Ok(b"hello".to_vec()))) {
        FutureStep::Return(Ok(Async::Ready((stream, buffer, count)))) => {
            assert_eq!(stream, "s");
            assert_eq!(&buffer[..], b"hello");
            assert_eq!(count, 5);
        },
        other => panic!("{:?}", other),
    }
    assert!(read.op().payload().is_none());
}

#[test]
fn received_bytes_are_in_front() {
    let mut read = Read::new("s", BytesMut::from(b"0123456789".to_vec()));
    read.poll(OpEvent::Polled);
    match read.poll(OpEvent::Performed(Ok(b"abc".to_vec()))) {
        FutureStep::Return(Ok(Async::Ready((_, buffer, count)))) => {
            assert_eq!(&buffer[..], b"abc3456789");
            assert_eq!(count, 3);
        },
        other => panic!("{:?}", other),
    }
}

#[test]
fn received_bytes_grow_the_buffer() {
    let mut recv = Recv::new("s", BytesMut::from(b"01".to_vec()));
    assert!(recv.limit() >= 2);
    assert_eq!(recv.poll::<u16>(OpEvent::Polled), FutureStep::Perform);
    match recv.poll(OpEvent::Performed(Ok((b"abcdef".to_vec(), 9u16)))) {
        FutureStep::Return(Ok(Async::Ready((socket, buffer, count, addr)))) => {
            assert_eq!((socket, &buffer[..], count, addr), ("s", &b"abcdef"[..], 6, 9));
        },
        other => panic!("{:?}", other),
    }
}

#[test]
fn end_of_stream() {
    let mut read = Read::new("s", BytesMut::from(b"01".to_vec()));
    read.poll(OpEvent::Polled);
    match read.poll(OpEvent::Performed(Ok(Vec::new()))) {
        FutureStep::Return(Ok(Async::Ready((_, buffer, count)))) => {
            assert_eq!((&buffer[..], count), (&b"01"[..], 0));
        },
        other => panic!("{:?}", other),
    }
}

#[test]
fn waiting_task_is_registered() {
    let mut read = Read::new("s", BytesMut::new());
    read.poll(OpEvent::Polled);
    let step = read.poll(OpEvent::Performed(Err(AGAIN)));
    assert_eq!(step, FutureStep::AddInterest(EventMask::only(Event::Read)));
    assert_eq!(read.poll(OpEvent::InterestAdded(Ok(6))), waits());
    assert_eq!(read.op().interest(), Some(&6));
    assert_eq!(read.poll(OpEvent::Polled), FutureStep::PollInterest);
    assert_eq!(read.poll(OpEvent::InterestPolled(Async::NotReady)), waits());
    assert_eq!(read.poll(OpEvent::Polled), FutureStep::PollInterest);
    assert_eq!(read.poll(OpEvent::InterestPolled(Async::Ready(()))), FutureStep::Perform);
    assert_eq!(read.poll(OpEvent::Performed(Err(AGAIN))), FutureStep::RegisterInterest);
    assert_eq!(read.poll(OpEvent::InterestRegistered), waits());
}

#[test]
fn interest_that_could_not_be_added() {
    let mut write = Write::new("s", Bytes::from_static(b"hello"));
    write.poll(OpEvent::Polled);
    let step = write.poll(OpEvent::Performed(Err(AGAIN)));
    assert_eq!(step, FutureStep::AddInterest(EventMask::only(Event::Write)));
    let step = write.poll(OpEvent::InterestAdded(Err(RESET)));
    assert_eq!(step, FutureStep::Return(Err(RESET)));
    assert!(write.op().payload().is_none());
}

#[test]
fn write_hands_buffer_back() {
    let mut write = Write::new("s", Bytes::from_static(b"hello"));
    assert_eq!(write.poll(OpEvent::Polled), FutureStep::Perform);
    let done = ("s", Bytes::from_static(b"hello"), 3);
    let step = write.poll(OpEvent::Performed(Ok(3)));
    assert_eq!(step, FutureStep::Return(Ok(Async::Ready(done))));
}

#[test]
fn failed_operation_resolves_future() {
    let mut read = Read::new("s", BytesMut::new());
    read.poll(OpEvent::Polled);
    assert_eq!(read.poll(OpEvent::Performed(Err(RESET))), FutureStep::Return(Err(RESET)));
    assert!(read.op().payload().is_none());
    let mut write = Write::new("s", Bytes::new());
    write.poll(OpEvent::Polled);
    assert_eq!(write.poll(OpEvent::Performed(Err(PROGRESS))), FutureStep::Return(Err(PROGRESS)));
}

#[test]
fn datagram_is_sent_whole() {
    let mut send = Send::new("s", Bytes::from_static(b"hello"), 80);
    assert_eq!(send.poll(OpEvent::Polled), FutureStep::Perform);
    let done = ("s", Bytes::from_static(b"hello"));
    let step = send.poll(OpEvent::Performed(Ok(5)));
    assert_eq!(step, FutureStep::Return(Ok(Async::Ready(done))));
    let mut send = Send::new("s", Bytes::from_static(b"hello"), 80);
    send.poll(OpEvent::Polled);
    let cut = Error::Simple(ErrorKind::WriteZero);
    assert_eq!(send.poll(OpEvent::Performed(Ok(4))), FutureStep::Return(Err(cut)));
    assert_eq!(cut.kind(), ErrorKind::WriteZero);
    assert_eq!(cut.raw_os_error(), None);
}

#[test]
fn connection_in_progress() {
    let mut connect = Conn::connect_with(Ok("s"), 80, libc::EINPROGRESS);
    assert_eq!(connect.op().payload(), Some(&("s", 80)));
    assert_eq!(connect.poll(OpEvent::Polled), FutureStep::Perform);
    let step = connect.poll(OpEvent::Performed(Err(PROGRESS)));
    assert_eq!(step, FutureStep::AddInterest(EventMask::only(Event::Write)));
    assert_eq!(connect.poll(OpEvent::InterestAdded(Ok(1))), waits());
    connect.poll(OpEvent::Polled);
    connect.poll(OpEvent::InterestPolled(Async::Ready(())));
    let step = connect.poll(OpEvent::Performed(Ok(())));
    assert_eq!(step, FutureStep::Return(Ok(Async::Ready("s"))));
}

#[test]
fn connection_that_blocks_or_fails() {
    let mut connect = Conn::connect_with(Ok("s"), 80, libc::EINPROGRESS);
    connect.poll(OpEvent::Polled);
    let step = connect.poll(OpEvent::Performed(Err(AGAIN)));
    assert_eq!(step, FutureStep::AddInterest(EventMask::only(Event::Write)));
    let mut connect = Conn::connect_with(Ok("s"), 80, libc::EINPROGRESS);
    connect.poll(OpEvent::Polled);
    assert_eq!(connect.poll(OpEvent::Performed(Err(RESET))), FutureStep::Return(Err(RESET)));
}

#[test]
fn code_of_a_connection_in_progress() {
    let mut connect = Conn::connect_with(Ok("s"), 80, 150);
    connect.poll(OpEvent::Polled);
    let other = Error::Os { kind: ErrorKind::Other, code: 150 };
    let step = connect.poll(OpEvent::Performed(Err(other)));
    assert_eq!(step, FutureStep::AddInterest(EventMask::only(Event::Write)));
    let mut connect = Conn::connect_with(Ok("s"), 80, 150);
    connect.poll(OpEvent::Polled);
    let step = connect.poll(OpEvent::Performed(Err(RESET)));
    assert_eq!(step, FutureStep::Return(Err(RESET)));
}

#[test]
fn room_of_a_buffer() {
    assert_eq!(Read::with_room("s", BytesMut::new(), 8192).limit(), 8192);
    assert_eq!(Recv::with_room("s", BytesMut::from(b"01".to_vec()), 1).limit(), 1);
    let buffer = BytesMut::with_capacity(8192);
    let capacity = buffer.capacity();
    assert_eq!(Read::new("s", buffer).limit(), capacity);
    let buffer = BytesMut::with_capacity(100);
    let capacity = buffer.capacity();
    assert_eq!(Recv::new("s", buffer).limit(), capacity);
}

#[test]
fn registering_follows_firing() {
    let mut read = Read::new("s", BytesMut::new());
    read.poll(OpEvent::Polled);
    read.poll(OpEvent::Performed(Err(AGAIN)));
    read.poll(OpEvent::InterestAdded(Ok(6)));
    assert_eq!(read.poll(OpEvent::Polled), FutureStep::PollInterest);
    assert_eq!(read.poll(OpEvent::InterestPolled(Async::Ready(()))), FutureStep::Perform);
    assert_eq!(read.poll(OpEvent::Performed(Err(AGAIN))), FutureStep::RegisterInterest);
}

#[test]
fn families_of_addresses() {
    assert_eq!(Family::of_addr(true), Family::V4);
    assert_eq!(Family::of_addr(false), Family::V6);
}

#[test]
fn connection_without_stream() {
    let mut connect = Conn::connect_with(Err(RESET), 80, libc::EINPROGRESS);
    assert_eq!(connect.poll(OpEvent::Polled), FutureStep::Return(Err(RESET)));
}

#[test]
fn accepted_connection_is_made_a_stream() {
    let mut accept = Acc::new("l");
    let step: AcceptStep<_, char, (u8, u16)> = accept.poll(OpEvent::Polled);
    assert_eq!(step, AcceptStep::Op(FutureStep::Perform));
    let step: AcceptStep<_, char, (u8, u16)> = accept.poll(OpEvent::Performed(Ok(('x', 80))));
    assert_eq!(step, AcceptStep::Adopt("l", 'x'));
    assert_eq!(accept.adopted(Ok(5u8)), Ok(Async::Ready((5, 80))));
}

#[test]
fn accepting_waits_or_fails() {
    let mut accept = Acc::new("l");
    accept.poll::<char, u8>(OpEvent::Polled);
    let step: AcceptStep<_, char, (u8, u16)> = accept.poll(OpEvent::Performed(Err(AGAIN)));
    assert_eq!(step, AcceptStep::Op(FutureStep::AddInterest(EventMask::only(Event::Read))));
    let mut accept = Acc::new("l");
    accept.poll::<char, u8>(OpEvent::Polled);
    accept.poll::<char, u8>(OpEvent::Performed(Ok(('x', 80))));
    assert_eq!(accept.adopted::<u8>(Err(RESET)), Err(RESET));
}

#[test]
fn system_calls_that_return_minus_one() {
    assert_eq!(check(-1, RESET), Err(RESET));
    assert_eq!(check(0, RESET), Ok(0));
    assert_eq!(check(7, RESET), Ok(7));
    assert_eq!(RESET.kind(), ErrorKind::Other);
    assert_eq!(RESET.raw_os_error(), Some(104));
}
