use bytes::{Bytes, BytesMut};
use complete_io::io::{Async, Error, ErrorKind};
use complete_io::iocp::net::{
    ensure_bytes_safe, ensure_bytesmut_safe, must_leak, Accept, AcceptStep, Connect, ConnectStep,
    FutureStep, IpVersion, OpEvent, RecvFrom, SendTo, TcpRead, TcpWrite,
};
use complete_io::iocp::{
    timeout_ms, AddSocket, Completion, CompletionPort, CompletionStep, EventTag, OverlappedTask,
    PollSocketStep, PortStep, PortTurn, FUTURE_NOTIFY_IOCP_TOKEN, INFINITE, STATUS_PENDING, WAIT_TIMEOUT,
};
use complete_io::net::Family;
use complete_io::queue::Timeout;

const RESET: Error = Error::Os { kind: ErrorKind::Other, code: 10054 };

fn waits<V>() -> FutureStep<V> {
    FutureStep::Return(Ok(Async::NotReady))
}

#[test]
fn port_that_could_not_be_made() {
    assert_eq!(CompletionPort::new(Err(RESET)).err(), Some(RESET));
}

#[test]
fn posted_event_reaches_its_callback() {
    let mut port = CompletionPort::new(Ok(40)).unwrap();
    let handle = port.handle();
    let a = port.new_custom_event(0x1000);
    let b = port.new_custom_event(0x2000);
    assert_eq!(b, EventTag { callback_ptr: 0x2000, iocp_id: 40 });
    let completion = handle.post_custom_event(a, 6);
    assert_eq!(completion, Completion { token: 0x1000, overlapped: 6 });
    assert_eq!(port.dispatch(completion), CompletionStep::Callback(a, 6));
}

#[test]
fn completion_notifies_its_task() {
    let port = CompletionPort::new(Ok(40)).unwrap();
    let AddSocket { iocp_id, token, socket } = port.handle().add_socket("s");
    assert_eq!((iocp_id, token, socket), (40, FUTURE_NOTIFY_IOCP_TOKEN, "s"));
    let completion = Completion { token, overlapped: 0xabc };
    assert_eq!(port.dispatch(completion), CompletionStep::Notify(0xabc));
}

fn count(port: &CompletionPort, turn: Result<PortTurn, Error>) -> Result<PortStep, Error> {
    turn.map(|mut turn| turn.dispatch(port))
}

#[test]
fn waits_for_completions() {
    let port = CompletionPort::new(Ok(40)).unwrap();
    let limit = Some(Timeout { secs: 1, nanos: 0 });
    let timed_out = port.waited(limit, Err((WAIT_TIMEOUT, RESET)));
    assert_eq!(count(&port, timed_out), Ok(PortStep::Done(0)));
    assert_eq!(count(&port, port.waited(None, Err((WAIT_TIMEOUT, RESET)))), Err(RESET));
    assert_eq!(count(&port, port.waited(limit, Err((6, RESET)))), Err(RESET));
}

#[test]
fn completions_are_dispatched_in_order() {
    let mut port = CompletionPort::new(Ok(40)).unwrap();
    let tag = port.new_custom_event(0x1000);
    let reported = vec![
        Completion { token: 1, overlapped: 0xa },
        Completion { token: 0x1000, overlapped: 7 },
        Completion { token: 1, overlapped: 0xb },
    ];
    let mut turn = port.waited(None, Ok(reported)).ok().unwrap();
    assert_eq!(turn.dispatch(&port), PortStep::Dispatch(CompletionStep::Notify(0xa)));
    assert_eq!(turn.dispatch(&port), PortStep::Dispatch(CompletionStep::Callback(tag, 7)));
    assert_eq!(turn.dispatch(&port), PortStep::Dispatch(CompletionStep::Notify(0xb)));
    assert_eq!(turn.dispatch(&port), PortStep::Done(3));
    assert_eq!(turn.dispatch(&port), PortStep::Done(3));
}

#[test]
fn waiting_times_of_a_port() {
    let wait = |secs, nanos| timeout_ms(Some(Timeout { secs, nanos }));
    assert_eq!(timeout_ms(None), INFINITE);
    assert_eq!(wait(0, 999_999), 0);
    assert_eq!(wait(2, 3_999_999), 2003);
    assert_eq!(wait(4_294_967, 294_000_000), 4_294_967_294);
}

#[test]
fn wait_of_a_port_is_no_longer_than_asked() {
    let all = Timeout { secs: 4_294_967, nanos: 295_000_000 };
    assert_eq!(timeout_ms(Some(all)), INFINITE - 1);
    assert_eq!(timeout_ms(Some(Timeout { secs: 4_294_968, nanos: 0 })), INFINITE - 1);
    assert_eq!(timeout_ms(Some(Timeout { secs: u64::MAX, nanos: 0 })), INFINITE - 1);
}

#[test]
fn last_registered_task_is_notified() {
    let mut task = OverlappedTask::new('a');
    task.register('b');
    assert!(!task.is_submitted());
    assert_eq!(task.for_operation(Ok(4)), Ok(4));
    assert!(task.is_submitted());
    task.register('c');
    assert_eq!(task.completed(), Some('c'));
    assert_eq!(task.for_operation::<u8>(Err(RESET)), Err(RESET));
    assert_eq!(task.for_operation(Ok(5)), Ok(5));
    assert_eq!(task.completed(), None);
}

#[test]
fn status_of_an_operation() {
    let task = OverlappedTask::new('a');
    assert_eq!(task.poll_socket(STATUS_PENDING), PollSocketStep::NotReady);
    assert_eq!(task.poll_socket(0), PollSocketStep::GetResult);
    assert_eq!(task.socket_result(true, 7, 2, RESET), Ok(Async::Ready((7, 2))));
    assert_eq!(task.socket_result(false, 7, 2, RESET), Err(RESET));
}

#[test]
fn addresses_of_a_listener() {
    assert_eq!(IpVersion::of_listener(true, Err(RESET)), Ok(IpVersion::V4Only));
    assert_eq!(IpVersion::of_listener(false, Err(RESET)), Err(RESET));
    assert_eq!(IpVersion::of_listener(false, Ok(0)), Ok(IpVersion::DualStack));
    assert_eq!(IpVersion::of_listener(false, Ok(1)), Ok(IpVersion::V6Only));
    assert_eq!(IpVersion::V4Only.family(), Family::V4);
    assert_eq!(IpVersion::V6Only.family(), Family::V6);
    assert_eq!(IpVersion::DualStack.family(), Family::V6);
}

#[test]
fn operation_that_completes_at_once() {
    let mut write: TcpWrite<_, u8> = TcpWrite::new("s", Bytes::from_static(b"hello"));
    assert_eq!(write.poll(OpEvent::Polled), FutureStep::Submit);
    assert_eq!(write.op().payload().unwrap().0, "s");
    let done = ("s", Bytes::from_static(b"hello"), 4);
    let step = write.poll(OpEvent::Submitted(Ok((Some(4), 1))));
    assert_eq!(step, FutureStep::Return(Ok(Async::Ready(done))));
    assert_eq!(write.op().abandon(), None);
}

#[test]
fn operation_is_submitted_once() {
    let mut read: TcpRead<_, _, u8> = TcpRead::new("s", "buffer");
    assert_eq!(read.poll(OpEvent::Polled), FutureStep::Submit);
    assert_eq!(read.poll(OpEvent::Submitted(Ok((None, 7)))), waits());
    assert_eq!(read.poll(OpEvent::Polled), FutureStep::PollTask);
    assert_eq!(read.op().task(), Some(&7));
    assert_eq!(read.poll(OpEvent::TaskPolled(Ok(Async::NotReady))), waits());
    assert_eq!(read.poll(OpEvent::Polled), FutureStep::PollTask);
    let step = read.poll(OpEvent::TaskPolled(Ok(Async::Ready(3))));
    assert_eq!(step, FutureStep::Return(Ok(Async::Ready(("s", "buffer", 3)))));
}

#[test]
fn operation_that_fails() {
    let mut recv: RecvFrom<_, _, u8> = RecvFrom::new("s", "buffer");
    recv.poll::<u16>(OpEvent::Polled);
    let step = recv.poll::<u16>(OpEvent::Submitted(Err(RESET)));
    assert_eq!(step, FutureStep::Return(Err(RESET)));
    let mut recv: RecvFrom<_, _, u8> = RecvFrom::new("s", "buffer");
    recv.poll::<u16>(OpEvent::Polled);
    recv.poll::<u16>(OpEvent::Submitted(Ok((None, 7))));
    recv.poll::<u16>(OpEvent::Polled);
    let step = recv.poll::<u16>(OpEvent::TaskPolled(Err(RESET)));
    assert_eq!(step, FutureStep::Return(Err(RESET)));
    assert_eq!(recv.op().abandon(), None);
}

#[test]
fn datagram_through_a_port() {
    let mut recv: RecvFrom<_, _, u8> = RecvFrom::new("s", "buffer");
    recv.poll::<u16>(OpEvent::Polled);
    let step = recv.poll(OpEvent::Submitted(Ok((Some((5, 80u16)), 7))));
    assert_eq!(step, FutureStep::Return(Ok(Async::Ready(("s", "buffer", 5, 80)))));
    for &(sent, whole) in [(5usize, true), (4, false)].iter() {
        let mut send: SendTo<_, u16, u8> = SendTo::new("s", Bytes::from_static(b"hello"), 80);
        assert_eq!(send.poll(OpEvent::Polled), FutureStep::Submit);
        let expected = if whole {
            Ok(Async::Ready(("s", Bytes::from_static(b"hello"))))
        } else {
            Err(Error::Simple(ErrorKind::WriteZero))
        };
        let step = send.poll(OpEvent::Submitted(Ok((Some(sent), 1))));
        assert_eq!(step, FutureStep::Return(expected));
    }
}

#[test]
fn abandoned_operation_is_cancelled() {
    let mut read: TcpRead<_, _, u8> = TcpRead::new("s", "buffer");
    assert_eq!(read.op().abandon(), None);
    let mut read: TcpRead<_, _, u8> = TcpRead::new("s", "buffer");
    read.poll(OpEvent::Polled);
    read.poll(OpEvent::Submitted(Ok((None, 7))));
    assert_eq!(read.op().abandon(), Some((("s", "buffer"), 7)));
    assert_eq!(read.op().abandon(), None);
    assert!(must_leak(Err(RESET)));
    assert!(!must_leak(Ok(())));
}

#[test]
fn connection_through_a_port() {
    let mut connect: Connect<_, u16, u8> = Connect::new(Ok("s"), 80);
    assert_eq!(connect.poll(OpEvent::Polled), ConnectStep::Submit);
    let step = connect.poll(OpEvent::Submitted(Ok((None, 7))));
    assert_eq!(step, ConnectStep::Return(Ok(Async::NotReady)));
    assert_eq!(connect.poll(OpEvent::Polled), ConnectStep::PollTask);
    let step = connect.poll(OpEvent::TaskPolled(Ok(Async::Ready(()))));
    assert_eq!(step, ConnectStep::Finish("s"));
    assert_eq!(connect.finished("s", Ok(())), Ok(Async::Ready("s")));
    let mut connect: Connect<_, u16, u8> = Connect::new(Ok("s"), 80);
    connect.poll(OpEvent::Polled);
    let step = connect.poll(OpEvent::Submitted(Ok((Some(()), 7))));
    assert_eq!(step, ConnectStep::Finish("s"));
    assert_eq!(connect.finished("s", Err(RESET)), Err(RESET));
    let mut connect: Connect<&str, u16, u8> = Connect::new(Err(RESET), 80);
    assert_eq!(connect.poll(OpEvent::Polled), ConnectStep::Return(Err(RESET)));
}

#[test]
fn accepting_through_a_port() {
    let families = [
        (IpVersion::V4Only, Family::V4),
        (IpVersion::V6Only, Family::V6),
        (IpVersion::DualStack, Family::V6),
    ];
    for &(version, family) in families.iter() {
        let mut accept: Accept<_, u8> = Accept::new("l", version);
        let step: AcceptStep<_, _, u16> = accept.poll(OpEvent::Polled);
        assert_eq!(step, AcceptStep::Initiate(family));
        let step: AcceptStep<_, _, u16> = accept.poll(OpEvent::Submitted(Ok((None, 7))));
        assert_eq!(step, AcceptStep::Return(Ok(Async::NotReady)));
        let step: AcceptStep<_, _, u16> = accept.poll(OpEvent::Polled);
        assert_eq!(step, AcceptStep::PollTask);
        let step: AcceptStep<_, _, u16> = accept.poll(OpEvent::TaskPolled(Ok(Async::Ready(()))));
        assert_eq!(step, AcceptStep::Finish("l", 7));
        assert_eq!(accept.finished(Ok(5u16)), Ok(Async::Ready(5)));
    }
    let mut accept: Accept<_, u8> = Accept::new("l", IpVersion::V4Only);
    accept.poll::<u16>(OpEvent::Polled);
    let step: AcceptStep<_, _, u16> = accept.poll(OpEvent::Submitted(Ok((Some(()), 7))));
    assert_eq!(step, AcceptStep::Finish("l", 7));
    assert_eq!(accept.finished::<u16>(Err(RESET)), Err(RESET));
}

#[test]
fn safe_bytes_stay_where_they_are() {
    let mut bytes = Bytes::from(&b"hello"[..]);
    let data = bytes.as_ptr() as usize;
    assert!(ensure_bytes_safe(&mut bytes, data, data, data + 1));
    let data = bytes.as_ptr() as usize;
    let moved = Box::new(bytes);
    assert_eq!(moved.as_ptr() as usize, data);
    let mut writable = BytesMut::from(&b"hello"[..]);
    let data = writable.as_ptr() as usize;
    assert!(ensure_bytesmut_safe(&mut writable, data, data, data + 1));
    let data = writable.as_ptr() as usize;
    let moved = Box::new(writable);
    assert_eq!(moved.as_ptr() as usize, data);
}

#[test]
fn bytes_stored_inline_are_moved_out() {
    let mut bytes = Bytes::from(&b"hello"[..]);
    let data = bytes.as_ptr() as usize;
    assert!(!ensure_bytes_safe(&mut bytes, data, data + 1, data + 32));
    assert!(!ensure_bytes_safe(&mut bytes, data, data - 32, data));
    assert_eq!(bytes.as_ptr() as usize, data);
    assert!(ensure_bytes_safe(&mut bytes, data, data, data + 1));
    assert_ne!(bytes.as_ptr() as usize, data);
    assert_eq!(&bytes[..], b"hello");
}

#[test]
fn writable_bytes_stored_inline_are_moved_out() {
    let mut bytes = BytesMut::from(&b"hello"[..]);
    let data = bytes.as_ptr() as usize;
    assert!(!ensure_bytesmut_safe(&mut bytes, data, data + 1, data + 32));
    assert!(!ensure_bytesmut_safe(&mut bytes, data, data - 32, data));
    assert_eq!(bytes.as_ptr() as usize, data);
    assert!(ensure_bytesmut_safe(&mut bytes, data, data, data + 1));
    assert_ne!(bytes.as_ptr() as usize, data);
    assert_eq!(&bytes[..], b"hello");
}
