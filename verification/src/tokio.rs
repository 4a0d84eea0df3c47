//! Socket operations on a loop that keeps track of the readiness of each socket, as futures.
//!
//! A poll asks whether the socket is ready, attempts the operation where it is, and tells the loop
//! to watch the socket where the operation would block after all.

use crate::buffer::{
    bytes_data, bytes_len, bytes_mut_data, bytes_mut_len, law_received_bytes_are_in_front,
    overwritten, store_received,
};
use crate::io::{Async, Error, ErrorKind};
use bytes::{Bytes, BytesMut};
use vstd::prelude::*;

verus! {

/// What a socket is to be ready for.
#[derive(Clone, Copy, PartialEq, Eq, Debug, Structural)]
pub enum Direction {
    Read,
    Write,
}

/// Where a future is within a poll.
#[derive(Clone, Copy, PartialEq, Eq, Debug, Structural)]
pub enum Phase {
    /// Outside of a poll.
    Idle,
    /// The socket is being asked whether it is ready.
    Checking,
    /// The operation is being attempted.
    Performing,
    /// The loop is being told to watch the socket.
    Requesting,
    /// The future has resolved.
    Completed,
}

/// What a poll brought back.
#[derive(PartialEq, Eq, Debug)]
pub enum OpEvent<R> {
    /// The future is polled.
    Polled,
    /// Whether the socket is ready; where it is not, the task will be notified.
    Readiness(Async<()>),
    /// The operation was attempted.
    Performed(Result<R, Error>),
    /// The loop was told to watch the socket.
    Requested,
}

/// What a future needs done next, `T` being what it resolves to.
#[derive(PartialEq, Eq, Debug)]
pub enum FutureStep<T> {
    /// Ask whether the socket is ready.
    PollReadiness(Direction),
    /// Attempt the operation.
    Perform,
    /// Tell the loop to watch the socket.
    NeedReadiness(Direction),
    /// The poll is over.
    Return(Result<Async<T>, Error>),
}

/// What the protocol says is next.
pub enum OpStep<P, R> {
    /// Ask whether the socket is ready.
    PollReadiness(Direction),
    /// Attempt the operation.
    Perform,
    /// Tell the loop to watch the socket.
    NeedReadiness(Direction),
    /// The poll ends, and the task waits.
    Wait,
    /// The future fails.
    Fail(Error),
    /// The operation succeeded: what the future was made from, and what came of it.
    Complete(P, R),
}

/// The state of an operation.
pub struct OpState<P> {
    /// What the future was made from, until it resolves.
    pub payload: Option<P>,
    pub phase: Phase,
    /// What the socket is to be ready for.
    pub direction: Direction,
}

impl<P> OpState<P> {
    /// The payload is there until the future resolves.
    pub open spec fn wf(self) -> bool {
        self.payload is None <==> self.phase is Completed
    }

    /// Whether this can happen next. A future that resolved is not polled again.
    pub open spec fn expects<R>(self, event: OpEvent<R>) -> bool {
        match event {
            OpEvent::Polled => self.phase is Idle,
            OpEvent::Readiness(_) => self.phase is Checking,
            OpEvent::Performed(_) => self.phase is Performing,
            OpEvent::Requested => self.phase is Requesting,
        }
    }

    /// The state in another phase.
    pub open spec fn at(self, phase: Phase) -> OpState<P> {
        OpState { phase, ..self }
    }

    /// The state of a future that resolved.
    pub open spec fn resolved(self) -> OpState<P> {
        OpState { payload: None, phase: Phase::Completed, ..self }
    }

    /// The protocol: what an event leads to.
    pub open spec fn step<R>(self, event: OpEvent<R>) -> (OpState<P>, OpStep<P, R>) {
        match event {
            OpEvent::Polled => (
                self.at(Phase::Checking),
                OpStep::PollReadiness(self.direction),
            ),
            OpEvent::Readiness(Async::NotReady) => (self.at(Phase::Idle), OpStep::Wait),
            OpEvent::Readiness(Async::Ready(_)) => (self.at(Phase::Performing), OpStep::Perform),
            OpEvent::Performed(Ok(value)) => (
                self.resolved(),
                OpStep::Complete(self.payload->0, value),
            ),
            OpEvent::Performed(Err(error)) => if error.spec_kind() == ErrorKind::WouldBlock {
                (self.at(Phase::Requesting), OpStep::NeedReadiness(self.direction))
            } else {
                (self.resolved(), OpStep::Fail(error))
            },
            OpEvent::Requested => (self.at(Phase::Idle), OpStep::Wait),
        }
    }
}

/// The state of an operation that was not polled yet.
pub open spec fn started<P>(payload: P, direction: Direction) -> OpState<P> {
    OpState { payload: Some(payload), phase: Phase::Idle, direction }
}

impl<T> FutureStep<T> {
    /// This step hands on what the protocol says, for an operation that has not succeeded.
    pub open spec fn passes_on<P, R>(self, step: OpStep<P, R>) -> bool {
        match step {
            OpStep::PollReadiness(direction) => self == FutureStep::<T>::PollReadiness(direction),
            OpStep::Perform => self is Perform,
            OpStep::NeedReadiness(direction) => self == FutureStep::<T>::NeedReadiness(direction),
            OpStep::Wait => self == FutureStep::<T>::Return(Ok(Async::NotReady)),
            OpStep::Fail(error) => self == FutureStep::<T>::Return(Err(error)),
            OpStep::Complete(_, _) => false,
        }
    }
}

/// A socket operation that waits until the loop finds its socket ready.
pub struct EventedOp<P> {
    payload: Option<P>,
    phase: Phase,
    direction: Direction,
}

impl<P> EventedOp<P> {
    /// The state of the operation.
    pub closed spec fn state(&self) -> OpState<P> {
        OpState { payload: self.payload, phase: self.phase, direction: self.direction }
    }

    /// An operation that was not polled yet.
    fn new(payload: P, direction: Direction) -> (op: Self)
        ensures
            op.state() == started(payload, direction),
            op.state().wf(),
    {
        EventedOp { payload: Some(payload), phase: Phase::Idle, direction }
    }

    /// What the future was made from, until it resolves.
    pub fn payload(&self) -> (payload: Option<&P>)
        ensures
            payload == (match self.state().payload {
                Some(payload) => Some(&payload),
                None => None,
            }),
    {
        self.payload.as_ref()
    }

    /// Follows the protocol for one event.
    fn step<R>(&mut self, event: OpEvent<R>) -> (step: OpStep<P, R>)
        requires
            old(self).state().wf(),
            old(self).state().expects(event),
        ensures
            final(self).state().wf(),
            final(self).state() == old(self).state().step(event).0,
            step == old(self).state().step(event).1,
    {
        match event {
            OpEvent::Polled => {
                self.phase = Phase::Checking;
                OpStep::PollReadiness(self.direction)
            },
            OpEvent::Readiness(Async::NotReady) => {
                self.phase = Phase::Idle;
                OpStep::Wait
            },
            OpEvent::Readiness(Async::Ready(_)) => {
                self.phase = Phase::Performing;
                OpStep::Perform
            },
            OpEvent::Performed(Ok(value)) => {
                self.phase = Phase::Completed;
                OpStep::Complete(self.payload.take().unwrap(), value)
            },
            OpEvent::Performed(Err(error)) => {
                if error.kind() == ErrorKind::WouldBlock {
                    self.phase = Phase::Requesting;
                    OpStep::NeedReadiness(self.direction)
                } else {
                    self.phase = Phase::Completed;
                    self.payload = None;
                    OpStep::Fail(error)
                }
            },
            OpEvent::Requested => {
                self.phase = Phase::Idle;
                OpStep::Wait
            },
        }
    }
}

/// Writes to a stream.
pub struct TcpWrite<S> {
    op: EventedOp<(S, Bytes)>,
}

impl<S> TcpWrite<S> {
    /// The state of the operation.
    pub closed spec fn state(&self) -> OpState<(S, Bytes)> {
        self.op.state()
    }

    /// The operation.
    pub fn op(&self) -> (op: &EventedOp<(S, Bytes)>)
        ensures
            op.state() == self.state(),
    {
        &self.op
    }

    /// Writes the bytes of a buffer.
    pub fn new(stream: S, buffer: Bytes) -> (write: Self)
        ensures
            write.state().wf(),
            write.state() == started((stream, buffer), Direction::Write),
    {
        TcpWrite { op: EventedOp::new((stream, buffer), Direction::Write) }
    }

    /// Takes the next step. The number of bytes that were sent is returned beside the buffer, which
    /// may hold more.
    pub fn poll(&mut self, event: OpEvent<usize>) -> (step: FutureStep<(S, Bytes, usize)>)
        requires
            old(self).state().wf(),
            old(self).state().expects(event),
        ensures
            final(self).state().wf(),
            final(self).state() == old(self).state().step(event).0,
            match old(self).state().step(event).1 {
                OpStep::Complete((stream, buffer), count) => step
                    == FutureStep::<(S, Bytes, usize)>::Return(
                    Ok(Async::Ready((stream, buffer, count))),
                ),
                other => step.passes_on(other),
            },
    {
        match self.op.step(event) {
            OpStep::PollReadiness(direction) => FutureStep::PollReadiness(direction),
            OpStep::Perform => FutureStep::Perform,
            OpStep::NeedReadiness(direction) => FutureStep::NeedReadiness(direction),
            OpStep::Wait => FutureStep::Return(Ok(Async::NotReady)),
            OpStep::Fail(error) => FutureStep::Return(Err(error)),
            OpStep::Complete((stream, buffer), count) => FutureStep::Return(
                Ok(Async::Ready((stream, buffer, count))),
            ),
        }
    }
}

/// Reads from a stream.
pub struct TcpRead<S> {
    op: EventedOp<(S, BytesMut)>,
}

impl<S> TcpRead<S> {
    /// The state of the operation.
    pub closed spec fn state(&self) -> OpState<(S, BytesMut)> {
        self.op.state()
    }

    /// The operation.
    pub fn op(&self) -> (op: &EventedOp<(S, BytesMut)>)
        ensures
            op.state() == self.state(),
    {
        &self.op
    }

    /// Reads into what a buffer holds.
    pub fn new(stream: S, buffer: BytesMut) -> (read: Self)
        ensures
            read.state().wf(),
            read.state() == started((stream, buffer), Direction::Read),
    {
        TcpRead { op: EventedOp::new((stream, buffer), Direction::Read) }
    }

    /// How many bytes can be received at most: as many as the buffer holds.
    pub fn limit(&self) -> (limit: usize)
        requires
            self.state().payload is Some,
        ensures
            limit == bytes_mut_data((self.state().payload->0).1).len(),
    {
        bytes_mut_len(&self.op.payload.as_ref().unwrap().1)
    }

    /// Takes the next step. The bytes received are stored at the front of the buffer, and their
    /// number is returned beside it.
    pub fn poll(&mut self, event: OpEvent<Vec<u8>>) -> (step: FutureStep<(S, BytesMut, usize)>)
        requires
            old(self).state().wf(),
            old(self).state().expects(event),
            event matches OpEvent::Performed(Ok(received)) ==> received@.len() <= isize::MAX,
        ensures
            final(self).state().wf(),
            final(self).state() == old(self).state().step(event).0,
            match old(self).state().step(event).1 {
                OpStep::Complete((stream, buffer), received) => {
                    &&& step matches FutureStep::Return(Ok(Async::Ready((stream2, buffer2, count))))
                    &&& stream2 == stream
                    &&& bytes_mut_data(buffer2) == overwritten(bytes_mut_data(buffer), received@)
                    &&& count == received@.len()
                },
                other => step.passes_on(other),
            },
    {
        match self.op.step(event) {
            OpStep::PollReadiness(direction) => FutureStep::PollReadiness(direction),
            OpStep::Perform => FutureStep::Perform,
            OpStep::NeedReadiness(direction) => FutureStep::NeedReadiness(direction),
            OpStep::Wait => FutureStep::Return(Ok(Async::NotReady)),
            OpStep::Fail(error) => FutureStep::Return(Err(error)),
            OpStep::Complete((stream, mut buffer), received) => {
                let count: usize = received.len();
                store_received(&mut buffer, received.as_slice());
                FutureStep::Return(Ok(Async::Ready((stream, buffer, count))))
            },
        }
    }
}

/// Receives a datagram.
pub struct RecvFrom<S> {
    op: EventedOp<(S, BytesMut)>,
}

impl<S> RecvFrom<S> {
    /// The state of the operation.
    pub closed spec fn state(&self) -> OpState<(S, BytesMut)> {
        self.op.state()
    }

    /// The operation.
    pub fn op(&self) -> (op: &EventedOp<(S, BytesMut)>)
        ensures
            op.state() == self.state(),
    {
        &self.op
    }

    /// Receives into what a buffer holds.
    pub fn new(socket: S, buffer: BytesMut) -> (recv: Self)
        ensures
            recv.state().wf(),
            recv.state() == started((socket, buffer), Direction::Read),
    {
        RecvFrom { op: EventedOp::new((socket, buffer), Direction::Read) }
    }

    /// How many bytes can be received at most: as many as the buffer holds.
    pub fn limit(&self) -> (limit: usize)
        requires
            self.state().payload is Some,
        ensures
            limit == bytes_mut_data((self.state().payload->0).1).len(),
    {
        bytes_mut_len(&self.op.payload.as_ref().unwrap().1)
    }

    /// Takes the next step. The bytes received are stored as `TcpRead::poll` stores them, and the
    /// address that they came from is returned too.
    pub fn poll<A>(&mut self, event: OpEvent<(Vec<u8>, A)>) -> (step: FutureStep<
        (S, BytesMut, usize, A),
    >)
        requires
            old(self).state().wf(),
            old(self).state().expects(event),
            event matches OpEvent::Performed(Ok((received, _))) ==> received@.len() <= isize::MAX,
        ensures
            final(self).state().wf(),
            final(self).state() == old(self).state().step(event).0,
            match old(self).state().step(event).1 {
                OpStep::Complete((socket, buffer), (received, addr)) => {
                    &&& step matches FutureStep::Return(
                        Ok(Async::Ready((socket2, buffer2, count, addr2))),
                    )
                    &&& socket2 == socket
                    &&& bytes_mut_data(buffer2) == overwritten(bytes_mut_data(buffer), received@)
                    &&& count == received@.len()
                    &&& addr2 == addr
                },
                other => step.passes_on(other),
            },
    {
        match self.op.step(event) {
            OpStep::PollReadiness(direction) => FutureStep::PollReadiness(direction),
            OpStep::Perform => FutureStep::Perform,
            OpStep::NeedReadiness(direction) => FutureStep::NeedReadiness(direction),
            OpStep::Wait => FutureStep::Return(Ok(Async::NotReady)),
            OpStep::Fail(error) => FutureStep::Return(Err(error)),
            OpStep::Complete((socket, mut buffer), (received, addr)) => {
                let count: usize = received.len();
                store_received(&mut buffer, received.as_slice());
                FutureStep::Return(Ok(Async::Ready((socket, buffer, count, addr))))
            },
        }
    }
}

/// Sends a datagram.
pub struct SendTo<S, A> {
    op: EventedOp<(S, Bytes, A)>,
}

impl<S, A> SendTo<S, A> {
    /// The state of the operation.
    pub closed spec fn state(&self) -> OpState<(S, Bytes, A)> {
        self.op.state()
    }

    /// The operation.
    pub fn op(&self) -> (op: &EventedOp<(S, Bytes, A)>)
        ensures
            op.state() == self.state(),
    {
        &self.op
    }

    /// Sends the bytes of a buffer to an address.
    pub fn new(socket: S, buffer: Bytes, addr: A) -> (send: Self)
        ensures
            send.state().wf(),
            send.state() == started((socket, buffer, addr), Direction::Write),
    {
        SendTo { op: EventedOp::new((socket, buffer, addr), Direction::Write) }
    }

    /// Takes the next step. A datagram that was not sent whole is an error.
    pub fn poll(&mut self, event: OpEvent<usize>) -> (step: FutureStep<(S, Bytes)>)
        requires
            old(self).state().wf(),
            old(self).state().expects(event),
        ensures
            final(self).state().wf(),
            final(self).state() == old(self).state().step(event).0,
            match old(self).state().step(event).1 {
                OpStep::Complete((socket, buffer, _), count) => step
                    == FutureStep::<(S, Bytes)>::Return(
                    if count == bytes_data(buffer).len() {
                        Ok(Async::Ready((socket, buffer)))
                    } else {
                        Err(Error::Simple(ErrorKind::WriteZero))
                    },
                ),
                other => step.passes_on(other),
            },
    {
        match self.op.step(event) {
            OpStep::PollReadiness(direction) => FutureStep::PollReadiness(direction),
            OpStep::Perform => FutureStep::Perform,
            OpStep::NeedReadiness(direction) => FutureStep::NeedReadiness(direction),
            OpStep::Wait => FutureStep::Return(Ok(Async::NotReady)),
            OpStep::Fail(error) => FutureStep::Return(Err(error)),
            OpStep::Complete((socket, buffer, _), count) => {
                if count == bytes_len(&buffer) {
                    FutureStep::Return(Ok(Async::Ready((socket, buffer))))
                } else {
                    FutureStep::Return(Err(Error::Simple(ErrorKind::WriteZero)))
                }
            },
        }
    }
}

/// The state of a connection that is being made.
pub enum ConnectState<S> {
    /// The stream is not connected yet.
    Pending(S),
    /// There is no stream to connect.
    Error(Error),
    /// The future has resolved.
    Done,
}

/// Connects a stream.
pub struct Connect<S> {
    state: ConnectState<S>,
}

impl<S> Connect<S> {
    /// The state of the connection.
    pub closed spec fn state(&self) -> ConnectState<S> {
        self.state
    }

    /// Waits for a stream, if one could be had, to be connected.
    pub fn new(stream: Result<S, Error>) -> (connect: Self)
        ensures
            connect.state() == (match stream {
                Ok(stream) => ConnectState::Pending(stream),
                Err(error) => ConnectState::<S>::Error(error),
            }),
    {
        let state = match stream {
            Ok(stream) => ConnectState::Pending(stream),
            Err(error) => ConnectState::Error(error),
        };
        Connect { state }
    }

    /// The stream that is to become writable, where there is one.
    pub fn stream(&self) -> (stream: Option<&S>)
        ensures
            stream == (match self.state() {
                ConnectState::Pending(stream) => Some(&stream),
                _ => None,
            }),
    {
        match &self.state {
            ConnectState::Pending(stream) => Some(stream),
            _ => None,
        }
    }

    /// Polls the connection, `writable` being what the stream says of its readiness, which counts
    /// for nothing where there is no stream: a stream that can be written to is connected.
    pub fn poll(&mut self, writable: Async<()>) -> (result: Result<Async<S>, Error>)
        requires
            old(self).state() !is Done,
        ensures
            match old(self).state() {
                ConnectState::Pending(stream) => match writable {
                    Async::Ready(_) => {
                        &&& result == Ok::<Async<S>, Error>(Async::Ready(stream))
                        &&& final(self).state() is Done
                    },
                    Async::NotReady => {
                        &&& result == Ok::<Async<S>, Error>(Async::NotReady)
                        &&& final(self).state() == old(self).state()
                    },
                },
                ConnectState::Error(error) => {
                    &&& result == Err::<Async<S>, Error>(error)
                    &&& final(self).state() is Done
                },
                ConnectState::Done => true,
            },
    {
        let mut state = ConnectState::Done;
        core::mem::swap(&mut state, &mut self.state);
        match state {
            ConnectState::Pending(stream) => match writable {
                Async::Ready(_) => Ok(Async::Ready(stream)),
                Async::NotReady => {
                    self.state = ConnectState::Pending(stream);
                    Ok(Async::NotReady)
                },
            },
            ConnectState::Error(error) => Err(error),
            ConnectState::Done => vstd::pervasive::unreached(),
        }
    }
}

/// How far a connection has come that is being accepted.
pub enum AcceptStage<L, X, W, A> {
    /// No connection was accepted yet.
    Accepting,
    /// A connection was accepted, and it is to be found out where it can be registered.
    Locating(L, X, A),
    /// The connection is being registered with the loop, or sent there.
    Placing(A),
    /// The loop registers the connection on its own thread, and sends the stream here.
    WaitingForLoop(W, A),
    /// The future has resolved.
    Done,
}

/// What accepting a connection needs done next.
#[derive(PartialEq, Eq, Debug)]
pub enum AcceptStep<L, X, T> {
    /// A step of the protocol.
    Op(FutureStep<T>),
    /// Find out whether this is the thread of the loop.
    Locate,
    /// Register this connection with the loop.
    Register(X),
    /// Send this connection to the loop of the listener, which registers it and sends the stream
    /// back.
    Send(L, X),
    /// See whether the loop sent the stream.
    Receive,
}

/// Accepts a connection.
pub struct Accept<L, X, W, A> {
    op: EventedOp<L>,
    stage: AcceptStage<L, X, W, A>,
}

impl<L, X, W, A> Accept<L, X, W, A> {
    /// The state of the operation.
    pub closed spec fn state(&self) -> OpState<L> {
        self.op.state()
    }

    /// How far the connection has come.
    pub closed spec fn stage(&self) -> AcceptStage<L, X, W, A> {
        self.stage
    }

    /// The operation goes on until a connection was accepted.
    pub open spec fn wf(&self) -> bool {
        &&& self.state().wf()
        &&& self.stage() is Accepting <==> self.state().phase !is Completed
    }

    /// Accepts a connection on a listener.
    pub fn new(listener: L) -> (accept: Self)
        ensures
            accept.wf(),
            accept.state() == started(listener, Direction::Read),
            accept.stage() is Accepting,
    {
        Accept { op: EventedOp::new(listener, Direction::Read), stage: AcceptStage::Accepting }
    }

    /// The operation.
    pub fn op(&self) -> (op: &EventedOp<L>)
        ensures
            op.state() == self.state(),
    {
        &self.op
    }

    /// The listener of a connection whose place is to be found out.
    pub fn located_listener(&self) -> (listener: Option<&L>)
        ensures
            listener == (match self.stage() {
                AcceptStage::Locating(listener, _, _) => Some(&listener),
                _ => None,
            }),
    {
        match &self.stage {
            AcceptStage::Locating(listener, _, _) => Some(listener),
            _ => None,
        }
    }

    /// Where the stream comes out, while the loop registers the connection.
    pub fn receiver(&mut self) -> (receiver: Option<&mut W>)
        ensures
            match old(self).stage() {
                AcceptStage::WaitingForLoop(receiver2, addr) => {
                    &&& receiver is Some
                    &&& *receiver->0 == receiver2
                    &&& final(self).stage() == AcceptStage::<L, X, W, A>::WaitingForLoop(
                        *final(receiver->0),
                        addr,
                    )
                },
                _ => receiver is None && final(self).stage() == old(self).stage(),
            },
            final(self).state() == old(self).state(),
    {
        match &mut self.stage {
            AcceptStage::WaitingForLoop(receiver, _) => Some(receiver),
            _ => None,
        }
    }

    /// Takes the next step. A connection that was accepted has to be registered; where that can be
    /// done is to be found out. A future that waits for the loop looks for what the loop sent.
    pub fn poll<S>(&mut self, event: OpEvent<(X, A)>) -> (step: AcceptStep<L, X, (S, A)>)
        requires
            old(self).wf(),
            old(self).state().expects(event) || (old(self).stage() is WaitingForLoop
                && event is Polled),
        ensures
            final(self).wf(),
            if old(self).stage() is WaitingForLoop {
                &&& step is Receive
                &&& final(self).stage() == old(self).stage()
                &&& final(self).state() == old(self).state()
            } else {
                &&& final(self).state() == old(self).state().step(event).0
                &&& match old(self).state().step(event).1 {
                    OpStep::Complete(listener, (connection, addr)) => {
                        &&& step is Locate
                        &&& final(self).stage() == AcceptStage::<L, X, W, A>::Locating(
                            listener,
                            connection,
                            addr,
                        )
                    },
                    other => {
                        &&& step matches AcceptStep::Op(inner)
                        &&& inner.passes_on(other)
                        &&& final(self).stage() == (if other is Fail {
                            AcceptStage::<L, X, W, A>::Done
                        } else {
                            AcceptStage::<L, X, W, A>::Accepting
                        })
                    },
                }
            },
    {
        if let AcceptStage::WaitingForLoop(_, _) = &self.stage {
            return AcceptStep::Receive;
        }
        AcceptStep::Op(
            match self.op.step(event) {
                OpStep::PollReadiness(direction) => FutureStep::PollReadiness(direction),
                OpStep::Perform => FutureStep::Perform,
                OpStep::NeedReadiness(direction) => FutureStep::NeedReadiness(direction),
                OpStep::Wait => FutureStep::Return(Ok(Async::NotReady)),
                OpStep::Fail(error) => {
                    self.stage = AcceptStage::Done;
                    FutureStep::Return(Err(error))
                },
                OpStep::Complete(listener, (connection, addr)) => {
                    self.stage = AcceptStage::Locating(listener, connection, addr);
                    return AcceptStep::Locate;
                },
            },
        )
    }

    /// On the thread of the loop the connection is registered right away; otherwise it is sent
    /// there.
    pub fn located<S>(&mut self, on_loop: bool) -> (step: AcceptStep<L, X, (S, A)>)
        requires
            old(self).wf(),
            old(self).stage() is Locating,
        ensures
            final(self).wf(),
            final(self).state() == old(self).state(),
            old(self).stage() matches AcceptStage::Locating(listener, connection, addr) ==> {
                &&& final(self).stage() == AcceptStage::<L, X, W, A>::Placing(addr)
                &&& step == (if on_loop {
                    AcceptStep::<L, X, (S, A)>::Register(connection)
                } else {
                    AcceptStep::<L, X, (S, A)>::Send(listener, connection)
                })
            },
    {
        let mut stage = AcceptStage::Done;
        core::mem::swap(&mut stage, &mut self.stage);
        match stage {
            AcceptStage::Locating(listener, connection, addr) => {
                self.stage = AcceptStage::Placing(addr);
                if on_loop {
                    AcceptStep::Register(connection)
                } else {
                    AcceptStep::Send(listener, connection)
                }
            },
            _ => vstd::pervasive::unreached(),
        }
    }

    /// Resolves with the stream of a connection that was registered, or with why it could not be.
    pub fn registered<S>(&mut self, stream: Result<S, Error>) -> (result: Result<
        Async<(S, A)>,
        Error,
    >)
        requires
            old(self).wf(),
            old(self).stage() is Placing,
        ensures
            final(self).wf(),
            final(self).state() == old(self).state(),
            final(self).stage() is Done,
            old(self).stage() matches AcceptStage::Placing(addr) ==> result == (match stream {
                Ok(stream) => Ok::<Async<(S, A)>, Error>(Async::Ready((stream, addr))),
                Err(error) => Err::<Async<(S, A)>, Error>(error),
            }),
    {
        let mut stage = AcceptStage::Done;
        core::mem::swap(&mut stage, &mut self.stage);
        match stage {
            AcceptStage::Placing(addr) => match stream {
                Ok(stream) => Ok(Async::Ready((stream, addr))),
                Err(error) => Err(error),
            },
            _ => vstd::pervasive::unreached(),
        }
    }

    /// Waits for the stream of a connection that was sent to the loop; what comes is looked for at
    /// once, so that the task is notified of it.
    pub fn sent<S>(&mut self, receiver: W) -> (step: AcceptStep<L, X, (S, A)>)
        requires
            old(self).wf(),
            old(self).stage() is Placing,
        ensures
            final(self).wf(),
            final(self).state() == old(self).state(),
            step is Receive,
            old(self).stage() matches AcceptStage::Placing(addr) ==> final(self).stage()
                == AcceptStage::<L, X, W, A>::WaitingForLoop(receiver, addr),
    {
        let mut stage = AcceptStage::Done;
        core::mem::swap(&mut stage, &mut self.stage);
        match stage {
            AcceptStage::Placing(addr) => {
                self.stage = AcceptStage::WaitingForLoop(receiver, addr);
                AcceptStep::Receive
            },
            _ => vstd::pervasive::unreached(),
        }
    }

    /// Takes what came from the loop: its result, nothing yet, or the news that the loop is gone.
    pub fn received<S>(&mut self, sent: Result<Async<Result<S, Error>>, ()>) -> (result: Result<
        Async<(S, A)>,
        Error,
    >)
        requires
            old(self).wf(),
            old(self).stage() is WaitingForLoop,
        ensures
            final(self).wf(),
            final(self).state() == old(self).state(),
            final(self).stage() == (if sent == Ok::<_, ()>(Async::<Result<S, Error>>::NotReady) {
                old(self).stage()
            } else {
                AcceptStage::<L, X, W, A>::Done
            }),
            old(self).stage() matches AcceptStage::WaitingForLoop(_, addr) ==> result == (
            match sent {
                Ok(Async::Ready(Ok(stream))) => Ok::<Async<(S, A)>, Error>(
                    Async::Ready((stream, addr)),
                ),
                Ok(Async::Ready(Err(error))) => Err::<Async<(S, A)>, Error>(error),
                Ok(Async::NotReady) => Ok::<Async<(S, A)>, Error>(Async::NotReady),
                Err(_) => Err::<Async<(S, A)>, Error>(Error::LoopDied),
            }),
    {
        let mut stage = AcceptStage::Done;
        core::mem::swap(&mut stage, &mut self.stage);
        match stage {
            AcceptStage::WaitingForLoop(receiver, addr) => match sent {
                Ok(Async::Ready(Ok(stream))) => Ok(Async::Ready((stream, addr))),
                Ok(Async::Ready(Err(error))) => Err(error),
                Ok(Async::NotReady) => {
                    self.stage = AcceptStage::WaitingForLoop(receiver, addr);
                    Ok(Async::NotReady)
                },
                Err(_) => Err(Error::LoopDied),
            },
            _ => vstd::pervasive::unreached(),
        }
    }
}

/// A task that is told to wait is one that will be notified: either the socket said so when it was
/// found not ready, or the loop was told to watch it.
pub proof fn law_waiting_task_is_registered<P, R>(state: OpState<P>, event: OpEvent<R>)
    requires
        state.wf(),
        state.expects(event),
        state.step(event).1 is Wait,
    ensures
        event is Requested || event == OpEvent::<R>::Readiness(Async::NotReady),
{
}

/// A poll comes to an end: each of its steps either ends it or leads to a later phase.
pub proof fn law_poll_ends<P, R>(state: OpState<P>, event: OpEvent<R>)
    requires
        state.wf(),
        state.expects(event),
    ensures
        state.step(event).0.wf(),
        match state.step(event).1 {
            OpStep::Wait => state.step(event).0.phase is Idle,
            OpStep::Fail(_) => state.step(event).0.phase is Completed,
            OpStep::Complete(_, _) => state.step(event).0.phase is Completed,
            _ => phase_rank(state.step(event).0.phase) > phase_rank(state.phase),
        },
{
}

/// How far a poll has come.
pub open spec fn phase_rank(phase: Phase) -> int {
    match phase {
        Phase::Idle => 0,
        Phase::Checking => 1,
        Phase::Performing => 2,
        Phase::Requesting => 3,
        Phase::Completed => 4,
    }
}

/// A future resolves once: when it has, nothing can happen to it any more.
pub proof fn law_resolved_future_is_done<P, R>(
    state: OpState<P>,
    event: OpEvent<R>,
    later: OpEvent<R>,
)
    requires
        state.wf(),
        state.expects(event),
        state.step(event).1 is Complete || state.step(event).1 is Fail,
    ensures
        !state.step(event).0.expects(later),
{
}

/// What a future was made from is kept as it is until the future resolves, and is then handed back.
pub proof fn law_payload_is_kept<P, R>(state: OpState<P>, event: OpEvent<R>)
    requires
        state.wf(),
        state.expects(event),
    ensures
        match state.step(event).1 {
            OpStep::Complete(payload, _) => state.payload == Some(payload),
            OpStep::Fail(_) => true,
            _ => state.step(event).0.payload == state.payload,
        },
{
}

/// An attempt that fails resolves the future with that very error, unless the error says that the
/// operation has to wait: then, and only then, the loop is told to watch the socket, for what the
/// operation is to be ready for.
pub proof fn law_failed_attempt_resolves_future<P, R, T>(
    state: OpState<P>,
    event: OpEvent<R>,
    step: FutureStep<T>,
)
    requires
        state.wf(),
        state.expects(event),
        step.passes_on(state.step(event).1),
    ensures
        event matches OpEvent::Performed(Err(error)) ==> if error.spec_kind()
            == ErrorKind::WouldBlock {
            &&& step == FutureStep::<T>::NeedReadiness(state.direction)
            &&& state.step(event).0.payload == state.payload
        } else {
            &&& step == FutureStep::<T>::Return(Err(error))
            &&& state.step(event).0.payload is None
            &&& state.step(event).0.phase is Completed
        },
        step is NeedReadiness || (step matches FutureStep::Return(outcome) && outcome is Err)
            ==> event is Performed,
        step matches FutureStep::Return(Ok(ready)) ==> ready is NotReady,
{
}

/// An attempt that succeeds resolves the future, with what it was made from and what came of it.
pub proof fn law_successful_attempt_resolves_future<P, R>(state: OpState<P>, payload: P, value: R)
    requires
        state.wf(),
        state.phase is Performing,
        state.payload == Some(payload),
    ensures
        state.step(OpEvent::Performed(Ok(value))).1 == OpStep::Complete(payload, value),
        state.step(OpEvent::Performed(Ok(value))).0.payload is None,
        state.step(OpEvent::Performed(Ok(value))).0.phase is Completed,
{
}

/// Every poll asks first whether the socket is ready, for what the operation needs, and attempts
/// the operation exactly when it is.
pub proof fn law_poll_attempts_when_ready<P, R, T>(
    start: OpState<P>,
    first: FutureStep<T>,
    ready: Async<()>,
    second: FutureStep<T>,
)
    requires
        start.wf(),
        start.phase is Idle,
        first.passes_on(start.step(OpEvent::<R>::Polled).1),
        second.passes_on(
            start.step(OpEvent::<R>::Polled).0.step(OpEvent::<R>::Readiness(ready)).1,
        ),
    ensures
        first == FutureStep::<T>::PollReadiness(start.direction),
        start.step(OpEvent::<R>::Polled).0.expects(OpEvent::<R>::Readiness(ready)),
        ready is Ready ==> second is Perform,
        ready is NotReady ==> second == FutureStep::<T>::Return(Ok(Async::NotReady)),
{
}

/// What a socket is to be ready for never changes.
pub proof fn law_direction_stays<P, R>(state: OpState<P>, event: OpEvent<R>)
    requires
        state.wf(),
        state.expects(event),
    ensures
        state.step(event).0.direction == state.direction,
{
}

/// A read returns the bytes that were received at the front of its buffer, and their number,
/// waits where it would block, and fails with the error of its attempt and with no other.
pub proof fn law_read_returns_what_was_received<S>(
    read: &mut TcpRead<S>,
    before: OpState<(S, BytesMut)>,
    after: OpState<(S, BytesMut)>,
    event: OpEvent<Vec<u8>>,
    step: FutureStep<(S, BytesMut, usize)>,
)
    requires
        before == old(read).state(),
        after == final(read).state(),
        old(read).state().wf(),
        before.expects(event),
        event matches OpEvent::Performed(Ok(received)) ==> received@.len() <= isize::MAX,
        call_ensures(TcpRead::<S>::poll, (read, event), step),
    ensures
        event matches OpEvent::Performed(Err(error)) ==> if error.spec_kind()
            == ErrorKind::WouldBlock {
            step matches FutureStep::NeedReadiness(direction) && direction == before.direction
        } else {
            step matches FutureStep::Return(Err(reported)) && reported == error
        },
        step matches FutureStep::Return(Err(error)) ==> event == OpEvent::<Vec<u8>>::Performed(
            Err(error),
        ),
        step is NeedReadiness ==> event is Performed,
        (step matches FutureStep::Return(Ok(ready)) && ready is NotReady) <==> {
            ||| event matches OpEvent::Readiness(ready) && ready is NotReady
            ||| event is Requested
        },
        step is Perform <==> (event matches OpEvent::Readiness(ready) && ready is Ready),
        event is Polled <==> (step matches FutureStep::PollReadiness(direction) && direction
            == before.direction),
        event matches OpEvent::Performed(Ok(received)) ==> {
            let (stream, buffer) = before.payload->0;
            &&& step matches FutureStep::Return(Ok(Async::Ready((stream2, buffer2, count))))
            &&& stream2 == stream
            &&& count == received@.len()
            &&& bytes_mut_data(buffer2).take(count as int) == received@
            &&& bytes_mut_data(buffer2).skip(count as int) == bytes_mut_data(buffer).skip(
                count as int,
            ) || count >= bytes_mut_data(buffer).len()
            &&& bytes_mut_data(buffer2).len() == if count > bytes_mut_data(buffer).len() {
                count as int
            } else {
                bytes_mut_data(buffer).len() as int
            }
        },
        after.phase is Completed <==> (step matches FutureStep::Return(outcome) && !(
        outcome matches Ok(ready) && ready is NotReady)),
        step is PollReadiness ==> after.phase is Checking,
        step is Perform ==> after.phase is Performing,
        step is NeedReadiness ==> after.phase is Requesting,
        step is Return ==> after.phase is Idle || after.phase is Completed,
        after.phase !is Completed ==> after.payload == before.payload,
        after.direction == before.direction,
{
    if let OpEvent::Performed(Ok(received)) = event {
        let held = bytes_mut_data((before.payload->0).1);
        law_received_bytes_are_in_front(held, received@);
        assert(held.len() > received@.len() ==> overwritten(held, received@).skip(
            received@.len() as int,
        ) =~= held.skip(received@.len() as int));
    }
}

/// Receiving returns a datagram as a read returns its bytes, with the address that it came from; it
/// waits where it would block, and fails with the error of its attempt and with no other.
pub proof fn law_receiving_returns_datagram<S, A>(
    recv: &mut RecvFrom<S>,
    before: OpState<(S, BytesMut)>,
    after: OpState<(S, BytesMut)>,
    event: OpEvent<(Vec<u8>, A)>,
    step: FutureStep<(S, BytesMut, usize, A)>,
)
    requires
        before == old(recv).state(),
        after == final(recv).state(),
        old(recv).state().wf(),
        before.expects(event),
        event matches OpEvent::Performed(Ok((received, _))) ==> received@.len() <= isize::MAX,
        call_ensures(RecvFrom::<S>::poll::<A>, (recv, event), step),
    ensures
        event matches OpEvent::Performed(Err(error)) ==> if error.spec_kind()
            == ErrorKind::WouldBlock {
            step matches FutureStep::NeedReadiness(direction) && direction == before.direction
        } else {
            step matches FutureStep::Return(Err(reported)) && reported == error
        },
        step matches FutureStep::Return(Err(error)) ==> event == OpEvent::<(Vec<u8>, A)>::Performed(
            Err(error),
        ),
        step is NeedReadiness ==> event is Performed,
        (step matches FutureStep::Return(Ok(ready)) && ready is NotReady) <==> {
            ||| event matches OpEvent::Readiness(ready) && ready is NotReady
            ||| event is Requested
        },
        step is Perform <==> (event matches OpEvent::Readiness(ready) && ready is Ready),
        event is Polled <==> (step matches FutureStep::PollReadiness(direction) && direction
            == before.direction),
        event matches OpEvent::Performed(Ok((received, addr))) ==> {
            let (socket, buffer) = before.payload->0;
            &&& step matches FutureStep::Return(Ok(Async::Ready((socket2, buffer2, count, addr2))))
            &&& socket2 == socket
            &&& addr2 == addr
            &&& count == received@.len()
            &&& bytes_mut_data(buffer2).take(count as int) == received@
            &&& bytes_mut_data(buffer2).skip(count as int) == bytes_mut_data(buffer).skip(
                count as int,
            ) || count >= bytes_mut_data(buffer).len()
            &&& bytes_mut_data(buffer2).len() == if count > bytes_mut_data(buffer).len() {
                count as int
            } else {
                bytes_mut_data(buffer).len() as int
            }
        },
        after.phase is Completed <==> (step matches FutureStep::Return(outcome) && !(
        outcome matches Ok(ready) && ready is NotReady)),
        step is PollReadiness ==> after.phase is Checking,
        step is Perform ==> after.phase is Performing,
        step is NeedReadiness ==> after.phase is Requesting,
        step is Return ==> after.phase is Idle || after.phase is Completed,
        after.phase !is Completed ==> after.payload == before.payload,
        after.direction == before.direction,
{
    if let OpEvent::Performed(Ok((received, _))) = event {
        let held = bytes_mut_data((before.payload->0).1);
        law_received_bytes_are_in_front(held, received@);
        assert(held.len() > received@.len() ==> overwritten(held, received@).skip(
            received@.len() as int,
        ) =~= held.skip(received@.len() as int));
    }
}

/// A write returns the stream and the buffer as they were, and how many bytes were sent,
/// waits where it would block, and fails with the error of its attempt and with no other.
pub proof fn law_write_returns_count<S>(
    write: &mut TcpWrite<S>,
    before: OpState<(S, Bytes)>,
    after: OpState<(S, Bytes)>,
    event: OpEvent<usize>,
    step: FutureStep<(S, Bytes, usize)>,
)
    requires
        before == old(write).state(),
        after == final(write).state(),
        old(write).state().wf(),
        before.expects(event),
        call_ensures(TcpWrite::<S>::poll, (write, event), step),
    ensures
        event matches OpEvent::Performed(Err(error)) ==> if error.spec_kind()
            == ErrorKind::WouldBlock {
            step matches FutureStep::NeedReadiness(direction) && direction == before.direction
        } else {
            step matches FutureStep::Return(Err(reported)) && reported == error
        },
        step matches FutureStep::Return(Err(error)) ==> event == OpEvent::<usize>::Performed(
            Err(error),
        ),
        step is NeedReadiness ==> event is Performed,
        (step matches FutureStep::Return(Ok(ready)) && ready is NotReady) <==> {
            ||| event matches OpEvent::Readiness(ready) && ready is NotReady
            ||| event is Requested
        },
        step is Perform <==> (event matches OpEvent::Readiness(ready) && ready is Ready),
        event is Polled <==> (step matches FutureStep::PollReadiness(direction) && direction
            == before.direction),
        event matches OpEvent::Performed(Ok(count)) ==> {
            &&& step matches FutureStep::Return(Ok(Async::Ready((stream, buffer, sent))))
            &&& before.payload == Some((stream, buffer))
            &&& sent == count
        },
        after.phase is Completed <==> (step matches FutureStep::Return(outcome) && !(
        outcome matches Ok(ready) && ready is NotReady)),
        step is PollReadiness ==> after.phase is Checking,
        step is Perform ==> after.phase is Performing,
        step is NeedReadiness ==> after.phase is Requesting,
        step is Return ==> after.phase is Idle || after.phase is Completed,
        after.phase !is Completed ==> after.payload == before.payload,
        after.direction == before.direction,
{
}

/// Sending a datagram returns the socket and the buffer as they were if all of it was sent, and
/// fails if not. It waits where it would block, and fails with the error of its attempt too.
pub proof fn law_datagram_is_sent_whole<S, A>(
    send: &mut SendTo<S, A>,
    before: OpState<(S, Bytes, A)>,
    after: OpState<(S, Bytes, A)>,
    event: OpEvent<usize>,
    step: FutureStep<(S, Bytes)>,
)
    requires
        before == old(send).state(),
        after == final(send).state(),
        old(send).state().wf(),
        before.expects(event),
        call_ensures(SendTo::<S, A>::poll, (send, event), step),
    ensures
        event matches OpEvent::Performed(Err(error)) ==> if error.spec_kind()
            == ErrorKind::WouldBlock {
            step matches FutureStep::NeedReadiness(direction) && direction == before.direction
        } else {
            step matches FutureStep::Return(Err(reported)) && reported == error
        },
        step matches FutureStep::Return(Err(error)) ==> {
            ||| event == OpEvent::<usize>::Performed(Err(error))
            ||| event matches OpEvent::Performed(attempt) && attempt is Ok
        },
        step is NeedReadiness ==> event is Performed,
        (step matches FutureStep::Return(Ok(ready)) && ready is NotReady) <==> {
            ||| event matches OpEvent::Readiness(ready) && ready is NotReady
            ||| event is Requested
        },
        step is Perform <==> (event matches OpEvent::Readiness(ready) && ready is Ready),
        event is Polled <==> (step matches FutureStep::PollReadiness(direction) && direction
            == before.direction),
        event matches OpEvent::Performed(Ok(count)) ==> {
            let (socket, buffer, _) = before.payload->0;
            if count == bytes_data(buffer).len() {
                &&& step matches FutureStep::Return(Ok(Async::Ready((socket2, buffer2))))
                &&& socket2 == socket
                &&& buffer2 == buffer
            } else {
                &&& step matches FutureStep::Return(Err(error))
                &&& error == Error::Simple(ErrorKind::WriteZero)
            }
        },
        after.phase is Completed <==> (step matches FutureStep::Return(outcome) && !(
        outcome matches Ok(ready) && ready is NotReady)),
        step is PollReadiness ==> after.phase is Checking,
        step is Perform ==> after.phase is Performing,
        step is NeedReadiness ==> after.phase is Requesting,
        step is Return ==> after.phase is Idle || after.phase is Completed,
        after.phase !is Completed ==> after.payload == before.payload,
        after.direction == before.direction,
{
}

/// Until a connection was accepted, accepting waits where it would block, and fails with the error
/// of its attempt and with no other.
pub proof fn law_accepting_waits_for_connection<L, X, W, A, S>(
    accept: &mut Accept<L, X, W, A>,
    before: OpState<L>,
    after: OpState<L>,
    event: OpEvent<(X, A)>,
    step: FutureStep<(S, A)>,
)
    requires
        before == old(accept).state(),
        after == final(accept).state(),
        old(accept).wf(),
        before.expects(event),
        call_ensures(Accept::<L, X, W, A>::poll::<S>, (accept, event), AcceptStep::Op(step)),
    ensures
        event matches OpEvent::Performed(Err(error)) ==> if error.spec_kind()
            == ErrorKind::WouldBlock {
            step matches FutureStep::NeedReadiness(direction) && direction == before.direction
        } else {
            step matches FutureStep::Return(Err(reported)) && reported == error
        },
        step matches FutureStep::Return(Err(error)) ==> event == OpEvent::<(X, A)>::Performed(
            Err(error),
        ),
        step is NeedReadiness ==> event is Performed,
        (step matches FutureStep::Return(Ok(ready)) && ready is NotReady) <==> {
            ||| event matches OpEvent::Readiness(ready) && ready is NotReady
            ||| event is Requested
        },
        step is Perform <==> (event matches OpEvent::Readiness(ready) && ready is Ready),
        event is Polled <==> (step matches FutureStep::PollReadiness(direction) && direction
            == before.direction),
        !(event matches OpEvent::Performed(attempt) && attempt is Ok),
        after.phase is Completed <==> (step matches FutureStep::Return(outcome) && !(
        outcome matches Ok(ready) && ready is NotReady)),
        step is PollReadiness ==> after.phase is Checking,
        step is Perform ==> after.phase is Performing,
        step is NeedReadiness ==> after.phase is Requesting,
        step is Return ==> after.phase is Idle || after.phase is Completed,
        after.phase !is Completed ==> after.payload == before.payload,
        after.direction == before.direction,
{
}

/// A connection that was accepted is registered on the thread of the loop, and resolves the future
/// with its stream and the address that it came from, or with why it could not be registered.
pub proof fn law_connection_is_registered_on_loop<L, X, W, A, S>(
    accept: &mut Accept<L, X, W, A>,
    event: OpEvent<(X, A)>,
    connection: X,
    addr: A,
    located: &mut Accept<L, X, W, A>,
    next: AcceptStep<L, X, (S, A)>,
    registered: &mut Accept<L, X, W, A>,
    stream: Result<S, Error>,
    result: Result<Async<(S, A)>, Error>,
)
    requires
        old(accept).wf(),
        old(accept).state().expects(event),
        event == OpEvent::<(X, A)>::Performed(Ok((connection, addr))),
        call_ensures(
            Accept::<L, X, W, A>::poll::<S>,
            (accept, event),
            AcceptStep::<L, X, (S, A)>::Locate,
        ),
        *old(located) == *final(accept),
        call_ensures(Accept::<L, X, W, A>::located::<S>, (located, true), next),
        *old(registered) == *final(located),
        call_ensures(Accept::<L, X, W, A>::registered::<S>, (registered, stream), result),
    ensures
        next == AcceptStep::<L, X, (S, A)>::Register(connection),
        stream matches Ok(made) ==> {
            &&& result matches Ok(Async::Ready((made2, addr2)))
            &&& made2 == made
            &&& addr2 == addr
        },
        stream matches Err(error) ==> result == Err::<Async<(S, A)>, Error>(error),
        final(registered).stage() is Done,
{
}

/// A connection that was accepted on another thread is sent to the loop of its listener. The future
/// then waits until the loop sends the stream, or why there is none, and fails where the loop is
/// gone; nothing else ends it, and every poll until then looks at what the loop sent.
pub proof fn law_connection_is_sent_to_loop<L, X, W, A, S>(
    accept: &mut Accept<L, X, W, A>,
    event: OpEvent<(X, A)>,
    connection: X,
    addr: A,
    located: &mut Accept<L, X, W, A>,
    next: AcceptStep<L, X, (S, A)>,
    sent: &mut Accept<L, X, W, A>,
    receiver: W,
    first: AcceptStep<L, X, (S, A)>,
    received: &mut Accept<L, X, W, A>,
    answer: Result<Async<Result<S, Error>>, ()>,
    result: Result<Async<(S, A)>, Error>,
    later: &mut Accept<L, X, W, A>,
    again: AcceptStep<L, X, (S, A)>,
)
    requires
        old(accept).wf(),
        old(accept).state().expects(event),
        event == OpEvent::<(X, A)>::Performed(Ok((connection, addr))),
        call_ensures(
            Accept::<L, X, W, A>::poll::<S>,
            (accept, event),
            AcceptStep::<L, X, (S, A)>::Locate,
        ),
        *old(located) == *final(accept),
        call_ensures(Accept::<L, X, W, A>::located::<S>, (located, false), next),
        *old(sent) == *final(located),
        call_ensures(Accept::<L, X, W, A>::sent::<S>, (sent, receiver), first),
        *old(received) == *final(sent),
        call_ensures(Accept::<L, X, W, A>::received::<S>, (received, answer), result),
        *old(later) == *final(received),
        answer matches Ok(Async::NotReady) ==> call_ensures(
            Accept::<L, X, W, A>::poll::<S>,
            (later, OpEvent::<(X, A)>::Polled),
            again,
        ),
    ensures
        old(accept).state().payload matches Some(listener) && next == AcceptStep::<
            L,
            X,
            (S, A),
        >::Send(listener, connection),
        first is Receive,
        match answer {
            Ok(Async::Ready(Ok(stream))) => {
                &&& result matches Ok(Async::Ready((stream2, addr2)))
                &&& stream2 == stream
                &&& addr2 == addr
                &&& final(received).stage() is Done
            },
            Ok(Async::Ready(Err(error))) => {
                &&& result == Err::<Async<(S, A)>, Error>(error)
                &&& final(received).stage() is Done
            },
            Ok(Async::NotReady) => {
                &&& result matches Ok(Async::NotReady)
                &&& final(received).stage() == AcceptStage::<L, X, W, A>::WaitingForLoop(
                    receiver,
                    addr,
                )
                &&& again is Receive
            },
            Err(_) => {
                &&& result == Err::<Async<(S, A)>, Error>(Error::LoopDied)
                &&& final(received).stage() is Done
            },
        },
{
}

/// An attempt to accept that succeeds leads to finding out where the connection can be registered,
/// and while that is found out, the listener is at hand.
pub proof fn law_accepted_connection_is_located<L, X, W, A, S>(
    accept: &mut Accept<L, X, W, A>,
    event: OpEvent<(X, A)>,
    connection: X,
    addr: A,
    step: AcceptStep<L, X, (S, A)>,
    listener: Option<&L>,
)
    requires
        old(accept).wf(),
        old(accept).state().expects(event),
        event == OpEvent::<(X, A)>::Performed(Ok((connection, addr))),
        call_ensures(Accept::<L, X, W, A>::poll::<S>, (accept, event), step),
        call_ensures(Accept::<L, X, W, A>::located_listener, (&*final(accept),), listener),
    ensures
        step is Locate,
        old(accept).state().payload matches Some(held) && listener == Some(&held),
{
}

/// A stream that can be written to is connected and returned; until it can, connecting waits and
/// keeps it. Where there is no stream, connecting fails with why, whatever is said of writing.
pub proof fn law_connecting_returns_stream<S>(
    stream: Result<S, Error>,
    connect: &mut Connect<S>,
    writable: Async<()>,
    result: Result<Async<S>, Error>,
    held: Option<&S>,
)
    requires
        call_ensures(Connect::<S>::new, (stream,), *old(connect)),
        call_ensures(Connect::<S>::poll, (connect, writable), result),
        call_ensures(Connect::<S>::stream, (&*final(connect),), held),
    ensures
        stream matches Err(error) ==> result == Err::<Async<S>, Error>(error) && held is None,
        stream matches Ok(made) ==> {
            &&& writable is Ready ==> {
                &&& result matches Ok(Async::Ready(connected))
                &&& connected == made
                &&& held is None
            }
            &&& writable is NotReady ==> {
                &&& result matches Ok(Async::NotReady)
                &&& held == Some(&made)
                &&& final(connect).state() == old(connect).state()
            }
        },
{
}

/// A read asks on its first poll whether the stream can be read from.
pub proof fn law_read_awaits_reading<S>(
    stream: S,
    buffer: BytesMut,
    read: &mut TcpRead<S>,
    step: FutureStep<(S, BytesMut, usize)>,
)
    requires
        call_ensures(TcpRead::<S>::new, (stream, buffer), *old(read)),
        call_ensures(TcpRead::<S>::poll, (read, OpEvent::<Vec<u8>>::Polled), step),
    ensures
        old(read).state().wf(),
        old(read).state().expects(OpEvent::<Vec<u8>>::Polled),
        step matches FutureStep::PollReadiness(direction) && direction is Read,
        final(read).state().payload == Some((stream, buffer)),
        final(read).state().direction is Read,
{
}

/// Receiving asks on its first poll whether the socket can be read from.
pub proof fn law_receiving_awaits_reading<S, A>(
    socket: S,
    buffer: BytesMut,
    recv: &mut RecvFrom<S>,
    step: FutureStep<(S, BytesMut, usize, A)>,
)
    requires
        call_ensures(RecvFrom::<S>::new, (socket, buffer), *old(recv)),
        call_ensures(RecvFrom::<S>::poll::<A>, (recv, OpEvent::<(Vec<u8>, A)>::Polled), step),
    ensures
        old(recv).state().wf(),
        old(recv).state().expects(OpEvent::<(Vec<u8>, A)>::Polled),
        step matches FutureStep::PollReadiness(direction) && direction is Read,
        final(recv).state().payload == Some((socket, buffer)),
        final(recv).state().direction is Read,
{
}

/// A write asks on its first poll whether the stream can be written to.
pub proof fn law_write_awaits_writing<S>(
    stream: S,
    buffer: Bytes,
    write: &mut TcpWrite<S>,
    step: FutureStep<(S, Bytes, usize)>,
)
    requires
        call_ensures(TcpWrite::<S>::new, (stream, buffer), *old(write)),
        call_ensures(TcpWrite::<S>::poll, (write, OpEvent::<usize>::Polled), step),
    ensures
        old(write).state().wf(),
        old(write).state().expects(OpEvent::<usize>::Polled),
        step matches FutureStep::PollReadiness(direction) && direction is Write,
        final(write).state().payload == Some((stream, buffer)),
        final(write).state().direction is Write,
{
}

/// Sending asks on its first poll whether the socket can be written to.
pub proof fn law_sending_awaits_writing<S, A>(
    socket: S,
    buffer: Bytes,
    addr: A,
    send: &mut SendTo<S, A>,
    step: FutureStep<(S, Bytes)>,
)
    requires
        call_ensures(SendTo::<S, A>::new, (socket, buffer, addr), *old(send)),
        call_ensures(SendTo::<S, A>::poll, (send, OpEvent::<usize>::Polled), step),
    ensures
        old(send).state().wf(),
        old(send).state().expects(OpEvent::<usize>::Polled),
        step matches FutureStep::PollReadiness(direction) && direction is Write,
        final(send).state().payload == Some((socket, buffer, addr)),
        final(send).state().direction is Write,
{
}

/// Accepting asks on its first poll whether the listener can be read from.
pub proof fn law_accepting_awaits_reading<L, X, W, A, S>(
    listener: L,
    accept: &mut Accept<L, X, W, A>,
    step: AcceptStep<L, X, (S, A)>,
)
    requires
        call_ensures(Accept::<L, X, W, A>::new, (listener,), *old(accept)),
        call_ensures(Accept::<L, X, W, A>::poll::<S>, (accept, OpEvent::<(X, A)>::Polled), step),
    ensures
        old(accept).wf(),
        old(accept).state().expects(OpEvent::<(X, A)>::Polled),
        step matches AcceptStep::Op(inner) && inner matches FutureStep::PollReadiness(
            direction,
        ) && direction is Read,
        final(accept).state().payload == Some(listener),
        final(accept).state().direction is Read,
{
}

/// What a future was made from is at hand until it resolves.
pub proof fn law_operation_has_its_payload_at_hand<P>(op: EventedOp<P>, payload: Option<&P>)
    requires
        call_ensures(EventedOp::<P>::payload, (&op,), payload),
    ensures
        payload is Some <==> op.state().payload is Some,
        payload matches Some(held) ==> op.state().payload == Some(*held),
{
}

/// Where the stream comes out is at hand exactly while a future waits for the loop, and looking
/// there changes nothing else.
pub proof fn law_receiver_is_at_hand_while_waiting<L, X, W, A>(
    accept: &mut Accept<L, X, W, A>,
    receiver: Option<&mut W>,
)
    requires
        call_ensures(Accept::<L, X, W, A>::receiver, (accept,), receiver),
    ensures
        receiver is Some <==> old(accept).stage() is WaitingForLoop,
        receiver is None ==> final(accept).stage() == old(accept).stage(),
        receiver matches Some(held) ==> {
            &&& old(accept).stage() matches AcceptStage::WaitingForLoop(before, addr)
            &&& *held == before
            &&& final(accept).stage() == AcceptStage::<L, X, W, A>::WaitingForLoop(
                *final(held),
                addr,
            )
        },
        final(accept).state() == old(accept).state(),
{
}

/// A read, and receiving, takes as many bytes as the buffer holds that it was given.
pub proof fn law_buffer_bounds_what_is_received<S>(
    stream: S,
    buffer: BytesMut,
    read: TcpRead<S>,
    recv: RecvFrom<S>,
    limits: (usize, usize),
)
    requires
        call_ensures(TcpRead::<S>::new, (stream, buffer), read),
        call_ensures(RecvFrom::<S>::new, (stream, buffer), recv),
        call_ensures(TcpRead::<S>::limit, (&read,), limits.0),
        call_ensures(RecvFrom::<S>::limit, (&recv,), limits.1),
    ensures
        limits.0 == bytes_mut_data(buffer).len(),
        limits.1 == bytes_mut_data(buffer).len(),
{
}

} // verus!
