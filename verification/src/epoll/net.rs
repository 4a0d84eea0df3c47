//! Socket operations on an `epoll` event queue, as futures.
//!
//! All of them follow one protocol. A poll first asks the interest of the future, where it has one,
//! whether it fired; then it attempts the operation. Where the operation would block, the future
//! gets an interest, or registers its task with the one that it has, and waits.

use crate::buffer::{
    bytes_data, bytes_len, bytes_mut_capacity, bytes_mut_data, law_received_bytes_are_in_front,
    overwritten, store_received,
};
use crate::epoll::flags::{Event, EventMask};
use crate::io::{Async, Error, ErrorKind};
use bytes::{Bytes, BytesMut};
use vstd::prelude::*;

verus! {

/// Where a future is within a poll.
#[derive(Clone, Copy, PartialEq, Eq, Debug, Structural)]
pub enum Phase {
    /// Outside of a poll.
    Idle,
    /// The interest is being asked.
    Checking,
    /// The operation is being attempted.
    Performing,
    /// An interest is being added.
    Adding,
    /// The task is being registered with the interest.
    Registering,
    /// The future has resolved.
    Completed,
}

/// What a poll brought back.
#[derive(PartialEq, Eq, Debug)]
pub enum OpEvent<I, R> {
    /// The future is polled.
    Polled,
    /// The interest was asked whether it fired; where it did not, the task is registered with it.
    InterestPolled(Async<()>),
    /// The operation was attempted.
    Performed(Result<R, Error>),
    /// An interest was to be added.
    InterestAdded(Result<I, Error>),
    /// The task was registered with the interest.
    InterestRegistered,
}

/// What a future needs done next, `T` being what it resolves to.
#[derive(PartialEq, Eq, Debug)]
pub enum FutureStep<T> {
    /// Ask the interest whether it fired.
    PollInterest,
    /// Attempt the operation.
    Perform,
    /// Add an interest in these conditions for the current task.
    AddInterest(EventMask),
    /// Register the current task with the interest.
    RegisterInterest,
    /// The poll is over.
    Return(Result<Async<T>, Error>),
}

/// What the protocol says is next.
pub enum OpStep<P, R> {
    /// Ask the interest whether it fired.
    PollInterest,
    /// Attempt the operation.
    Perform,
    /// Add an interest in these conditions.
    AddInterest(EventMask),
    /// Register the task with the interest.
    RegisterInterest,
    /// The poll ends, and the task waits.
    Wait,
    /// The future fails.
    Fail(Error),
    /// The operation succeeded: what the future was made from, and what came of it.
    Complete(P, R),
}

/// The state of an operation.
pub struct OpState<P, I> {
    /// What the future was made from, until it resolves.
    pub payload: Option<P>,
    pub interest: Option<I>,
    pub phase: Phase,
    /// The conditions under which the operation does not block.
    pub awaits: EventMask,
    /// The code of the error by which the operation says that it goes on by itself, where it can.
    pub in_progress: Option<i32>,
}

/// Whether an error says that the operation has to wait.
pub open spec fn blocks(in_progress: Option<i32>, error: Error) -> bool {
    error.spec_kind() == ErrorKind::WouldBlock || (in_progress is Some
        && error.spec_raw_os_error() == in_progress)
}

impl<P, I> OpState<P, I> {
    /// The payload is there until the future resolves, and the phases that are about an interest
    /// have one.
    pub open spec fn wf(self) -> bool {
        &&& self.payload is None <==> self.phase is Completed
        &&& self.phase is Checking || self.phase is Registering ==> self.interest is Some
        &&& self.phase is Adding ==> self.interest is None
    }

    /// Whether this can happen next. A future that resolved is not polled again.
    pub open spec fn expects<R>(self, event: OpEvent<I, R>) -> bool {
        match event {
            OpEvent::Polled => self.phase is Idle,
            OpEvent::InterestPolled(_) => self.phase is Checking,
            OpEvent::Performed(_) => self.phase is Performing,
            OpEvent::InterestAdded(_) => self.phase is Adding,
            OpEvent::InterestRegistered => self.phase is Registering,
        }
    }

    /// The state in another phase.
    pub open spec fn at(self, phase: Phase) -> OpState<P, I> {
        OpState { phase, ..self }
    }

    /// The state of a future that resolved.
    pub open spec fn resolved(self) -> OpState<P, I> {
        OpState { payload: None, phase: Phase::Completed, ..self }
    }

    /// The protocol: what an event leads to.
    pub open spec fn step<R>(self, event: OpEvent<I, R>) -> (OpState<P, I>, OpStep<P, R>) {
        match event {
            OpEvent::Polled => if self.interest is Some {
                (self.at(Phase::Checking), OpStep::PollInterest)
            } else {
                (self.at(Phase::Performing), OpStep::Perform)
            },
            OpEvent::InterestPolled(Async::NotReady) => (self.at(Phase::Idle), OpStep::Wait),
            OpEvent::InterestPolled(Async::Ready(_)) => (
                self.at(Phase::Performing),
                OpStep::Perform,
            ),
            OpEvent::Performed(Ok(value)) => (
                self.resolved(),
                OpStep::Complete(self.payload->0, value),
            ),
            OpEvent::Performed(Err(error)) => if !blocks(self.in_progress, error) {
                (self.resolved(), OpStep::Fail(error))
            } else if self.interest is Some {
                (self.at(Phase::Registering), OpStep::RegisterInterest)
            } else {
                (self.at(Phase::Adding), OpStep::AddInterest(self.awaits))
            },
            OpEvent::InterestAdded(Ok(interest)) => (
                OpState { interest: Some(interest), phase: Phase::Idle, ..self },
                OpStep::Wait,
            ),
            OpEvent::InterestAdded(Err(error)) => (self.resolved(), OpStep::Fail(error)),
            OpEvent::InterestRegistered => (self.at(Phase::Idle), OpStep::Wait),
        }
    }
}

impl<T> FutureStep<T> {
    /// This step hands on what the protocol says, for an operation that has not succeeded.
    pub open spec fn passes_on<P, R>(self, step: OpStep<P, R>) -> bool {
        match step {
            OpStep::PollInterest => self is PollInterest,
            OpStep::Perform => self is Perform,
            OpStep::AddInterest(mask) => self == FutureStep::<T>::AddInterest(mask),
            OpStep::RegisterInterest => self is RegisterInterest,
            OpStep::Wait => self == FutureStep::<T>::Return(Ok(Async::NotReady)),
            OpStep::Fail(error) => self == FutureStep::<T>::Return(Err(error)),
            OpStep::Complete(_, _) => false,
        }
    }
}

/// A socket operation that waits for the readiness of its socket.
pub struct SocketOp<P, I> {
    payload: Option<P>,
    interest: Option<I>,
    phase: Phase,
    awaits: EventMask,
    in_progress: Option<i32>,
}

impl<P, I> SocketOp<P, I> {
    /// The state of the operation.
    pub closed spec fn state(&self) -> OpState<P, I> {
        OpState {
            payload: self.payload,
            interest: self.interest,
            phase: self.phase,
            awaits: self.awaits,
            in_progress: self.in_progress,
        }
    }

    /// An operation that was not polled yet.
    fn new(payload: P, awaits: EventMask, in_progress: Option<i32>) -> (op: Self)
        ensures
            op.state() == started::<P, I>(payload, awaits, in_progress),
            op.state().wf(),
    {
        SocketOp { payload: Some(payload), interest: None, phase: Phase::Idle, awaits, in_progress }
    }

    /// What the future was made from, until it resolves.
    pub fn payload(&self) -> (payload: Option<&P>)
        ensures
            payload == (match self.state().payload {
                Some(payload) => Some(&payload),
                None => None,
            }),
    {
        self.payload.as_ref()
    }

    /// The interest, once there is one.
    pub fn interest(&self) -> (interest: Option<&I>)
        ensures
            interest == (match self.state().interest {
                Some(interest) => Some(&interest),
                None => None,
            }),
    {
        self.interest.as_ref()
    }

    /// Follows the protocol for one event.
    fn step<R>(&mut self, event: OpEvent<I, R>) -> (step: OpStep<P, R>)
        requires
            old(self).state().wf(),
            old(self).state().expects(event),
        ensures
            final(self).state().wf(),
            final(self).state() == old(self).state().step(event).0,
            step == old(self).state().step(event).1,
    {
        match event {
            OpEvent::Polled => if self.interest.is_some() {
                self.phase = Phase::Checking;
                OpStep::PollInterest
            } else {
                self.phase = Phase::Performing;
                OpStep::Perform
            },
            OpEvent::InterestPolled(Async::NotReady) => {
                self.phase = Phase::Idle;
                OpStep::Wait
            },
            OpEvent::InterestPolled(Async::Ready(_)) => {
                self.phase = Phase::Performing;
                OpStep::Perform
            },
            OpEvent::Performed(Ok(value)) => {
                self.phase = Phase::Completed;
                OpStep::Complete(self.payload.take().unwrap(), value)
            },
            OpEvent::Performed(Err(error)) => {
                if error.kind() == ErrorKind::WouldBlock || goes_on(&self.in_progress, &error) {
                    if self.interest.is_some() {
                        self.phase = Phase::Registering;
                        OpStep::RegisterInterest
                    } else {
                        self.phase = Phase::Adding;
                        OpStep::AddInterest(self.awaits)
                    }
                } else {
                    self.phase = Phase::Completed;
                    self.payload = None;
                    OpStep::Fail(error)
                }
            },
            OpEvent::InterestAdded(Ok(interest)) => {
                self.phase = Phase::Idle;
                self.interest = Some(interest);
                OpStep::Wait
            },
            OpEvent::InterestAdded(Err(error)) => {
                self.phase = Phase::Completed;
                self.payload = None;
                OpStep::Fail(error)
            },
            OpEvent::InterestRegistered => {
                self.phase = Phase::Idle;
                OpStep::Wait
            },
        }
    }
}

/// Whether an error has the code by which an operation says that it goes on by itself.
fn goes_on(in_progress: &Option<i32>, error: &Error) -> (goes_on: bool)
    ensures
        goes_on == (in_progress is Some && error.spec_raw_os_error() == *in_progress),
{
    match (*in_progress, error.raw_os_error()) {
        (Some(expected), Some(code)) => code == expected,
        _ => false,
    }
}

/// The state of an operation that was not polled yet.
pub open spec fn started<P, I>(
    payload: P,
    awaits: EventMask,
    in_progress: Option<i32>,
) -> OpState<P, I> {
    OpState { payload: Some(payload), interest: None, phase: Phase::Idle, awaits, in_progress }
}

/// Reads from a stream.
pub struct TcpRead<S, I> {
    op: SocketOp<(S, BytesMut), I>,
    room: usize,
}

impl<S, I> TcpRead<S, I> {
    /// The state of the operation.
    pub closed spec fn state(&self) -> OpState<(S, BytesMut), I> {
        self.op.state()
    }

    /// The operation.
    pub fn op(&self) -> (op: &SocketOp<(S, BytesMut), I>)
        ensures
            op.state() == self.state(),
    {
        &self.op
    }

    /// How many bytes can be received at most.
    pub closed spec fn room(&self) -> usize {
        self.room
    }

    /// Reads into a buffer, as many bytes as it has room for. How much that is beyond what the
    /// buffer holds depends on the allocator.
    pub fn new(stream: S, buffer: BytesMut) -> (read: Self)
        ensures
            read.state().wf(),
            read.state() == started::<(S, BytesMut), I>(
                (stream, buffer),
                EventMask::spec_only(Event::Read),
                None,
            ),
            read.room() >= bytes_mut_data(buffer).len(),
    {
        let room: usize = bytes_mut_capacity(&buffer);
        Self::with_room(stream, buffer, room)
    }

    /// Reads into a buffer, at most this many bytes.
    pub fn with_room(stream: S, buffer: BytesMut, room: usize) -> (read: Self)
        ensures
            read.state().wf(),
            read.state() == started::<(S, BytesMut), I>(
                (stream, buffer),
                EventMask::spec_only(Event::Read),
                None,
            ),
            read.room() == room,
    {
        TcpRead { op: SocketOp::new((stream, buffer), EventMask::only(Event::Read), None), room }
    }

    /// How many bytes can be received at most.
    pub fn limit(&self) -> (limit: usize)
        ensures
            limit == self.room(),
    {
        self.room
    }

    /// Takes the next step. The bytes received are stored at the front of the buffer, which grows
    /// where they do not fit in what it held, and their number is returned beside it.
    pub fn poll(&mut self, event: OpEvent<I, Vec<u8>>) -> (step: FutureStep<(S, BytesMut, usize)>)
        requires
            old(self).state().wf(),
            old(self).state().expects(event),
            event matches OpEvent::Performed(Ok(received)) ==> received@.len() <= isize::MAX,
        ensures
            final(self).state().wf(),
            final(self).room() == old(self).room(),
            final(self).state() == old(self).state().step(event).0,
            match old(self).state().step(event).1 {
                OpStep::Complete((stream, buffer), received) => {
                    &&& step matches FutureStep::Return(Ok(Async::Ready((stream2, buffer2, count))))
                    &&& stream2 == stream
                    &&& bytes_mut_data(buffer2) == overwritten(bytes_mut_data(buffer), received@)
                    &&& count == received@.len()
                },
                other => step.passes_on(other),
            },
    {
        match self.op.step(event) {
            OpStep::PollInterest => FutureStep::PollInterest,
            OpStep::Perform => FutureStep::Perform,
            OpStep::AddInterest(mask) => FutureStep::AddInterest(mask),
            OpStep::RegisterInterest => FutureStep::RegisterInterest,
            OpStep::Wait => FutureStep::Return(Ok(Async::NotReady)),
            OpStep::Fail(error) => FutureStep::Return(Err(error)),
            OpStep::Complete((stream, mut buffer), received) => {
                let count: usize = received.len();
                store_received(&mut buffer, received.as_slice());
                FutureStep::Return(Ok(Async::Ready((stream, buffer, count))))
            },
        }
    }
}

/// Writes to a stream.
pub struct TcpWrite<S, I> {
    op: SocketOp<(S, Bytes), I>,
}

impl<S, I> TcpWrite<S, I> {
    /// The state of the operation.
    pub closed spec fn state(&self) -> OpState<(S, Bytes), I> {
        self.op.state()
    }

    /// The operation.
    pub fn op(&self) -> (op: &SocketOp<(S, Bytes), I>)
        ensures
            op.state() == self.state(),
    {
        &self.op
    }

    /// Writes the bytes of a buffer.
    pub fn new(stream: S, buffer: Bytes) -> (write: Self)
        ensures
            write.state().wf(),
            write.state() == started::<(S, Bytes), I>(
                (stream, buffer),
                EventMask::spec_only(Event::Write),
                None,
            ),
    {
        TcpWrite { op: SocketOp::new((stream, buffer), EventMask::only(Event::Write), None) }
    }

    /// Takes the next step. The number of bytes that were sent is returned beside the buffer, which
    /// may hold more.
    pub fn poll(&mut self, event: OpEvent<I, usize>) -> (step: FutureStep<(S, Bytes, usize)>)
        requires
            old(self).state().wf(),
            old(self).state().expects(event),
        ensures
            final(self).state().wf(),
            final(self).state() == old(self).state().step(event).0,
            match old(self).state().step(event).1 {
                OpStep::Complete((stream, buffer), count) => step
                    == FutureStep::<(S, Bytes, usize)>::Return(
                    Ok(Async::Ready((stream, buffer, count))),
                ),
                other => step.passes_on(other),
            },
    {
        match self.op.step(event) {
            OpStep::PollInterest => FutureStep::PollInterest,
            OpStep::Perform => FutureStep::Perform,
            OpStep::AddInterest(mask) => FutureStep::AddInterest(mask),
            OpStep::RegisterInterest => FutureStep::RegisterInterest,
            OpStep::Wait => FutureStep::Return(Ok(Async::NotReady)),
            OpStep::Fail(error) => FutureStep::Return(Err(error)),
            OpStep::Complete((stream, buffer), count) => FutureStep::Return(
                Ok(Async::Ready((stream, buffer, count))),
            ),
        }
    }
}

/// Receives a datagram.
pub struct RecvFrom<S, I> {
    op: SocketOp<(S, BytesMut), I>,
    room: usize,
}

impl<S, I> RecvFrom<S, I> {
    /// The state of the operation.
    pub closed spec fn state(&self) -> OpState<(S, BytesMut), I> {
        self.op.state()
    }

    /// The operation.
    pub fn op(&self) -> (op: &SocketOp<(S, BytesMut), I>)
        ensures
            op.state() == self.state(),
    {
        &self.op
    }

    /// How many bytes can be received at most.
    pub closed spec fn room(&self) -> usize {
        self.room
    }

    /// Receives into a buffer, as many bytes as it has room for. How much that is beyond what the
    /// buffer holds depends on the allocator.
    pub fn new(socket: S, buffer: BytesMut) -> (recv: Self)
        ensures
            recv.state().wf(),
            recv.state() == started::<(S, BytesMut), I>(
                (socket, buffer),
                EventMask::spec_only(Event::Read),
                None,
            ),
            recv.room() >= bytes_mut_data(buffer).len(),
    {
        let room: usize = bytes_mut_capacity(&buffer);
        Self::with_room(socket, buffer, room)
    }

    /// Receives into a buffer, at most this many bytes.
    pub fn with_room(socket: S, buffer: BytesMut, room: usize) -> (recv: Self)
        ensures
            recv.state().wf(),
            recv.state() == started::<(S, BytesMut), I>(
                (socket, buffer),
                EventMask::spec_only(Event::Read),
                None,
            ),
            recv.room() == room,
    {
        RecvFrom { op: SocketOp::new((socket, buffer), EventMask::only(Event::Read), None), room }
    }

    /// How many bytes can be received at most.
    pub fn limit(&self) -> (limit: usize)
        ensures
            limit == self.room(),
    {
        self.room
    }

    /// Takes the next step. The bytes received are stored as `TcpRead::poll` stores them, and the
    /// address that they came from is returned too.
    pub fn poll<A>(&mut self, event: OpEvent<I, (Vec<u8>, A)>) -> (step: FutureStep<
        (S, BytesMut, usize, A),
    >)
        requires
            old(self).state().wf(),
            old(self).state().expects(event),
            event matches OpEvent::Performed(Ok((received, _))) ==> received@.len() <= isize::MAX,
        ensures
            final(self).state().wf(),
            final(self).room() == old(self).room(),
            final(self).state() == old(self).state().step(event).0,
            match old(self).state().step(event).1 {
                OpStep::Complete((socket, buffer), (received, addr)) => {
                    &&& step matches FutureStep::Return(
                        Ok(Async::Ready((socket2, buffer2, count, addr2))),
                    )
                    &&& socket2 == socket
                    &&& bytes_mut_data(buffer2) == overwritten(bytes_mut_data(buffer), received@)
                    &&& count == received@.len()
                    &&& addr2 == addr
                },
                other => step.passes_on(other),
            },
    {
        match self.op.step(event) {
            OpStep::PollInterest => FutureStep::PollInterest,
            OpStep::Perform => FutureStep::Perform,
            OpStep::AddInterest(mask) => FutureStep::AddInterest(mask),
            OpStep::RegisterInterest => FutureStep::RegisterInterest,
            OpStep::Wait => FutureStep::Return(Ok(Async::NotReady)),
            OpStep::Fail(error) => FutureStep::Return(Err(error)),
            OpStep::Complete((socket, mut buffer), (received, addr)) => {
                let count: usize = received.len();
                store_received(&mut buffer, received.as_slice());
                FutureStep::Return(Ok(Async::Ready((socket, buffer, count, addr))))
            },
        }
    }
}

/// Sends a datagram.
pub struct SendTo<S, A, I> {
    op: SocketOp<(S, Bytes, A), I>,
}

impl<S, A, I> SendTo<S, A, I> {
    /// The state of the operation.
    pub closed spec fn state(&self) -> OpState<(S, Bytes, A), I> {
        self.op.state()
    }

    /// The operation.
    pub fn op(&self) -> (op: &SocketOp<(S, Bytes, A), I>)
        ensures
            op.state() == self.state(),
    {
        &self.op
    }

    /// Sends the bytes of a buffer to an address.
    pub fn new(socket: S, buffer: Bytes, addr: A) -> (send: Self)
        ensures
            send.state().wf(),
            send.state() == started::<(S, Bytes, A), I>(
                (socket, buffer, addr),
                EventMask::spec_only(Event::Write),
                None,
            ),
    {
        SendTo { op: SocketOp::new((socket, buffer, addr), EventMask::only(Event::Write), None) }
    }

    /// Takes the next step. A datagram that was not sent whole is an error.
    pub fn poll(&mut self, event: OpEvent<I, usize>) -> (step: FutureStep<(S, Bytes)>)
        requires
            old(self).state().wf(),
            old(self).state().expects(event),
        ensures
            final(self).state().wf(),
            final(self).state() == old(self).state().step(event).0,
            match old(self).state().step(event).1 {
                OpStep::Complete((socket, buffer, _), count) => step
                    == FutureStep::<(S, Bytes)>::Return(
                    if count == bytes_data(buffer).len() {
                        Ok(Async::Ready((socket, buffer)))
                    } else {
                        Err(Error::Simple(ErrorKind::WriteZero))
                    },
                ),
                other => step.passes_on(other),
            },
    {
        match self.op.step(event) {
            OpStep::PollInterest => FutureStep::PollInterest,
            OpStep::Perform => FutureStep::Perform,
            OpStep::AddInterest(mask) => FutureStep::AddInterest(mask),
            OpStep::RegisterInterest => FutureStep::RegisterInterest,
            OpStep::Wait => FutureStep::Return(Ok(Async::NotReady)),
            OpStep::Fail(error) => FutureStep::Return(Err(error)),
            OpStep::Complete((socket, buffer, _), count) => {
                if count != bytes_len(&buffer) {
                    return FutureStep::Return(Err(Error::Simple(ErrorKind::WriteZero)));
                }
                FutureStep::Return(Ok(Async::Ready((socket, buffer))))
            },
        }
    }
}

/// What accepting a connection needs done next.
#[derive(PartialEq, Eq, Debug)]
pub enum AcceptStep<L, X, T> {
    /// A step of the protocol.
    Op(FutureStep<T>),
    /// Make a stream of the connection that this listener accepted.
    Adopt(L, X),
}

/// Accepts a connection.
pub struct Accept<L, A, I> {
    op: SocketOp<L, I>,
    /// Where a connection came from that is being made a stream of.
    adopting: Option<A>,
}

impl<L, A, I> Accept<L, A, I> {
    /// The state of the operation.
    pub closed spec fn state(&self) -> OpState<L, I> {
        self.op.state()
    }

    /// Where a connection came from that is being made a stream of.
    pub closed spec fn adopting(&self) -> Option<A> {
        self.adopting
    }

    /// A connection is made a stream of once it is accepted.
    pub open spec fn wf(&self) -> bool {
        &&& self.state().wf()
        &&& self.adopting() is Some ==> self.state().phase is Completed
    }

    /// The operation.
    pub fn op(&self) -> (op: &SocketOp<L, I>)
        ensures
            op.state() == self.state(),
    {
        &self.op
    }

    /// Accepts a connection on a listener.
    pub fn new(listener: L) -> (accept: Self)
        ensures
            accept.wf(),
            accept.state() == started::<L, I>(listener, EventMask::spec_only(Event::Read), None),
            accept.adopting() is None,
    {
        Accept {
            op: SocketOp::new(listener, EventMask::only(Event::Read), None),
            adopting: None,
        }
    }

    /// Takes the next step. A connection that was accepted is made a stream of before the future
    /// resolves.
    pub fn poll<X, S>(&mut self, event: OpEvent<I, (X, A)>) -> (step: AcceptStep<L, X, (S, A)>)
        requires
            old(self).wf(),
            old(self).state().expects(event),
        ensures
            final(self).wf(),
            final(self).state() == old(self).state().step(event).0,
            match old(self).state().step(event).1 {
                OpStep::Complete(listener, (connection, addr)) => {
                    &&& step == AcceptStep::<L, X, (S, A)>::Adopt(listener, connection)
                    &&& final(self).adopting() == Some(addr)
                },
                other => {
                    &&& step matches AcceptStep::Op(inner)
                    &&& inner.passes_on(other)
                    &&& final(self).adopting() == old(self).adopting()
                },
            },
    {
        AcceptStep::Op(
            match self.op.step(event) {
                OpStep::PollInterest => FutureStep::PollInterest,
                OpStep::Perform => FutureStep::Perform,
                OpStep::AddInterest(mask) => FutureStep::AddInterest(mask),
                OpStep::RegisterInterest => FutureStep::RegisterInterest,
                OpStep::Wait => FutureStep::Return(Ok(Async::NotReady)),
                OpStep::Fail(error) => FutureStep::Return(Err(error)),
                OpStep::Complete(listener, (connection, addr)) => {
                    self.adopting = Some(addr);
                    return AcceptStep::Adopt(listener, connection);
                },
            },
        )
    }

    /// Resolves with the stream that was made of the connection, or with why none could be made.
    pub fn adopted<S>(&mut self, stream: Result<S, Error>) -> (result: Result<Async<(S, A)>, Error>)
        requires
            old(self).wf(),
            old(self).adopting() is Some,
        ensures
            final(self).wf(),
            final(self).state() == old(self).state(),
            final(self).adopting() is None,
            result == (match stream {
                Ok(stream) => Ok::<Async<(S, A)>, Error>(
                    Async::Ready((stream, old(self).adopting()->0)),
                ),
                Err(error) => Err::<Async<(S, A)>, Error>(error),
            }),
    {
        let addr = self.adopting.take().unwrap();
        match stream {
            Ok(stream) => Ok(Async::Ready((stream, addr))),
            Err(error) => Err(error),
        }
    }
}

/// Connects a stream.
pub struct Connect<S, A, I> {
    op: SocketOp<(S, A), I>,
    /// Why there is no stream to connect.
    error: Option<Error>,
}

impl<S, A, I> Connect<S, A, I> {
    /// The state of the operation.
    pub closed spec fn state(&self) -> OpState<(S, A), I> {
        self.op.state()
    }

    /// Why there is no stream to connect.
    pub closed spec fn error(&self) -> Option<Error> {
        self.error
    }

    /// Where there is an error, there is nothing to do but to return it.
    pub open spec fn wf(&self) -> bool {
        &&& self.state().wf()
        &&& self.error() is Some ==> self.state().phase is Completed
    }

    /// Whether this can happen next.
    pub open spec fn expects(&self, event: OpEvent<I, ()>) -> bool {
        self.state().expects(event) || (self.error() is Some && event is Polled)
    }

    /// The operation.
    pub fn op(&self) -> (op: &SocketOp<(S, A), I>)
        ensures
            op.state() == self.state(),
    {
        &self.op
    }

    /// Connects a stream, if one could be had, to an address; `in_progress` is the code of the
    /// error that says that the connection is being made.
    pub fn connect_with(stream: Result<S, Error>, addr: A, in_progress: i32) -> (connect: Self)
        ensures
            connect.wf(),
            match stream {
                Ok(stream) => {
                    &&& connect.state() == started::<(S, A), I>(
                        (stream, addr),
                        EventMask::spec_only(Event::Write),
                        Some(in_progress),
                    )
                    &&& connect.error() is None
                },
                Err(error) => {
                    &&& connect.state().phase is Completed
                    &&& connect.error() == Some(error)
                },
            },
    {
        let awaits = EventMask::only(Event::Write);
        match stream {
            Ok(stream) => Connect {
                op: SocketOp::new((stream, addr), awaits, Some(in_progress)),
                error: None,
            },
            Err(error) => Connect {
                op: SocketOp {
                    payload: None,
                    interest: None,
                    phase: Phase::Completed,
                    awaits,
                    in_progress: Some(in_progress),
                },
                error: Some(error),
            },
        }
    }

    /// Takes the next step.
    pub fn poll(&mut self, event: OpEvent<I, ()>) -> (step: FutureStep<S>)
        requires
            old(self).wf(),
            old(self).expects(event),
        ensures
            final(self).wf(),
            final(self).error() is None,
            match old(self).error() {
                Some(error) => {
                    &&& step == FutureStep::<S>::Return(Err(error))
                    &&& final(self).state() == old(self).state()
                },
                None => {
                    &&& final(self).state() == old(self).state().step(event).0
                    &&& match old(self).state().step(event).1 {
                        OpStep::Complete((stream, _), _) => step == FutureStep::<S>::Return(
                            Ok(Async::Ready(stream)),
                        ),
                        other => step.passes_on(other),
                    }
                },
            },
    {
        if let Some(error) = self.error.take() {
            return FutureStep::Return(Err(error));
        }
        match self.op.step(event) {
            OpStep::PollInterest => FutureStep::PollInterest,
            OpStep::Perform => FutureStep::Perform,
            OpStep::AddInterest(mask) => FutureStep::AddInterest(mask),
            OpStep::RegisterInterest => FutureStep::RegisterInterest,
            OpStep::Wait => FutureStep::Return(Ok(Async::NotReady)),
            OpStep::Fail(error) => FutureStep::Return(Err(error)),
            OpStep::Complete((stream, _), _) => FutureStep::Return(Ok(Async::Ready(stream))),
        }
    }
}

/// A task is told to wait in one of three cases. It was registered with an interest that was found
/// not to have fired; or it was registered with an interest that was just added; or it was
/// registered with the interest that the future has, which, as `law_registering_follows_firing`
/// says, has fired by then.
pub proof fn law_waiting_task_is_registered<P, I, R>(state: OpState<P, I>, event: OpEvent<I, R>)
    requires
        state.wf(),
        state.expects(event),
        state.step(event).1 is Wait,
    ensures
        match event {
            OpEvent::InterestPolled(ready) => ready is NotReady && state.interest is Some
                && state.step(event).0.interest == state.interest,
            OpEvent::InterestAdded(added) => added is Ok && state.interest is None
                && state.step(event).0.interest == Some(added->Ok_0),
            OpEvent::InterestRegistered => state.interest is Some && state.step(event).0.interest
                == state.interest,
            _ => false,
        },
{
}

/// Within a poll, a future registers its task with the interest that it has only after the interest
/// was found to have fired. Such an interest notifies nobody any more.
pub proof fn law_registering_follows_firing<P, I, R>(
    start: OpState<P, I>,
    first: OpEvent<I, R>,
    second: OpEvent<I, R>,
)
    requires
        start.wf(),
        start.expects(OpEvent::<I, R>::Polled),
        start.step(OpEvent::<I, R>::Polled).0.expects(first),
        start.step(OpEvent::<I, R>::Polled).0.step(first).0.expects(second),
    ensures
        start.step(OpEvent::<I, R>::Polled).1 !is RegisterInterest,
        start.step(OpEvent::<I, R>::Polled).0.step(first).1 !is RegisterInterest,
        start.step(OpEvent::<I, R>::Polled).0.step(first).0.step(second).1 is RegisterInterest
            ==> (first matches OpEvent::InterestPolled(ready) && ready is Ready),
{
}

/// A poll comes to an end: each of its steps either ends it or leads to a later phase.
pub proof fn law_poll_ends<P, I, R>(state: OpState<P, I>, event: OpEvent<I, R>)
    requires
        state.wf(),
        state.expects(event),
    ensures
        state.step(event).0.wf(),
        match state.step(event).1 {
            OpStep::Wait => state.step(event).0.phase is Idle,
            OpStep::Fail(_) => state.step(event).0.phase is Completed,
            OpStep::Complete(_, _) => state.step(event).0.phase is Completed,
            _ => phase_rank(state.step(event).0.phase) > phase_rank(state.phase),
        },
{
}

/// How far a poll has come.
pub open spec fn phase_rank(phase: Phase) -> int {
    match phase {
        Phase::Idle => 0,
        Phase::Checking => 1,
        Phase::Performing => 2,
        Phase::Adding => 3,
        Phase::Registering => 3,
        Phase::Completed => 4,
    }
}

/// A future resolves once: when it has, nothing can happen to it any more.
pub proof fn law_resolved_future_is_done<P, I, R>(
    state: OpState<P, I>,
    event: OpEvent<I, R>,
    later: OpEvent<I, R>,
)
    requires
        state.wf(),
        state.expects(event),
        state.step(event).1 is Complete || state.step(event).1 is Fail,
    ensures
        !state.step(event).0.expects(later),
{
}

/// What a future was made from is kept as it is until the future resolves, and is then handed back.
pub proof fn law_payload_is_kept<P, I, R>(state: OpState<P, I>, event: OpEvent<I, R>)
    requires
        state.wf(),
        state.expects(event),
    ensures
        match state.step(event).1 {
            OpStep::Complete(payload, _) => state.payload == Some(payload),
            OpStep::Fail(_) => true,
            _ => state.step(event).0.payload == state.payload,
        },
{
}

/// An attempt that fails for any other reason than that it has to wait resolves the future with
/// that very error, whether the future has an interest or not. An error says that the operation has
/// to wait when it says so by its kind, or has the code by which the operation says that it goes on
/// by itself.
pub proof fn law_failed_attempt_resolves_future<P, I, R, T>(
    state: OpState<P, I>,
    error: Error,
    step: FutureStep<T>,
)
    requires
        state.wf(),
        state.phase is Performing,
        step.passes_on(state.step(OpEvent::<I, R>::Performed(Err(error))).1),
        error.spec_kind() != ErrorKind::WouldBlock,
        state.in_progress matches Some(code) ==> error.spec_raw_os_error() != Some(code),
    ensures
        step == FutureStep::<T>::Return(Err(error)),
        state.step(OpEvent::<I, R>::Performed(Err(error))).0.payload is None,
        state.step(OpEvent::<I, R>::Performed(Err(error))).0.phase is Completed,
{
}

/// An attempt that has to wait ends in waiting: the task is registered with the interest of the
/// future, or an interest is added in the conditions that the operation awaits, where there is none
/// yet. The future keeps what it was made from.
pub proof fn law_blocked_attempt_waits<P, I, R, T>(
    state: OpState<P, I>,
    error: Error,
    step: FutureStep<T>,
)
    requires
        state.wf(),
        state.phase is Performing,
        step.passes_on(state.step(OpEvent::<I, R>::Performed(Err(error))).1),
        error.spec_kind() == ErrorKind::WouldBlock || (state.in_progress is Some
            && error.spec_raw_os_error() == state.in_progress),
    ensures
        state.interest is Some ==> step is RegisterInterest,
        state.interest is None ==> step == FutureStep::<T>::AddInterest(state.awaits),
        state.step(OpEvent::<I, R>::Performed(Err(error))).0.payload == state.payload,
        state.step(OpEvent::<I, R>::Performed(Err(error))).0.interest == state.interest,
{
}

/// Nothing but an attempt that has to wait leads to adding an interest, or to registering with one.
pub proof fn law_only_blocked_attempt_waits<P, I, R, T>(
    state: OpState<P, I>,
    event: OpEvent<I, R>,
    step: FutureStep<T>,
)
    requires
        state.wf(),
        state.expects(event),
        step.passes_on(state.step(event).1),
        step is AddInterest || step is RegisterInterest,
    ensures
        event matches OpEvent::Performed(Err(error)) && (error.spec_kind() == ErrorKind::WouldBlock
            || (state.in_progress is Some && error.spec_raw_os_error() == state.in_progress)),
{
}

/// A future fails with an error only where its attempt or the addition of an interest failed with
/// that error.
pub proof fn law_errors_are_not_made_up<P, I, R, T>(
    state: OpState<P, I>,
    event: OpEvent<I, R>,
    step: FutureStep<T>,
)
    requires
        state.wf(),
        state.expects(event),
        step.passes_on(state.step(event).1),
    ensures
        step matches FutureStep::Return(Err(error)) ==> event == OpEvent::<I, R>::Performed(
            Err(error),
        ) || event == OpEvent::<I, R>::InterestAdded(Err(error)),
        event matches OpEvent::InterestAdded(Err(error)) ==> step == FutureStep::<T>::Return(
            Err(error),
        ),
        step matches FutureStep::Return(Ok(ready)) ==> ready is NotReady,
{
}

/// An attempt that succeeds resolves the future, with what it was made from and what came of it.
pub proof fn law_successful_attempt_resolves_future<P, I, R>(
    state: OpState<P, I>,
    payload: P,
    value: R,
)
    requires
        state.wf(),
        state.phase is Performing,
        state.payload == Some(payload),
    ensures
        state.step(OpEvent::<I, R>::Performed(Ok(value))).1 == OpStep::Complete(payload, value),
        state.step(OpEvent::<I, R>::Performed(Ok(value))).0.payload is None,
        state.step(OpEvent::<I, R>::Performed(Ok(value))).0.phase is Completed,
{
}

/// A poll attempts the operation, unless the future has an interest that has not fired: the
/// interest is asked first, and the attempt is made exactly when it has fired.
pub proof fn law_poll_attempts_operation<P, I, R, T>(
    start: OpState<P, I>,
    first: FutureStep<T>,
    ready: Async<()>,
    second: FutureStep<T>,
)
    requires
        start.wf(),
        start.phase is Idle,
        first.passes_on(start.step(OpEvent::<I, R>::Polled).1),
        second.passes_on(
            start.step(OpEvent::<I, R>::Polled).0.step(OpEvent::<I, R>::InterestPolled(ready)).1,
        ),
    ensures
        start.interest is None ==> {
            &&& first is Perform
            &&& start.step(OpEvent::<I, R>::Polled).0.phase is Performing
        },
        start.interest is Some ==> {
            &&& first is PollInterest
            &&& start.step(OpEvent::<I, R>::Polled).0.phase is Checking
            &&& ready is Ready ==> second is Perform
            &&& ready is NotReady ==> second == FutureStep::<T>::Return(Ok(Async::NotReady))
        },
        start.step(OpEvent::<I, R>::Polled).0.payload == start.payload,
        start.step(OpEvent::<I, R>::Polled).0.interest == start.interest,
{
}

/// What an operation awaits, and by which code it says that it goes on, never changes. An interest
/// stays with the future from its addition on, and each later poll asks it.
pub proof fn law_interest_stays<P, I, R>(state: OpState<P, I>, event: OpEvent<I, R>)
    requires
        state.wf(),
        state.expects(event),
    ensures
        state.step(event).0.awaits == state.awaits,
        state.step(event).0.in_progress == state.in_progress,
        state.step(event).0.interest == match event {
            OpEvent::InterestAdded(Ok(interest)) => Some(interest),
            _ => state.interest,
        },
        event matches OpEvent::InterestAdded(Ok(_)) ==> state.step(event).0.step(
            OpEvent::<I, R>::Polled,
        ).1 is PollInterest,
{
}

/// A future that is new attempts its operation on the first poll, and has what it was made from.
pub proof fn law_new_future_attempts_at_once<P, I, R>(
    payload: P,
    awaits: EventMask,
    in_progress: Option<i32>,
)
    ensures
        ({
            let start = started::<P, I>(payload, awaits, in_progress);
            &&& start.wf()
            &&& start.expects(OpEvent::<I, R>::Polled)
            &&& start.step(OpEvent::<I, R>::Polled).1 is Perform
            &&& start.payload == Some(payload)
            &&& start.awaits == awaits
            &&& start.in_progress == in_progress
            &&& start.interest is None
        }),
{
}

/// A read returns the bytes that were received at the front of its buffer, and their number,
/// waits where it would block, and fails with the error of its attempt or of its interest and with
/// no other.
pub proof fn law_read_returns_what_was_received<S, I>(
    read: &mut TcpRead<S, I>,
    before: OpState<(S, BytesMut), I>,
    after: OpState<(S, BytesMut), I>,
    event: OpEvent<I, Vec<u8>>,
    step: FutureStep<(S, BytesMut, usize)>,
)
    requires
        before == old(read).state(),
        after == final(read).state(),
        old(read).state().wf(),
        before.expects(event),
        event matches OpEvent::Performed(Ok(received)) ==> received@.len() <= isize::MAX,
        call_ensures(TcpRead::<S, I>::poll, (read, event), step),
    ensures
        event matches OpEvent::Performed(Err(error)) ==> {
            let blocked = error.spec_kind() == ErrorKind::WouldBlock || (before.in_progress is Some
                && error.spec_raw_os_error() == before.in_progress);
            &&& !blocked ==> (step matches FutureStep::Return(Err(reported)) && reported == error)
            &&& blocked && before.interest is Some ==> step is RegisterInterest
            &&& blocked && before.interest is None ==> (step matches FutureStep::AddInterest(mask)
                && mask == before.awaits)
        },
        step is AddInterest || step is RegisterInterest ==> (event matches OpEvent::Performed(
            attempt,
        ) && attempt is Err),
        event matches OpEvent::InterestAdded(Err(error)) ==> (step matches FutureStep::Return(
            Err(reported),
        ) && reported == error),
        step matches FutureStep::Return(Err(error)) ==> {
            ||| event == OpEvent::<I, Vec<u8>>::Performed(Err(error))
            ||| event == OpEvent::<I, Vec<u8>>::InterestAdded(Err(error))
        },
        (step matches FutureStep::Return(Ok(ready)) && ready is NotReady) <==> {
            ||| event matches OpEvent::InterestPolled(ready) && ready is NotReady
            ||| event matches OpEvent::InterestAdded(added) && added is Ok
            ||| event is InterestRegistered
        },
        step is Perform <==> {
            ||| event matches OpEvent::InterestPolled(ready) && ready is Ready
            ||| event is Polled && before.interest is None
        },
        step is PollInterest <==> event is Polled && before.interest is Some,
        event matches OpEvent::Performed(Ok(received)) ==> {
            let (stream, buffer) = before.payload->0;
            &&& step matches FutureStep::Return(Ok(Async::Ready((stream2, buffer2, count))))
            &&& stream2 == stream
            &&& count == received@.len()
            &&& bytes_mut_data(buffer2).take(count as int) == received@
            &&& bytes_mut_data(buffer2).skip(count as int) == bytes_mut_data(buffer).skip(
                count as int,
            ) || count >= bytes_mut_data(buffer).len()
            &&& bytes_mut_data(buffer2).len() == if count > bytes_mut_data(buffer).len() {
                count as int
            } else {
                bytes_mut_data(buffer).len() as int
            }
        },
        final(read).room() == old(read).room(),
        after.phase is Completed <==> (step matches FutureStep::Return(outcome) && !(
        outcome matches Ok(ready) && ready is NotReady)),
        step is PollInterest ==> after.phase is Checking,
        step is Perform ==> after.phase is Performing,
        step is AddInterest ==> after.phase is Adding,
        step is RegisterInterest ==> after.phase is Registering,
        step is Return ==> after.phase is Idle || after.phase is Completed,
        after.phase !is Completed ==> after.payload == before.payload,
        after.interest == match event {
            OpEvent::InterestAdded(Ok(interest)) => Some(interest),
            _ => before.interest,
        },
        after.awaits == before.awaits,
        after.in_progress == before.in_progress,
{
    if let OpEvent::Performed(Ok(received)) = event {
        let held = bytes_mut_data((before.payload->0).1);
        law_received_bytes_are_in_front(held, received@);
        assert(held.len() > received@.len() ==> overwritten(held, received@).skip(
            received@.len() as int,
        ) =~= held.skip(received@.len() as int));
    }
}

/// Receiving returns a datagram as a read returns its bytes, with the address that it came from; it
/// waits where it would block, and fails with the error of its attempt or of its interest and with
/// no other.
pub proof fn law_receiving_returns_datagram<S, A, I>(
    recv: &mut RecvFrom<S, I>,
    before: OpState<(S, BytesMut), I>,
    after: OpState<(S, BytesMut), I>,
    event: OpEvent<I, (Vec<u8>, A)>,
    step: FutureStep<(S, BytesMut, usize, A)>,
)
    requires
        before == old(recv).state(),
        after == final(recv).state(),
        old(recv).state().wf(),
        before.expects(event),
        event matches OpEvent::Performed(Ok((received, _))) ==> received@.len() <= isize::MAX,
        call_ensures(RecvFrom::<S, I>::poll::<A>, (recv, event), step),
    ensures
        event matches OpEvent::Performed(Err(error)) ==> {
            let blocked = error.spec_kind() == ErrorKind::WouldBlock || (before.in_progress is Some
                && error.spec_raw_os_error() == before.in_progress);
            &&& !blocked ==> (step matches FutureStep::Return(Err(reported)) && reported == error)
            &&& blocked && before.interest is Some ==> step is RegisterInterest
            &&& blocked && before.interest is None ==> (step matches FutureStep::AddInterest(mask)
                && mask == before.awaits)
        },
        step is AddInterest || step is RegisterInterest ==> (event matches OpEvent::Performed(
            attempt,
        ) && attempt is Err),
        event matches OpEvent::InterestAdded(Err(error)) ==> (step matches FutureStep::Return(
            Err(reported),
        ) && reported == error),
        step matches FutureStep::Return(Err(error)) ==> {
            ||| event == OpEvent::<I, (Vec<u8>, A)>::Performed(Err(error))
            ||| event == OpEvent::<I, (Vec<u8>, A)>::InterestAdded(Err(error))
        },
        (step matches FutureStep::Return(Ok(ready)) && ready is NotReady) <==> {
            ||| event matches OpEvent::InterestPolled(ready) && ready is NotReady
            ||| event matches OpEvent::InterestAdded(added) && added is Ok
            ||| event is InterestRegistered
        },
        step is Perform <==> {
            ||| event matches OpEvent::InterestPolled(ready) && ready is Ready
            ||| event is Polled && before.interest is None
        },
        step is PollInterest <==> event is Polled && before.interest is Some,
        event matches OpEvent::Performed(Ok((received, addr))) ==> {
            let (socket, buffer) = before.payload->0;
            &&& step matches FutureStep::Return(Ok(Async::Ready((socket2, buffer2, count, addr2))))
            &&& socket2 == socket
            &&& addr2 == addr
            &&& count == received@.len()
            &&& bytes_mut_data(buffer2).take(count as int) == received@
            &&& bytes_mut_data(buffer2).skip(count as int) == bytes_mut_data(buffer).skip(
                count as int,
            ) || count >= bytes_mut_data(buffer).len()
            &&& bytes_mut_data(buffer2).len() == if count > bytes_mut_data(buffer).len() {
                count as int
            } else {
                bytes_mut_data(buffer).len() as int
            }
        },
        final(recv).room() == old(recv).room(),
        after.phase is Completed <==> (step matches FutureStep::Return(outcome) && !(
        outcome matches Ok(ready) && ready is NotReady)),
        step is PollInterest ==> after.phase is Checking,
        step is Perform ==> after.phase is Performing,
        step is AddInterest ==> after.phase is Adding,
        step is RegisterInterest ==> after.phase is Registering,
        step is Return ==> after.phase is Idle || after.phase is Completed,
        after.phase !is Completed ==> after.payload == before.payload,
        after.interest == match event {
            OpEvent::InterestAdded(Ok(interest)) => Some(interest),
            _ => before.interest,
        },
        after.awaits == before.awaits,
        after.in_progress == before.in_progress,
{
    if let OpEvent::Performed(Ok((received, _))) = event {
        let held = bytes_mut_data((before.payload->0).1);
        law_received_bytes_are_in_front(held, received@);
        assert(held.len() > received@.len() ==> overwritten(held, received@).skip(
            received@.len() as int,
        ) =~= held.skip(received@.len() as int));
    }
}

/// A write returns the stream and the buffer as they were, and how many bytes were sent,
/// waits where it would block, and fails with the error of its attempt or of its interest and with
/// no other.
pub proof fn law_write_returns_count<S, I>(
    write: &mut TcpWrite<S, I>,
    before: OpState<(S, Bytes), I>,
    after: OpState<(S, Bytes), I>,
    event: OpEvent<I, usize>,
    step: FutureStep<(S, Bytes, usize)>,
)
    requires
        before == old(write).state(),
        after == final(write).state(),
        old(write).state().wf(),
        before.expects(event),
        call_ensures(TcpWrite::<S, I>::poll, (write, event), step),
    ensures
        event matches OpEvent::Performed(Err(error)) ==> {
            let blocked = error.spec_kind() == ErrorKind::WouldBlock || (before.in_progress is Some
                && error.spec_raw_os_error() == before.in_progress);
            &&& !blocked ==> (step matches FutureStep::Return(Err(reported)) && reported == error)
            &&& blocked && before.interest is Some ==> step is RegisterInterest
            &&& blocked && before.interest is None ==> (step matches FutureStep::AddInterest(mask)
                && mask == before.awaits)
        },
        step is AddInterest || step is RegisterInterest ==> (event matches OpEvent::Performed(
            attempt,
        ) && attempt is Err),
        event matches OpEvent::InterestAdded(Err(error)) ==> (step matches FutureStep::Return(
            Err(reported),
        ) && reported == error),
        step matches FutureStep::Return(Err(error)) ==> {
            ||| event == OpEvent::<I, usize>::Performed(Err(error))
            ||| event == OpEvent::<I, usize>::InterestAdded(Err(error))
        },
        (step matches FutureStep::Return(Ok(ready)) && ready is NotReady) <==> {
            ||| event matches OpEvent::InterestPolled(ready) && ready is NotReady
            ||| event matches OpEvent::InterestAdded(added) && added is Ok
            ||| event is InterestRegistered
        },
        step is Perform <==> {
            ||| event matches OpEvent::InterestPolled(ready) && ready is Ready
            ||| event is Polled && before.interest is None
        },
        step is PollInterest <==> event is Polled && before.interest is Some,
        event matches OpEvent::Performed(Ok(count)) ==> {
            &&& step matches FutureStep::Return(Ok(Async::Ready((stream, buffer, sent))))
            &&& before.payload == Some((stream, buffer))
            &&& sent == count
        },
        after.phase is Completed <==> (step matches FutureStep::Return(outcome) && !(
        outcome matches Ok(ready) && ready is NotReady)),
        step is PollInterest ==> after.phase is Checking,
        step is Perform ==> after.phase is Performing,
        step is AddInterest ==> after.phase is Adding,
        step is RegisterInterest ==> after.phase is Registering,
        step is Return ==> after.phase is Idle || after.phase is Completed,
        after.phase !is Completed ==> after.payload == before.payload,
        after.interest == match event {
            OpEvent::InterestAdded(Ok(interest)) => Some(interest),
            _ => before.interest,
        },
        after.awaits == before.awaits,
        after.in_progress == before.in_progress,
{
}

/// Sending a datagram returns the socket and the buffer as they were if all of it was sent, and
/// fails if not. It waits where it would block, and fails with the error of its attempt or of its
/// interest too.
pub proof fn law_datagram_is_sent_whole<S, A, I>(
    send: &mut SendTo<S, A, I>,
    before: OpState<(S, Bytes, A), I>,
    after: OpState<(S, Bytes, A), I>,
    event: OpEvent<I, usize>,
    step: FutureStep<(S, Bytes)>,
)
    requires
        before == old(send).state(),
        after == final(send).state(),
        old(send).state().wf(),
        before.expects(event),
        call_ensures(SendTo::<S, A, I>::poll, (send, event), step),
    ensures
        event matches OpEvent::Performed(Err(error)) ==> {
            let blocked = error.spec_kind() == ErrorKind::WouldBlock || (before.in_progress is Some
                && error.spec_raw_os_error() == before.in_progress);
            &&& !blocked ==> (step matches FutureStep::Return(Err(reported)) && reported == error)
            &&& blocked && before.interest is Some ==> step is RegisterInterest
            &&& blocked && before.interest is None ==> (step matches FutureStep::AddInterest(mask)
                && mask == before.awaits)
        },
        step is AddInterest || step is RegisterInterest ==> (event matches OpEvent::Performed(
            attempt,
        ) && attempt is Err),
        event matches OpEvent::InterestAdded(Err(error)) ==> (step matches FutureStep::Return(
            Err(reported),
        ) && reported == error),
        step matches FutureStep::Return(Err(error)) ==> {
            ||| event == OpEvent::<I, usize>::Performed(Err(error))
            ||| event == OpEvent::<I, usize>::InterestAdded(Err(error))
            ||| event matches OpEvent::Performed(attempt) && attempt is Ok
        },
        (step matches FutureStep::Return(Ok(ready)) && ready is NotReady) <==> {
            ||| event matches OpEvent::InterestPolled(ready) && ready is NotReady
            ||| event matches OpEvent::InterestAdded(added) && added is Ok
            ||| event is InterestRegistered
        },
        step is Perform <==> {
            ||| event matches OpEvent::InterestPolled(ready) && ready is Ready
            ||| event is Polled && before.interest is None
        },
        step is PollInterest <==> event is Polled && before.interest is Some,
        event matches OpEvent::Performed(Ok(count)) ==> {
            let (socket, buffer, _) = before.payload->0;
            if count == bytes_data(buffer).len() {
                &&& step matches FutureStep::Return(Ok(Async::Ready((socket2, buffer2))))
                &&& socket2 == socket
                &&& buffer2 == buffer
            } else {
                &&& step matches FutureStep::Return(Err(error))
                &&& error == Error::Simple(ErrorKind::WriteZero)
            }
        },
        after.phase is Completed <==> (step matches FutureStep::Return(outcome) && !(
        outcome matches Ok(ready) && ready is NotReady)),
        step is PollInterest ==> after.phase is Checking,
        step is Perform ==> after.phase is Performing,
        step is AddInterest ==> after.phase is Adding,
        step is RegisterInterest ==> after.phase is Registering,
        step is Return ==> after.phase is Idle || after.phase is Completed,
        after.phase !is Completed ==> after.payload == before.payload,
        after.interest == match event {
            OpEvent::InterestAdded(Ok(interest)) => Some(interest),
            _ => before.interest,
        },
        after.awaits == before.awaits,
        after.in_progress == before.in_progress,
{
}

/// Until a connection was accepted, accepting waits where it would block, and fails with the error
/// of its attempt or of its interest and with no other.
pub proof fn law_accepting_waits_for_connection<L, A, I, X, S>(
    accept: &mut Accept<L, A, I>,
    before: OpState<L, I>,
    after: OpState<L, I>,
    event: OpEvent<I, (X, A)>,
    step: FutureStep<(S, A)>,
)
    requires
        before == old(accept).state(),
        after == final(accept).state(),
        old(accept).wf(),
        before.expects(event),
        call_ensures(Accept::<L, A, I>::poll::<X, S>, (accept, event), AcceptStep::Op(step)),
    ensures
        event matches OpEvent::Performed(Err(error)) ==> {
            let blocked = error.spec_kind() == ErrorKind::WouldBlock || (before.in_progress is Some
                && error.spec_raw_os_error() == before.in_progress);
            &&& !blocked ==> (step matches FutureStep::Return(Err(reported)) && reported == error)
            &&& blocked && before.interest is Some ==> step is RegisterInterest
            &&& blocked && before.interest is None ==> (step matches FutureStep::AddInterest(mask)
                && mask == before.awaits)
        },
        step is AddInterest || step is RegisterInterest ==> (event matches OpEvent::Performed(
            attempt,
        ) && attempt is Err),
        event matches OpEvent::InterestAdded(Err(error)) ==> (step matches FutureStep::Return(
            Err(reported),
        ) && reported == error),
        step matches FutureStep::Return(Err(error)) ==> {
            ||| event == OpEvent::<I, (X, A)>::Performed(Err(error))
            ||| event == OpEvent::<I, (X, A)>::InterestAdded(Err(error))
        },
        (step matches FutureStep::Return(Ok(ready)) && ready is NotReady) <==> {
            ||| event matches OpEvent::InterestPolled(ready) && ready is NotReady
            ||| event matches OpEvent::InterestAdded(added) && added is Ok
            ||| event is InterestRegistered
        },
        step is Perform <==> {
            ||| event matches OpEvent::InterestPolled(ready) && ready is Ready
            ||| event is Polled && before.interest is None
        },
        step is PollInterest <==> event is Polled && before.interest is Some,
        !(event matches OpEvent::Performed(attempt) && attempt is Ok),
        final(accept).adopting() == old(accept).adopting(),
        after.phase is Completed <==> (step matches FutureStep::Return(outcome) && !(
        outcome matches Ok(ready) && ready is NotReady)),
        step is PollInterest ==> after.phase is Checking,
        step is Perform ==> after.phase is Performing,
        step is AddInterest ==> after.phase is Adding,
        step is RegisterInterest ==> after.phase is Registering,
        step is Return ==> after.phase is Idle || after.phase is Completed,
        after.phase !is Completed ==> after.payload == before.payload,
        after.interest == match event {
            OpEvent::InterestAdded(Ok(interest)) => Some(interest),
            _ => before.interest,
        },
        after.awaits == before.awaits,
        after.in_progress == before.in_progress,
{
}

/// A connection that was accepted is handed to its listener to make a stream of, and the future
/// resolves with that stream and the address that the connection came from, or with why no stream
/// could be made.
pub proof fn law_accepted_connection_is_adopted<L, A, I, X, S>(
    accept: &mut Accept<L, A, I>,
    event: OpEvent<I, (X, A)>,
    listener: L,
    connection: X,
    later: &mut Accept<L, A, I>,
    stream: Result<S, Error>,
    result: Result<Async<(S, A)>, Error>,
)
    requires
        old(accept).wf(),
        old(accept).state().expects(event),
        call_ensures(
            Accept::<L, A, I>::poll::<X, S>,
            (accept, event),
            AcceptStep::<L, X, (S, A)>::Adopt(listener, connection),
        ),
        *old(later) == *final(accept),
        call_ensures(Accept::<L, A, I>::adopted::<S>, (later, stream), result),
    ensures
        event matches OpEvent::Performed(Ok((accepted, _))) && accepted == connection,
        old(accept).state().payload == Some(listener),
        result is Ok <==> stream is Ok,
        result matches Err(error) ==> stream == Err::<S, Error>(error),
        event matches OpEvent::Performed(Ok((_, addr))) ==> (stream matches Ok(made) ==> {
            &&& result matches Ok(Async::Ready((made2, addr2)))
            &&& made2 == made
            &&& addr2 == addr
        }),
        final(later).adopting() is None,
{
}

/// Connecting returns the stream once it is connected,
/// waits where it would block, and fails with the error of its attempt or of its interest and with
/// no other.
pub proof fn law_connecting_returns_stream<S, A, I>(
    connect: &mut Connect<S, A, I>,
    before: OpState<(S, A), I>,
    after: OpState<(S, A), I>,
    event: OpEvent<I, ()>,
    step: FutureStep<S>,
)
    requires
        before == old(connect).state(),
        after == final(connect).state(),
        old(connect).wf(),
        before.expects(event),
        old(connect).error() is None,
        call_ensures(Connect::<S, A, I>::poll, (connect, event), step),
    ensures
        event matches OpEvent::Performed(Err(error)) ==> {
            let blocked = error.spec_kind() == ErrorKind::WouldBlock || (before.in_progress is Some
                && error.spec_raw_os_error() == before.in_progress);
            &&& !blocked ==> (step matches FutureStep::Return(Err(reported)) && reported == error)
            &&& blocked && before.interest is Some ==> step is RegisterInterest
            &&& blocked && before.interest is None ==> (step matches FutureStep::AddInterest(mask)
                && mask == before.awaits)
        },
        step is AddInterest || step is RegisterInterest ==> (event matches OpEvent::Performed(
            attempt,
        ) && attempt is Err),
        event matches OpEvent::InterestAdded(Err(error)) ==> (step matches FutureStep::Return(
            Err(reported),
        ) && reported == error),
        step matches FutureStep::Return(Err(error)) ==> {
            ||| event == OpEvent::<I, ()>::Performed(Err(error))
            ||| event == OpEvent::<I, ()>::InterestAdded(Err(error))
        },
        (step matches FutureStep::Return(Ok(ready)) && ready is NotReady) <==> {
            ||| event matches OpEvent::InterestPolled(ready) && ready is NotReady
            ||| event matches OpEvent::InterestAdded(added) && added is Ok
            ||| event is InterestRegistered
        },
        step is Perform <==> {
            ||| event matches OpEvent::InterestPolled(ready) && ready is Ready
            ||| event is Polled && before.interest is None
        },
        step is PollInterest <==> event is Polled && before.interest is Some,
        event matches OpEvent::Performed(Ok(_)) ==> {
            &&& step matches FutureStep::Return(Ok(Async::Ready(stream)))
            &&& stream == (before.payload->0).0
        },
        final(connect).error() is None,
        after.phase is Completed <==> (step matches FutureStep::Return(outcome) && !(
        outcome matches Ok(ready) && ready is NotReady)),
        step is PollInterest ==> after.phase is Checking,
        step is Perform ==> after.phase is Performing,
        step is AddInterest ==> after.phase is Adding,
        step is RegisterInterest ==> after.phase is Registering,
        step is Return ==> after.phase is Idle || after.phase is Completed,
        after.phase !is Completed ==> after.payload == before.payload,
        after.interest == match event {
            OpEvent::InterestAdded(Ok(interest)) => Some(interest),
            _ => before.interest,
        },
        after.awaits == before.awaits,
        after.in_progress == before.in_progress,
{
}

/// Where there is no stream to connect, the first poll fails with why there is none, and where
/// there is one, the operation is attempted; it awaits that the stream can be written to, and takes
/// an error of the given code for waiting.
pub proof fn law_connecting_starts_with_stream<S, A, I>(
    stream: Result<S, Error>,
    addr: A,
    in_progress: i32,
    connect: &mut Connect<S, A, I>,
    step: FutureStep<S>,
)
    requires
        call_ensures(
            Connect::<S, A, I>::connect_with,
            (stream, addr, in_progress),
            *old(connect),
        ),
        call_ensures(Connect::<S, A, I>::poll, (connect, OpEvent::<I, ()>::Polled), step),
    ensures
        old(connect).wf(),
        old(connect).expects(OpEvent::<I, ()>::Polled),
        stream matches Err(error) ==> step == FutureStep::<S>::Return(Err(error)),
        stream matches Ok(made) ==> {
            &&& step is Perform
            &&& final(connect).state().phase is Performing
            &&& final(connect).state().payload == Some((made, addr))
            &&& final(connect).state().in_progress == Some(in_progress)
            &&& final(connect).state().awaits@.contains(Event::Write)
            &&& forall|event: Event| #[trigger]
                final(connect).state().awaits@.contains(event) ==> event == Event::Write
        },
{
}

/// A read attempts to receive on its first poll, into the buffer that it was given, and awaits that
/// the stream can be read from.
pub proof fn law_read_starts_with_attempt<S, I>(
    stream: S,
    buffer: BytesMut,
    room: usize,
    read: &mut TcpRead<S, I>,
    step: FutureStep<(S, BytesMut, usize)>,
)
    requires
        call_ensures(TcpRead::<S, I>::with_room, (stream, buffer, room), *old(read)) || call_ensures(
            TcpRead::<S, I>::new,
            (stream, buffer),
            *old(read),
        ),
        call_ensures(TcpRead::<S, I>::poll, (read, OpEvent::<I, Vec<u8>>::Polled), step),
    ensures
        old(read).state().wf(),
        old(read).state().expects(OpEvent::<I, Vec<u8>>::Polled),
        step is Perform,
        final(read).state().phase is Performing,
        final(read).state().payload == Some((stream, buffer)),
        final(read).state().interest is None,
        final(read).state().in_progress is None,
        final(read).state().awaits@.contains(Event::Read),
        forall|event: Event| #[trigger]
            final(read).state().awaits@.contains(event) ==> event == Event::Read,
{
}

/// Receiving attempts to receive on its first poll, into the buffer that it was given, and awaits
/// that the socket can be read from.
pub proof fn law_receiving_starts_with_attempt<S, A, I>(
    socket: S,
    buffer: BytesMut,
    room: usize,
    recv: &mut RecvFrom<S, I>,
    step: FutureStep<(S, BytesMut, usize, A)>,
)
    requires
        call_ensures(RecvFrom::<S, I>::with_room, (socket, buffer, room), *old(recv)) || call_ensures(
            RecvFrom::<S, I>::new,
            (socket, buffer),
            *old(recv),
        ),
        call_ensures(RecvFrom::<S, I>::poll::<A>, (recv, OpEvent::<I, (Vec<u8>, A)>::Polled), step),
    ensures
        old(recv).state().wf(),
        old(recv).state().expects(OpEvent::<I, (Vec<u8>, A)>::Polled),
        step is Perform,
        final(recv).state().phase is Performing,
        final(recv).state().payload == Some((socket, buffer)),
        final(recv).state().interest is None,
        final(recv).state().in_progress is None,
        final(recv).state().awaits@.contains(Event::Read),
        forall|event: Event| #[trigger]
            final(recv).state().awaits@.contains(event) ==> event == Event::Read,
{
}

/// A write attempts to send on its first poll, and awaits that the stream can be written to.
pub proof fn law_write_starts_with_attempt<S, I>(
    stream: S,
    buffer: Bytes,
    write: &mut TcpWrite<S, I>,
    step: FutureStep<(S, Bytes, usize)>,
)
    requires
        call_ensures(TcpWrite::<S, I>::new, (stream, buffer), *old(write)),
        call_ensures(TcpWrite::<S, I>::poll, (write, OpEvent::<I, usize>::Polled), step),
    ensures
        old(write).state().wf(),
        old(write).state().expects(OpEvent::<I, usize>::Polled),
        step is Perform,
        final(write).state().phase is Performing,
        final(write).state().payload == Some((stream, buffer)),
        final(write).state().interest is None,
        final(write).state().in_progress is None,
        final(write).state().awaits@.contains(Event::Write),
        forall|event: Event| #[trigger]
            final(write).state().awaits@.contains(event) ==> event == Event::Write,
{
}

/// Sending attempts to send on its first poll, and awaits that the socket can be written to.
pub proof fn law_sending_starts_with_attempt<S, A, I>(
    socket: S,
    buffer: Bytes,
    addr: A,
    send: &mut SendTo<S, A, I>,
    step: FutureStep<(S, Bytes)>,
)
    requires
        call_ensures(SendTo::<S, A, I>::new, (socket, buffer, addr), *old(send)),
        call_ensures(SendTo::<S, A, I>::poll, (send, OpEvent::<I, usize>::Polled), step),
    ensures
        old(send).state().wf(),
        old(send).state().expects(OpEvent::<I, usize>::Polled),
        step is Perform,
        final(send).state().phase is Performing,
        final(send).state().payload == Some((socket, buffer, addr)),
        final(send).state().interest is None,
        final(send).state().in_progress is None,
        final(send).state().awaits@.contains(Event::Write),
        forall|event: Event| #[trigger]
            final(send).state().awaits@.contains(event) ==> event == Event::Write,
{
}

/// Accepting attempts to accept on its first poll, and awaits that the listener can be read from.
pub proof fn law_accepting_starts_with_attempt<L, A, I, X, S>(
    listener: L,
    accept: &mut Accept<L, A, I>,
    step: AcceptStep<L, X, (S, A)>,
)
    requires
        call_ensures(Accept::<L, A, I>::new, (listener,), *old(accept)),
        call_ensures(Accept::<L, A, I>::poll::<X, S>, (accept, OpEvent::<I, (X, A)>::Polled), step),
    ensures
        old(accept).wf(),
        old(accept).state().expects(OpEvent::<I, (X, A)>::Polled),
        step matches AcceptStep::Op(inner) && inner is Perform,
        final(accept).state().phase is Performing,
        final(accept).state().payload == Some(listener),
        final(accept).state().interest is None,
        final(accept).state().in_progress is None,
        final(accept).state().awaits@.contains(Event::Read),
        forall|event: Event| #[trigger]
            final(accept).state().awaits@.contains(event) ==> event == Event::Read,
{
}

/// What a future was made from is at hand until it resolves, and its interest from its addition on.
pub proof fn law_operation_has_its_parts_at_hand<P, I>(
    op: SocketOp<P, I>,
    payload: Option<&P>,
    interest: Option<&I>,
)
    requires
        call_ensures(SocketOp::<P, I>::payload, (&op,), payload),
        call_ensures(SocketOp::<P, I>::interest, (&op,), interest),
    ensures
        payload is Some <==> op.state().payload is Some,
        payload matches Some(held) ==> op.state().payload == Some(*held),
        interest is Some <==> op.state().interest is Some,
        interest matches Some(held) ==> op.state().interest == Some(*held),
{
}

/// A read, or receiving, takes as many bytes as it was given room for, or at least as many as its
/// buffer holds where it was not told.
pub proof fn law_room_bounds_what_is_received<S, I>(
    stream: S,
    buffer: BytesMut,
    room: usize,
    read: TcpRead<S, I>,
    free_read: TcpRead<S, I>,
    recv: RecvFrom<S, I>,
    free_recv: RecvFrom<S, I>,
    limits: (usize, usize, usize, usize),
)
    requires
        call_ensures(TcpRead::<S, I>::with_room, (stream, buffer, room), read),
        call_ensures(TcpRead::<S, I>::new, (stream, buffer), free_read),
        call_ensures(RecvFrom::<S, I>::with_room, (stream, buffer, room), recv),
        call_ensures(RecvFrom::<S, I>::new, (stream, buffer), free_recv),
        call_ensures(TcpRead::<S, I>::limit, (&read,), limits.0),
        call_ensures(TcpRead::<S, I>::limit, (&free_read,), limits.1),
        call_ensures(RecvFrom::<S, I>::limit, (&recv,), limits.2),
        call_ensures(RecvFrom::<S, I>::limit, (&free_recv,), limits.3),
    ensures
        limits.0 == room,
        limits.1 >= bytes_mut_data(buffer).len(),
        limits.2 == room,
        limits.3 >= bytes_mut_data(buffer).len(),
{
}

} // verus!
