//! Socket operations on a completion port, as futures.
//!
//! A future submits its operation when it is first polled. Where the operation does not complete
//! at once, the buffers stay with the future, and each poll looks at the operation's task. A future
//! that is dropped meanwhile cancels the operation; where that fails, its buffers must be leaked,
//! because the system may still use them.

use crate::buffer::{
    bytes_data, bytes_from_vec, bytes_inline, bytes_len, bytes_mut_data, bytes_mut_from_vec,
    bytes_mut_inline, bytes_mut_to_vec, bytes_to_vec,
};
use crate::io::{Async, Error, ErrorKind};
use crate::net::Family;
use bytes::{Bytes, BytesMut};
use vstd::prelude::*;

verus! {

/// The addresses that a listener takes connections from.
#[derive(Clone, Copy, PartialEq, Eq, Debug, Structural)]
pub enum IpVersion {
    V4Only,
    V6Only,
    DualStack,
}

impl IpVersion {
    /// Finds out what a listener takes: `v6_only` is the option of that name, which counts only
    /// where the listener's own address is not an IPv4 address, and may have failed to be read.
    pub fn of_listener(is_ipv4: bool, v6_only: Result<u32, Error>) -> (version: Result<
        IpVersion,
        Error,
    >)
        ensures
            version == (if is_ipv4 {
                Ok::<IpVersion, Error>(IpVersion::V4Only)
            } else {
                match v6_only {
                    Err(error) => Err::<IpVersion, Error>(error),
                    Ok(value) => Ok::<IpVersion, Error>(
                        if value == 0 {
                            IpVersion::DualStack
                        } else {
                            IpVersion::V6Only
                        },
                    ),
                }
            }),
    {
        if is_ipv4 {
            return Ok(IpVersion::V4Only);
        }
        match v6_only {
            Err(error) => Err(error),
            Ok(value) => {
                if value == 0 {
                    Ok(IpVersion::DualStack)
                } else {
                    Ok(IpVersion::V6Only)
                }
            },
        }
    }

    /// The family of the socket that takes a connection.
    pub fn family(&self) -> (family: Family)
        ensures
            family == (if *self is V4Only {
                Family::V4
            } else {
                Family::V6
            }),
    {
        match *self {
            IpVersion::V4Only => Family::V4,
            IpVersion::V6Only | IpVersion::DualStack => Family::V6,
        }
    }
}

/// The state of an operation: `P` is what the future was made from, and `T` is what belongs to an
/// operation that was submitted.
pub enum OpState<P, T> {
    /// Not submitted yet.
    Initial(P),
    /// Being submitted.
    Submitting(P),
    /// Submitted, and not complete when last looked at.
    Pending(P, T),
    /// Being looked at.
    Polling(P, T),
    /// The future has resolved.
    Done,
}

/// What a poll brought back.
#[derive(PartialEq, Eq, Debug)]
pub enum OpEvent<T, R> {
    /// The future is polled.
    Polled,
    /// The operation was submitted, with what came of it if it completed at once; or it was not.
    Submitted(Result<(Option<R>, T), Error>),
    /// What the operation's task says; where it is not complete, the current task is registered.
    TaskPolled(Result<Async<R>, Error>),
}

/// What a future needs done next, `V` being what it resolves to.
#[derive(PartialEq, Eq, Debug)]
pub enum FutureStep<V> {
    /// Submit the operation, with the current task to be notified.
    Submit,
    /// Register the current task with the operation's task, and see whether it is complete.
    PollTask,
    /// The poll is over.
    Return(Result<Async<V>, Error>),
}

/// What the protocol says is next.
pub enum OpStep<P, T, R> {
    /// Submit the operation.
    Submit,
    /// Look at the operation's task.
    PollTask,
    /// The poll ends, and the task waits.
    Wait,
    /// The future fails.
    Fail(Error),
    /// The operation succeeded: what the future was made from, what belonged to the operation, and
    /// what came of it.
    Complete(P, T, R),
}

impl<P, T> OpState<P, T> {
    /// What the future was made from, until it resolves.
    pub open spec fn payload(self) -> Option<P> {
        match self {
            OpState::Initial(payload) => Some(payload),
            OpState::Submitting(payload) => Some(payload),
            OpState::Pending(payload, _) => Some(payload),
            OpState::Polling(payload, _) => Some(payload),
            OpState::Done => None,
        }
    }

    /// What belongs to an operation that was submitted.
    pub open spec fn task(self) -> Option<T> {
        match self {
            OpState::Pending(_, task) => Some(task),
            OpState::Polling(_, task) => Some(task),
            _ => None,
        }
    }

    /// Whether this can happen next. A future that resolved is not polled again.
    pub open spec fn expects<R>(self, event: OpEvent<T, R>) -> bool {
        match event {
            OpEvent::Polled => self is Initial || self is Pending,
            OpEvent::Submitted(_) => self is Submitting,
            OpEvent::TaskPolled(_) => self is Polling,
        }
    }

    /// The protocol: what an event leads to.
    pub open spec fn step<R>(self, event: OpEvent<T, R>) -> (OpState<P, T>, OpStep<P, T, R>) {
        match (self, event) {
            (OpState::Initial(payload), OpEvent::Polled) => (
                OpState::Submitting(payload),
                OpStep::Submit,
            ),
            (OpState::Submitting(payload), OpEvent::Submitted(Ok((Some(value), task)))) => (
                OpState::Done,
                OpStep::Complete(payload, task, value),
            ),
            (OpState::Submitting(payload), OpEvent::Submitted(Ok((None, task)))) => (
                OpState::Pending(payload, task),
                OpStep::Wait,
            ),
            (OpState::Submitting(_), OpEvent::Submitted(Err(error))) => (
                OpState::Done,
                OpStep::Fail(error),
            ),
            (OpState::Pending(payload, task), OpEvent::Polled) => (
                OpState::Polling(payload, task),
                OpStep::PollTask,
            ),
            (OpState::Polling(payload, task), OpEvent::TaskPolled(Ok(Async::Ready(value)))) => (
                OpState::Done,
                OpStep::Complete(payload, task, value),
            ),
            (OpState::Polling(payload, task), OpEvent::TaskPolled(Ok(Async::NotReady))) => (
                OpState::Pending(payload, task),
                OpStep::Wait,
            ),
            (OpState::Polling(_, _), OpEvent::TaskPolled(Err(error))) => (
                OpState::Done,
                OpStep::Fail(error),
            ),
            _ => (self, OpStep::Wait),
        }
    }
}

impl<V> FutureStep<V> {
    /// This step hands on what the protocol says, for an operation that has not succeeded.
    pub open spec fn passes_on<P, T, R>(self, step: OpStep<P, T, R>) -> bool {
        match step {
            OpStep::Submit => self is Submit,
            OpStep::PollTask => self is PollTask,
            OpStep::Wait => self == FutureStep::<V>::Return(Ok(Async::NotReady)),
            OpStep::Fail(error) => self == FutureStep::<V>::Return(Err(error)),
            OpStep::Complete(_, _, _) => false,
        }
    }
}

/// A socket operation that completes by itself once it is submitted.
pub struct OverlappedOp<P, T> {
    state: OpState<P, T>,
}

impl<P, T> OverlappedOp<P, T> {
    /// The state of the operation.
    pub closed spec fn state(&self) -> OpState<P, T> {
        self.state
    }

    /// An operation that was not submitted yet.
    fn new(payload: P) -> (op: Self)
        ensures
            op.state() == OpState::<P, T>::Initial(payload),
    {
        OverlappedOp { state: OpState::Initial(payload) }
    }

    /// What the future was made from, while the operation is being submitted or looked at.
    pub fn payload(&mut self) -> (payload: Option<&mut P>)
        ensures
            match old(self).state() {
                OpState::Submitting(held) => {
                    &&& payload is Some
                    &&& *payload->0 == held
                    &&& final(self).state() == OpState::<P, T>::Submitting(*final(payload->0))
                },
                OpState::Polling(held, task) => {
                    &&& payload is Some
                    &&& *payload->0 == held
                    &&& final(self).state() == OpState::<P, T>::Polling(*final(payload->0), task)
                },
                _ => payload is None && final(self).state() == old(self).state(),
            },
    {
        match &mut self.state {
            OpState::Submitting(payload) => Some(payload),
            OpState::Polling(payload, _) => Some(payload),
            _ => None,
        }
    }

    /// What belongs to the operation, while it is being looked at.
    pub fn task(&self) -> (task: Option<&T>)
        ensures
            task == (match self.state() {
                OpState::Polling(_, task) => Some(&task),
                _ => None,
            }),
    {
        match &self.state {
            OpState::Polling(_, task) => Some(task),
            _ => None,
        }
    }

    /// Follows the protocol for one event.
    fn step<R>(&mut self, event: OpEvent<T, R>) -> (step: OpStep<P, T, R>)
        requires
            old(self).state().expects(event),
        ensures
            final(self).state() == old(self).state().step(event).0,
            step == old(self).state().step(event).1,
    {
        let mut state = OpState::Done;
        core::mem::swap(&mut state, &mut self.state);
        match (state, event) {
            (OpState::Initial(payload), OpEvent::Polled) => {
                self.state = OpState::Submitting(payload);
                OpStep::Submit
            },
            (OpState::Submitting(payload), OpEvent::Submitted(Ok((Some(value), task)))) => {
                OpStep::Complete(payload, task, value)
            },
            (OpState::Submitting(payload), OpEvent::Submitted(Ok((None, task)))) => {
                self.state = OpState::Pending(payload, task);
                OpStep::Wait
            },
            (OpState::Submitting(_), OpEvent::Submitted(Err(error))) => OpStep::Fail(error),
            (OpState::Pending(payload, task), OpEvent::Polled) => {
                self.state = OpState::Polling(payload, task);
                OpStep::PollTask
            },
            (OpState::Polling(payload, task), OpEvent::TaskPolled(Ok(Async::Ready(value)))) => {
                OpStep::Complete(payload, task, value)
            },
            (OpState::Polling(payload, task), OpEvent::TaskPolled(Ok(Async::NotReady))) => {
                self.state = OpState::Pending(payload, task);
                OpStep::Wait
            },
            (OpState::Polling(_, _), OpEvent::TaskPolled(Err(error))) => OpStep::Fail(error),
            _ => vstd::pervasive::unreached(),
        }
    }

    /// Ends an operation whose future is dropped: what was submitted is to be cancelled.
    pub fn abandon(&mut self) -> (cancel: Option<(P, T)>)
        ensures
            final(self).state() is Done,
            cancel == (match old(self).state() {
                OpState::Pending(payload, task) => Some((payload, task)),
                _ => None,
            }),
    {
        let mut state = OpState::Done;
        core::mem::swap(&mut state, &mut self.state);
        match state {
            OpState::Pending(payload, task) => Some((payload, task)),
            _ => None,
        }
    }
}

/// What is to be done with the buffers of an operation that was to be cancelled: they can be
/// dropped if it was, and must be leaked if it was not.
pub fn must_leak(cancelled: Result<(), Error>) -> (leak: bool)
    ensures
        leak == cancelled is Err,
{
    cancelled.is_err()
}

/// Writes to a stream.
pub struct TcpWrite<S, T> {
    op: OverlappedOp<(S, Bytes), T>,
}

impl<S, T> TcpWrite<S, T> {
    /// The state of the operation.
    pub closed spec fn state(&self) -> OpState<(S, Bytes), T> {
        self.op.state()
    }

    /// The operation.
    pub fn op(&mut self) -> (op: &mut OverlappedOp<(S, Bytes), T>)
        ensures
            op.state() == old(self).state(),
            final(self).state() == final(op).state(),
    {
        &mut self.op
    }

    /// Writes the bytes of a buffer.
    pub fn new(stream: S, buffer: Bytes) -> (write: Self)
        ensures
            write.state() == OpState::<(S, Bytes), T>::Initial((stream, buffer)),
    {
        TcpWrite { op: OverlappedOp::new((stream, buffer)) }
    }

    /// Takes the next step. The number of bytes that were sent is returned beside the buffer, which
    /// may hold more.
    pub fn poll(&mut self, event: OpEvent<T, usize>) -> (step: FutureStep<(S, Bytes, usize)>)
        requires
            old(self).state().expects(event),
        ensures
            final(self).state() == old(self).state().step(event).0,
            match old(self).state().step(event).1 {
                OpStep::Complete((stream, buffer), _, count) => step
                    == FutureStep::<(S, Bytes, usize)>::Return(
                    Ok(Async::Ready((stream, buffer, count))),
                ),
                other => step.passes_on(other),
            },
    {
        match self.op.step(event) {
            OpStep::Submit => FutureStep::Submit,
            OpStep::PollTask => FutureStep::PollTask,
            OpStep::Wait => FutureStep::Return(Ok(Async::NotReady)),
            OpStep::Fail(error) => FutureStep::Return(Err(error)),
            OpStep::Complete((stream, buffer), _, count) => FutureStep::Return(
                Ok(Async::Ready((stream, buffer, count))),
            ),
        }
    }
}

/// Reads from a stream into a buffer `B`, which the system fills.
pub struct TcpRead<S, B, T> {
    op: OverlappedOp<(S, B), T>,
}

impl<S, B, T> TcpRead<S, B, T> {
    /// The state of the operation.
    pub closed spec fn state(&self) -> OpState<(S, B), T> {
        self.op.state()
    }

    /// The operation.
    pub fn op(&mut self) -> (op: &mut OverlappedOp<(S, B), T>)
        ensures
            op.state() == old(self).state(),
            final(self).state() == final(op).state(),
    {
        &mut self.op
    }

    /// Reads into a buffer.
    pub fn new(stream: S, buffer: B) -> (read: Self)
        ensures
            read.state() == OpState::<(S, B), T>::Initial((stream, buffer)),
    {
        TcpRead { op: OverlappedOp::new((stream, buffer)) }
    }

    /// Takes the next step. The number of bytes that were received is returned beside the buffer.
    pub fn poll(&mut self, event: OpEvent<T, usize>) -> (step: FutureStep<(S, B, usize)>)
        requires
            old(self).state().expects(event),
        ensures
            final(self).state() == old(self).state().step(event).0,
            match old(self).state().step(event).1 {
                OpStep::Complete((stream, buffer), _, count) => step
                    == FutureStep::<(S, B, usize)>::Return(
                    Ok(Async::Ready((stream, buffer, count))),
                ),
                other => step.passes_on(other),
            },
    {
        match self.op.step(event) {
            OpStep::Submit => FutureStep::Submit,
            OpStep::PollTask => FutureStep::PollTask,
            OpStep::Wait => FutureStep::Return(Ok(Async::NotReady)),
            OpStep::Fail(error) => FutureStep::Return(Err(error)),
            OpStep::Complete((stream, buffer), _, count) => FutureStep::Return(
                Ok(Async::Ready((stream, buffer, count))),
            ),
        }
    }
}

/// Receives a datagram into a buffer `B`, which the system fills.
pub struct RecvFrom<S, B, T> {
    op: OverlappedOp<(S, B), T>,
}

impl<S, B, T> RecvFrom<S, B, T> {
    /// The state of the operation.
    pub closed spec fn state(&self) -> OpState<(S, B), T> {
        self.op.state()
    }

    /// The operation.
    pub fn op(&mut self) -> (op: &mut OverlappedOp<(S, B), T>)
        ensures
            op.state() == old(self).state(),
            final(self).state() == final(op).state(),
    {
        &mut self.op
    }

    /// Receives into a buffer.
    pub fn new(socket: S, buffer: B) -> (recv: Self)
        ensures
            recv.state() == OpState::<(S, B), T>::Initial((socket, buffer)),
    {
        RecvFrom { op: OverlappedOp::new((socket, buffer)) }
    }

    /// Takes the next step. The number of bytes that were received and the address that they came
    /// from are returned beside the buffer.
    pub fn poll<A>(&mut self, event: OpEvent<T, (usize, A)>) -> (step: FutureStep<(S, B, usize, A)>)
        requires
            old(self).state().expects(event),
        ensures
            final(self).state() == old(self).state().step(event).0,
            match old(self).state().step(event).1 {
                OpStep::Complete((socket, buffer), _, (count, addr)) => step
                    == FutureStep::<(S, B, usize, A)>::Return(
                    Ok(Async::Ready((socket, buffer, count, addr))),
                ),
                other => step.passes_on(other),
            },
    {
        match self.op.step(event) {
            OpStep::Submit => FutureStep::Submit,
            OpStep::PollTask => FutureStep::PollTask,
            OpStep::Wait => FutureStep::Return(Ok(Async::NotReady)),
            OpStep::Fail(error) => FutureStep::Return(Err(error)),
            OpStep::Complete((socket, buffer), _, (count, addr)) => FutureStep::Return(
                Ok(Async::Ready((socket, buffer, count, addr))),
            ),
        }
    }
}

/// Sends a datagram.
pub struct SendTo<S, A, T> {
    op: OverlappedOp<(S, Bytes, A), T>,
}

impl<S, A, T> SendTo<S, A, T> {
    /// The state of the operation.
    pub closed spec fn state(&self) -> OpState<(S, Bytes, A), T> {
        self.op.state()
    }

    /// The operation.
    pub fn op(&mut self) -> (op: &mut OverlappedOp<(S, Bytes, A), T>)
        ensures
            op.state() == old(self).state(),
            final(self).state() == final(op).state(),
    {
        &mut self.op
    }

    /// Sends the bytes of a buffer to an address.
    pub fn new(socket: S, buffer: Bytes, addr: A) -> (send: Self)
        ensures
            send.state() == OpState::<(S, Bytes, A), T>::Initial((socket, buffer, addr)),
    {
        SendTo { op: OverlappedOp::new((socket, buffer, addr)) }
    }

    /// Takes the next step. A datagram that was not sent whole is an error.
    pub fn poll(&mut self, event: OpEvent<T, usize>) -> (step: FutureStep<(S, Bytes)>)
        requires
            old(self).state().expects(event),
        ensures
            final(self).state() == old(self).state().step(event).0,
            match old(self).state().step(event).1 {
                OpStep::Complete((socket, buffer, _), _, count) => step
                    == FutureStep::<(S, Bytes)>::Return(
                    if count == bytes_data(buffer).len() {
                        Ok(Async::Ready((socket, buffer)))
                    } else {
                        Err(Error::Simple(ErrorKind::WriteZero))
                    },
                ),
                other => step.passes_on(other),
            },
    {
        match self.op.step(event) {
            OpStep::Submit => FutureStep::Submit,
            OpStep::PollTask => FutureStep::PollTask,
            OpStep::Wait => FutureStep::Return(Ok(Async::NotReady)),
            OpStep::Fail(error) => FutureStep::Return(Err(error)),
            OpStep::Complete((socket, buffer, _), _, count) => {
                if count == bytes_len(&buffer) {
                    FutureStep::Return(Ok(Async::Ready((socket, buffer))))
                } else {
                    FutureStep::Return(Err(Error::Simple(ErrorKind::WriteZero)))
                }
            },
        }
    }
}

/// What accepting a connection needs done next.
#[derive(PartialEq, Eq, Debug)]
pub enum AcceptStep<L, T, V> {
    /// Submit the operation, with a socket of this family to take the connection.
    Initiate(Family),
    /// Register the current task with the operation's task, and see whether it is complete.
    PollTask,
    /// Make a stream of the connection that this listener accepted, and read its address.
    Finish(L, T),
    /// The poll is over.
    Return(Result<Async<V>, Error>),
}

/// Accepts a connection.
pub struct Accept<L, T> {
    op: OverlappedOp<L, T>,
    ip_version: IpVersion,
    finishing: bool,
}

impl<L, T> Accept<L, T> {
    /// The state of the operation.
    pub closed spec fn state(&self) -> OpState<L, T> {
        self.op.state()
    }

    /// What the listener takes.
    pub closed spec fn ip_version(&self) -> IpVersion {
        self.ip_version
    }

    /// Whether a stream is being made of a connection.
    pub closed spec fn finishing(&self) -> bool {
        self.finishing
    }

    /// A stream is made of a connection once the operation is over.
    pub open spec fn wf(&self) -> bool {
        self.finishing() ==> self.state() is Done
    }

    /// Accepts a connection on a listener.
    pub fn new(listener: L, ip_version: IpVersion) -> (accept: Self)
        ensures
            accept.wf(),
            accept.state() == OpState::<L, T>::Initial(listener),
            accept.ip_version() == ip_version,
            !accept.finishing(),
    {
        Accept { op: OverlappedOp::new(listener), ip_version, finishing: false }
    }

    /// The operation.
    pub fn op(&mut self) -> (op: &mut OverlappedOp<L, T>)
        ensures
            op.state() == old(self).state(),
            final(self).state() == final(op).state(),
            final(self).ip_version() == old(self).ip_version(),
            final(self).finishing() == old(self).finishing(),
    {
        &mut self.op
    }

    /// Takes the next step. The socket that takes the connection is an IPv4 one where the listener
    /// takes only those.
    pub fn poll<V>(&mut self, event: OpEvent<T, ()>) -> (step: AcceptStep<L, T, V>)
        requires
            old(self).wf(),
            old(self).state().expects(event),
        ensures
            final(self).wf(),
            final(self).state() == old(self).state().step(event).0,
            final(self).ip_version() == old(self).ip_version(),
            match old(self).state().step(event).1 {
                OpStep::Submit => step == AcceptStep::<L, T, V>::Initiate(
                    if old(self).ip_version() is V4Only {
                        Family::V4
                    } else {
                        Family::V6
                    },
                ),
                OpStep::PollTask => step is PollTask,
                OpStep::Wait => step == AcceptStep::<L, T, V>::Return(Ok(Async::NotReady)),
                OpStep::Fail(error) => step == AcceptStep::<L, T, V>::Return(Err(error)),
                OpStep::Complete(listener, task, _) => step == AcceptStep::<L, T, V>::Finish(
                    listener,
                    task,
                ),
            },
            final(self).finishing() == (old(self).finishing() || old(self).state().step(
                event,
            ).1 is Complete),
    {
        match self.op.step(event) {
            OpStep::Submit => AcceptStep::Initiate(self.ip_version.family()),
            OpStep::PollTask => AcceptStep::PollTask,
            OpStep::Wait => AcceptStep::Return(Ok(Async::NotReady)),
            OpStep::Fail(error) => AcceptStep::Return(Err(error)),
            OpStep::Complete(listener, task, _) => {
                self.finishing = true;
                AcceptStep::Finish(listener, task)
            },
        }
    }

    /// Resolves with the stream that was made of the connection and its address, or with why that
    /// failed.
    pub fn finished<V>(&mut self, accepted: Result<V, Error>) -> (result: Result<Async<V>, Error>)
        requires
            old(self).wf(),
            old(self).finishing(),
        ensures
            final(self).wf(),
            !final(self).finishing(),
            final(self).state() == old(self).state(),
            final(self).ip_version() == old(self).ip_version(),
            result == (match accepted {
                Ok(value) => Ok::<Async<V>, Error>(Async::Ready(value)),
                Err(error) => Err::<Async<V>, Error>(error),
            }),
    {
        self.finishing = false;
        match accepted {
            Ok(value) => Ok(Async::Ready(value)),
            Err(error) => Err(error),
        }
    }
}

/// What connecting a stream needs done next.
#[derive(PartialEq, Eq, Debug)]
pub enum ConnectStep<S> {
    /// Submit the operation, with the current task to be notified.
    Submit,
    /// Register the current task with the operation's task, and see whether it is complete.
    PollTask,
    /// Tell the system that this stream is connected.
    Finish(S),
    /// The poll is over.
    Return(Result<Async<S>, Error>),
}

/// Connects a stream.
pub struct Connect<S, A, T> {
    op: OverlappedOp<(S, A), T>,
    /// Why there is no stream to connect.
    error: Option<Error>,
    finishing: bool,
}

impl<S, A, T> Connect<S, A, T> {
    /// The state of the operation.
    pub closed spec fn state(&self) -> OpState<(S, A), T> {
        self.op.state()
    }

    /// Why there is no stream to connect.
    pub closed spec fn error(&self) -> Option<Error> {
        self.error
    }

    /// Whether the system is being told that the stream is connected.
    pub closed spec fn finishing(&self) -> bool {
        self.finishing
    }

    /// Where there is an error, there is nothing to do but to return it. The system is told of a
    /// connection once the operation is over.
    pub open spec fn wf(&self) -> bool {
        &&& self.error() is Some ==> self.state() is Done
        &&& self.finishing() ==> self.state() is Done && self.error() is None
    }

    /// Whether this can happen next.
    pub open spec fn expects(&self, event: OpEvent<T, ()>) -> bool {
        self.state().expects(event) || (self.error() is Some && event is Polled)
    }

    /// Connects a stream, if one could be had, to an address.
    pub fn new(stream: Result<S, Error>, addr: A) -> (connect: Self)
        ensures
            connect.wf(),
            !connect.finishing(),
            match stream {
                Ok(stream) => {
                    &&& connect.state() == OpState::<(S, A), T>::Initial((stream, addr))
                    &&& connect.error() is None
                },
                Err(error) => {
                    &&& connect.state() is Done
                    &&& connect.error() == Some(error)
                },
            },
    {
        match stream {
            Ok(stream) => Connect {
                op: OverlappedOp::new((stream, addr)),
                error: None,
                finishing: false,
            },
            Err(error) => Connect {
                op: OverlappedOp { state: OpState::Done },
                error: Some(error),
                finishing: false,
            },
        }
    }

    /// The operation.
    pub fn op(&mut self) -> (op: &mut OverlappedOp<(S, A), T>)
        ensures
            op.state() == old(self).state(),
            final(self).state() == final(op).state(),
            final(self).error() == old(self).error(),
            final(self).finishing() == old(self).finishing(),
    {
        &mut self.op
    }

    /// Takes the next step. The system is told that a stream is connected before the future
    /// resolves.
    pub fn poll(&mut self, event: OpEvent<T, ()>) -> (step: ConnectStep<S>)
        requires
            old(self).wf(),
            old(self).expects(event),
        ensures
            final(self).wf(),
            final(self).error() is None,
            match old(self).error() {
                Some(error) => {
                    &&& step == ConnectStep::<S>::Return(Err(error))
                    &&& final(self).state() == old(self).state()
                    &&& final(self).finishing() == old(self).finishing()
                },
                None => {
                    &&& final(self).state() == old(self).state().step(event).0
                    &&& final(self).finishing() == (old(self).finishing() || old(
                        self,
                    ).state().step(event).1 is Complete)
                    &&& step == match old(self).state().step(event).1 {
                        OpStep::Submit => ConnectStep::<S>::Submit,
                        OpStep::PollTask => ConnectStep::<S>::PollTask,
                        OpStep::Wait => ConnectStep::<S>::Return(Ok(Async::NotReady)),
                        OpStep::Fail(error) => ConnectStep::<S>::Return(Err(error)),
                        OpStep::Complete((stream, _), _, _) => ConnectStep::<S>::Finish(stream),
                    }
                },
            },
    {
        if let Some(error) = self.error.take() {
            return ConnectStep::Return(Err(error));
        }
        match self.op.step(event) {
            OpStep::Submit => ConnectStep::Submit,
            OpStep::PollTask => ConnectStep::PollTask,
            OpStep::Wait => ConnectStep::Return(Ok(Async::NotReady)),
            OpStep::Fail(error) => ConnectStep::Return(Err(error)),
            OpStep::Complete((stream, _), _, _) => {
                self.finishing = true;
                ConnectStep::Finish(stream)
            },
        }
    }

    /// Resolves with the stream of which the system was told that it is connected, or with why that
    /// failed.
    pub fn finished(&mut self, stream: S, completed: Result<(), Error>) -> (result: Result<
        Async<S>,
        Error,
    >)
        requires
            old(self).wf(),
            old(self).finishing(),
        ensures
            final(self).wf(),
            !final(self).finishing(),
            final(self).state() == old(self).state(),
            final(self).error() == old(self).error(),
            result == (match completed {
                Ok(_) => Ok::<Async<S>, Error>(Async::Ready(stream)),
                Err(error) => Err::<Async<S>, Error>(error),
            }),
    {
        self.finishing = false;
        match completed {
            Ok(_) => Ok(Async::Ready(stream)),
            Err(error) => Err(error),
        }
    }
}

/// Whether data at this address lie within a value that occupies the addresses from `start` up to
/// `end`.
pub open spec fn within(data: usize, start: usize, end: usize) -> bool {
    start <= data < end
}

/// What is left of a buffer that must not store its bytes within itself: one that is found to do so
/// is replaced by one that holds the same bytes elsewhere, and any other is left as it is.
pub open spec fn bytes_made_safe(before: Bytes, found_inline: bool, after: Bytes) -> bool {
    &&& bytes_data(after) == bytes_data(before)
    &&& found_inline ==> !bytes_inline(after)
    &&& !found_inline ==> after == before
}

/// The same for a buffer that can be written to.
pub open spec fn bytes_mut_made_safe(
    before: BytesMut,
    found_inline: bool,
    after: BytesMut,
) -> bool {
    &&& bytes_mut_data(after) == bytes_mut_data(before)
    &&& found_inline ==> !bytes_mut_inline(after)
    &&& !found_inline ==> after == before
}

/// Makes sure that a buffer does not store its bytes within itself, so that they stay where they
/// are when it is moved. `data` is the address of the bytes, and `start` and `end` are those of the
/// buffer itself; where the bytes lie outside of it, it is left as it is.
pub fn ensure_bytes_safe(bytes: &mut Bytes, data: usize, start: usize, end: usize) -> (moved: bool)
    ensures
        moved == within(data, start, end),
        bytes_made_safe(*old(bytes), moved, *final(bytes)),
{
    if data >= start && data < end {
        *bytes = bytes_from_vec(bytes_to_vec(bytes));
        true
    } else {
        false
    }
}

/// Does for a buffer that can be written to what `ensure_bytes_safe` does for one that cannot.
pub fn ensure_bytesmut_safe(bytes: &mut BytesMut, data: usize, start: usize, end: usize) -> (moved:
    bool)
    ensures
        moved == within(data, start, end),
        bytes_mut_made_safe(*old(bytes), moved, *final(bytes)),
{
    if data >= start && data < end {
        *bytes = bytes_mut_from_vec(bytes_mut_to_vec(bytes));
        true
    } else {
        false
    }
}

/// Where the addresses tell truly whether a buffer stores its bytes within itself, it does not do
/// so afterwards, its bytes are the same, and making it safe once more changes nothing.
pub proof fn law_bytes_are_safe(before: Bytes, after: Bytes, again: Bytes)
    requires
        bytes_made_safe(before, bytes_inline(before), after),
        bytes_made_safe(after, bytes_inline(after), again),
    ensures
        !bytes_inline(after),
        bytes_data(after) == bytes_data(before),
        again == after,
{
}

/// The same holds of a buffer that can be written to.
pub proof fn law_writable_bytes_are_safe(before: BytesMut, after: BytesMut, again: BytesMut)
    requires
        bytes_mut_made_safe(before, bytes_mut_inline(before), after),
        bytes_mut_made_safe(after, bytes_mut_inline(after), again),
    ensures
        !bytes_mut_inline(after),
        bytes_mut_data(after) == bytes_mut_data(before),
        again == after,
{
}

/// A task that is told to wait is one that an operation in flight notifies: the operation was just
/// submitted with it, or it was registered when the operation was looked at.
pub proof fn law_waiting_task_is_registered<P, T, R>(state: OpState<P, T>, event: OpEvent<T, R>)
    requires
        state.expects(event),
        state.step(event).1 is Wait,
    ensures
        state.step(event).0 is Pending,
        event is Submitted || event is TaskPolled,
{
}

/// An operation is submitted once: only a future that was never polled is told to submit it, and no
/// step leads back to that.
pub proof fn law_operation_is_submitted_once<P, T, R>(
    state: OpState<P, T>,
    event: OpEvent<T, R>,
)
    requires
        state.expects(event),
    ensures
        state.step(event).1 is Submit <==> state is Initial,
        state.step(event).0 !is Initial,
{
}

/// What a future was made from is kept until the future resolves, and is then handed back. What
/// belongs to an operation is kept from its submission on, and is handed back too.
pub proof fn law_buffers_are_kept<P, T, R>(state: OpState<P, T>, event: OpEvent<T, R>)
    requires
        state.expects(event),
    ensures
        match state.step(event).1 {
            OpStep::Complete(payload, task, _) => {
                &&& state.payload() == Some(payload)
                &&& match event {
                    OpEvent::Submitted(Ok((_, given))) => given == task,
                    _ => state.task() == Some(task),
                }
            },
            OpStep::Fail(_) => true,
            _ => {
                &&& state.step(event).0.payload() == state.payload()
                &&& state.task() is Some ==> state.step(event).0.task() == state.task()
            },
        },
{
}

/// A future resolves once: when it has, nothing can happen to it any more.
pub proof fn law_resolved_future_is_done<P, T, R>(
    state: OpState<P, T>,
    event: OpEvent<T, R>,
    later: OpEvent<T, R>,
)
    requires
        state.expects(event),
        state.step(event).1 is Complete || state.step(event).1 is Fail,
    ensures
        !state.step(event).0.expects(later),
{
}

/// An operation that could not be submitted, or that failed, resolves the future with that very
/// error, and no other error is returned.
pub proof fn law_failed_operation_resolves_future<P, T, R, V>(
    state: OpState<P, T>,
    event: OpEvent<T, R>,
    step: FutureStep<V>,
)
    requires
        state.expects(event),
        step.passes_on(state.step(event).1),
    ensures
        event matches OpEvent::Submitted(Err(error)) ==> step == FutureStep::<V>::Return(
            Err(error),
        ) && state.step(event).0 is Done,
        event matches OpEvent::TaskPolled(Err(error)) ==> step == FutureStep::<V>::Return(
            Err(error),
        ) && state.step(event).0 is Done,
        step matches FutureStep::Return(Err(error)) ==> event == OpEvent::<T, R>::Submitted(
            Err(error),
        ) || event == OpEvent::<T, R>::TaskPolled(Err(error)),
        step matches FutureStep::Return(Ok(ready)) ==> ready is NotReady,
{
}

/// An operation that completes resolves the future, be it at once or later, with what the future
/// was made from, what belongs to the operation, and what came of it.
pub proof fn law_completed_operation_resolves_future<P, T, R>(
    state: OpState<P, T>,
    payload: P,
    task: T,
    value: R,
)
    ensures
        state == OpState::<P, T>::Submitting(payload) ==> {
            let next = state.step(OpEvent::<T, R>::Submitted(Ok((Some(value), task))));
            &&& next.0 is Done
            &&& next.1 == OpStep::Complete(payload, task, value)
        },
        state == OpState::<P, T>::Polling(payload, task) ==> {
            let next = state.step(OpEvent::<T, R>::TaskPolled(Ok(Async::Ready(value))));
            &&& next.0 is Done
            &&& next.1 == OpStep::Complete(payload, task, value)
        },
{
}

/// An operation that does not complete at once is looked at with every later poll, until it has
/// completed; meanwhile the future has all that it was made from and all that belongs to the
/// operation.
pub proof fn law_pending_operation_is_looked_at<P, T, R>(payload: P, task: T)
    ensures
        ({
            let polled = OpState::<P, T>::Initial(payload).step(OpEvent::<T, R>::Polled);
            let submitted = polled.0.step(OpEvent::<T, R>::Submitted(Ok((None, task))));
            let again = submitted.0.step(OpEvent::<T, R>::Polled);
            let unready = again.0.step(OpEvent::<T, R>::TaskPolled(Ok(Async::NotReady)));
            &&& polled.1 is Submit
            &&& polled.0.expects(OpEvent::<T, R>::Submitted(Ok((None, task))))
            &&& submitted.1 is Wait
            &&& submitted.0 == OpState::<P, T>::Pending(payload, task)
            &&& again.1 is PollTask
            &&& again.0.expects(OpEvent::<T, R>::TaskPolled(Ok(Async::NotReady)))
            &&& unready.1 is Wait
            &&& unready.0 == submitted.0
        }),
{
}

/// A write returns the stream and the buffer as they were, and how many bytes were sent; it
/// waits until then, and fails with the error of the operation and with no other.
pub proof fn law_write_returns_count<S, T>(
    write: &mut TcpWrite<S, T>,
    before: OpState<(S, Bytes), T>,
    after: OpState<(S, Bytes), T>,
    event: OpEvent<T, usize>,
    step: FutureStep<(S, Bytes, usize)>,
)
    requires
        before == old(write).state(),
        after == final(write).state(),
        before.expects(event),
        call_ensures(TcpWrite::<S, T>::poll, (write, event), step),
    ensures
        event matches OpEvent::Submitted(Err(error)) ==> (step matches FutureStep::Return(
            Err(reported),
        ) && reported == error),
        event matches OpEvent::TaskPolled(Err(error)) ==> (step matches FutureStep::Return(
            Err(reported),
        ) && reported == error),
        step matches FutureStep::Return(Err(error)) ==> {
            ||| event == OpEvent::<T, usize>::Submitted(Err(error))
            ||| event == OpEvent::<T, usize>::TaskPolled(Err(error))
        },
        event matches OpEvent::Submitted(Ok((Some(count), _))) ==> {
            &&& step matches FutureStep::Return(Ok(Async::Ready((stream, buffer, sent))))
            &&& before.payload() == Some((stream, buffer))
            &&& sent == count
        },
        event matches OpEvent::TaskPolled(Ok(Async::Ready(count))) ==> {
            &&& step matches FutureStep::Return(Ok(Async::Ready((stream, buffer, sent))))
            &&& before.payload() == Some((stream, buffer))
            &&& sent == count
        },
        (step matches FutureStep::Return(Ok(ready)) && ready is NotReady) <==> {
            ||| event matches OpEvent::Submitted(Ok((value, _))) && value is None
            ||| event matches OpEvent::TaskPolled(Ok(value)) && value is NotReady
        },
        step is Submit <==> event is Polled && before is Initial,
        step is PollTask <==> event is Polled && before is Pending,
        after is Done <==> (step matches FutureStep::Return(outcome) && !(outcome matches Ok(ready)
            && ready is NotReady)),
        step is Submit ==> after is Submitting,
        step is PollTask ==> after is Polling,
        step is Return ==> after is Pending || after is Done,
        after !is Done ==> after.payload() == before.payload(),
        event matches OpEvent::Submitted(Ok((None, task))) ==> after.task() == Some(task),
        before.task() is Some && after !is Done ==> after.task() == before.task(),
{
}

/// A read returns the stream, the buffer and how many bytes were received; it
/// waits until then, and fails with the error of the operation and with no other.
pub proof fn law_read_returns_count<S, B, T>(
    read: &mut TcpRead<S, B, T>,
    before: OpState<(S, B), T>,
    after: OpState<(S, B), T>,
    event: OpEvent<T, usize>,
    step: FutureStep<(S, B, usize)>,
)
    requires
        before == old(read).state(),
        after == final(read).state(),
        before.expects(event),
        call_ensures(TcpRead::<S, B, T>::poll, (read, event), step),
    ensures
        event matches OpEvent::Submitted(Err(error)) ==> (step matches FutureStep::Return(
            Err(reported),
        ) && reported == error),
        event matches OpEvent::TaskPolled(Err(error)) ==> (step matches FutureStep::Return(
            Err(reported),
        ) && reported == error),
        step matches FutureStep::Return(Err(error)) ==> {
            ||| event == OpEvent::<T, usize>::Submitted(Err(error))
            ||| event == OpEvent::<T, usize>::TaskPolled(Err(error))
        },
        event matches OpEvent::Submitted(Ok((Some(count), _))) ==> {
            &&& step matches FutureStep::Return(Ok(Async::Ready((stream, buffer, received))))
            &&& before.payload() == Some((stream, buffer))
            &&& received == count
        },
        event matches OpEvent::TaskPolled(Ok(Async::Ready(count))) ==> {
            &&& step matches FutureStep::Return(Ok(Async::Ready((stream, buffer, received))))
            &&& before.payload() == Some((stream, buffer))
            &&& received == count
        },
        (step matches FutureStep::Return(Ok(ready)) && ready is NotReady) <==> {
            ||| event matches OpEvent::Submitted(Ok((value, _))) && value is None
            ||| event matches OpEvent::TaskPolled(Ok(value)) && value is NotReady
        },
        step is Submit <==> event is Polled && before is Initial,
        step is PollTask <==> event is Polled && before is Pending,
        after is Done <==> (step matches FutureStep::Return(outcome) && !(outcome matches Ok(ready)
            && ready is NotReady)),
        step is Submit ==> after is Submitting,
        step is PollTask ==> after is Polling,
        step is Return ==> after is Pending || after is Done,
        after !is Done ==> after.payload() == before.payload(),
        event matches OpEvent::Submitted(Ok((None, task))) ==> after.task() == Some(task),
        before.task() is Some && after !is Done ==> after.task() == before.task(),
{
}

/// Receiving returns the socket, the buffer, how many bytes were received, and the address that
/// they came from; it
/// waits until then, and fails with the error of the operation and with no other.
pub proof fn law_receiving_returns_count_and_address<S, B, A, T>(
    recv: &mut RecvFrom<S, B, T>,
    before: OpState<(S, B), T>,
    after: OpState<(S, B), T>,
    event: OpEvent<T, (usize, A)>,
    step: FutureStep<(S, B, usize, A)>,
)
    requires
        before == old(recv).state(),
        after == final(recv).state(),
        before.expects(event),
        call_ensures(RecvFrom::<S, B, T>::poll::<A>, (recv, event), step),
    ensures
        event matches OpEvent::Submitted(Err(error)) ==> (step matches FutureStep::Return(
            Err(reported),
        ) && reported == error),
        event matches OpEvent::TaskPolled(Err(error)) ==> (step matches FutureStep::Return(
            Err(reported),
        ) && reported == error),
        step matches FutureStep::Return(Err(error)) ==> {
            ||| event == OpEvent::<T, (usize, A)>::Submitted(Err(error))
            ||| event == OpEvent::<T, (usize, A)>::TaskPolled(Err(error))
        },
        event matches OpEvent::Submitted(Ok((Some((count, addr)), _))) ==> {
            &&& step matches FutureStep::Return(
                Ok(Async::Ready((socket, buffer, received, addr2))),
            )
            &&& before.payload() == Some((socket, buffer))
            &&& received == count
            &&& addr2 == addr
        },
        event matches OpEvent::TaskPolled(Ok(Async::Ready((count, addr)))) ==> {
            &&& step matches FutureStep::Return(
                Ok(Async::Ready((socket, buffer, received, addr2))),
            )
            &&& before.payload() == Some((socket, buffer))
            &&& received == count
            &&& addr2 == addr
        },
        (step matches FutureStep::Return(Ok(ready)) && ready is NotReady) <==> {
            ||| event matches OpEvent::Submitted(Ok((value, _))) && value is None
            ||| event matches OpEvent::TaskPolled(Ok(value)) && value is NotReady
        },
        step is Submit <==> event is Polled && before is Initial,
        step is PollTask <==> event is Polled && before is Pending,
        after is Done <==> (step matches FutureStep::Return(outcome) && !(outcome matches Ok(ready)
            && ready is NotReady)),
        step is Submit ==> after is Submitting,
        step is PollTask ==> after is Polling,
        step is Return ==> after is Pending || after is Done,
        after !is Done ==> after.payload() == before.payload(),
        event matches OpEvent::Submitted(Ok((None, task))) ==> after.task() == Some(task),
        before.task() is Some && after !is Done ==> after.task() == before.task(),
{
}

/// Sending a datagram returns the socket and the buffer as they were if all of it was sent, and
/// fails if not. It waits until then, and fails with the error of the operation too.
pub proof fn law_datagram_is_sent_whole<S, A, T>(
    send: &mut SendTo<S, A, T>,
    before: OpState<(S, Bytes, A), T>,
    after: OpState<(S, Bytes, A), T>,
    event: OpEvent<T, usize>,
    step: FutureStep<(S, Bytes)>,
)
    requires
        before == old(send).state(),
        after == final(send).state(),
        before.expects(event),
        call_ensures(SendTo::<S, A, T>::poll, (send, event), step),
    ensures
        event matches OpEvent::Submitted(Err(error)) ==> (step matches FutureStep::Return(
            Err(reported),
        ) && reported == error),
        event matches OpEvent::TaskPolled(Err(error)) ==> (step matches FutureStep::Return(
            Err(reported),
        ) && reported == error),
        step matches FutureStep::Return(Err(error)) ==> {
            ||| event == OpEvent::<T, usize>::Submitted(Err(error))
            ||| event == OpEvent::<T, usize>::TaskPolled(Err(error))
            ||| event matches OpEvent::Submitted(outcome) && outcome is Ok
            ||| event matches OpEvent::TaskPolled(outcome) && outcome is Ok
        },
        event matches OpEvent::Submitted(Ok((Some(count), _))) ==> {
            let (socket, buffer, _) = before.payload()->0;
            if count == bytes_data(buffer).len() {
                &&& step matches FutureStep::Return(Ok(Async::Ready((socket2, buffer2))))
                &&& socket2 == socket
                &&& buffer2 == buffer
            } else {
                &&& step matches FutureStep::Return(Err(error))
                &&& error == Error::Simple(ErrorKind::WriteZero)
            }
        },
        event matches OpEvent::TaskPolled(Ok(Async::Ready(count))) ==> {
            let (socket, buffer, _) = before.payload()->0;
            if count == bytes_data(buffer).len() {
                &&& step matches FutureStep::Return(Ok(Async::Ready((socket2, buffer2))))
                &&& socket2 == socket
                &&& buffer2 == buffer
            } else {
                &&& step matches FutureStep::Return(Err(error))
                &&& error == Error::Simple(ErrorKind::WriteZero)
            }
        },
        (step matches FutureStep::Return(Ok(ready)) && ready is NotReady) <==> {
            ||| event matches OpEvent::Submitted(Ok((value, _))) && value is None
            ||| event matches OpEvent::TaskPolled(Ok(value)) && value is NotReady
        },
        step is Submit <==> event is Polled && before is Initial,
        step is PollTask <==> event is Polled && before is Pending,
        after is Done <==> (step matches FutureStep::Return(outcome) && !(outcome matches Ok(ready)
            && ready is NotReady)),
        step is Submit ==> after is Submitting,
        step is PollTask ==> after is Polling,
        step is Return ==> after is Pending || after is Done,
        after !is Done ==> after.payload() == before.payload(),
        event matches OpEvent::Submitted(Ok((None, task))) ==> after.task() == Some(task),
        before.task() is Some && after !is Done ==> after.task() == before.task(),
{
}

/// A write submits its operation on the first poll, with the stream and the buffer that it has.
pub proof fn law_write_is_submitted_first<S, T>(
    stream: S,
    buffer: Bytes,
    write: &mut TcpWrite<S, T>,
    step: FutureStep<(S, Bytes, usize)>,
)
    requires
        call_ensures(TcpWrite::<S, T>::new, (stream, buffer), *old(write)),
        call_ensures(TcpWrite::<S, T>::poll, (write, OpEvent::<T, usize>::Polled), step),
    ensures
        old(write).state().expects(OpEvent::<T, usize>::Polled),
        step is Submit,
        final(write).state().payload() == Some((stream, buffer)),
        final(write).state() is Submitting,
{
}

/// A read submits its operation on the first poll, with the stream and the buffer that it has.
pub proof fn law_read_is_submitted_first<S, B, T>(
    stream: S,
    buffer: B,
    read: &mut TcpRead<S, B, T>,
    step: FutureStep<(S, B, usize)>,
)
    requires
        call_ensures(TcpRead::<S, B, T>::new, (stream, buffer), *old(read)),
        call_ensures(TcpRead::<S, B, T>::poll, (read, OpEvent::<T, usize>::Polled), step),
    ensures
        old(read).state().expects(OpEvent::<T, usize>::Polled),
        step is Submit,
        final(read).state().payload() == Some((stream, buffer)),
        final(read).state() is Submitting,
{
}

/// Receiving submits its operation on the first poll, with the socket and the buffer that it has.
pub proof fn law_receiving_is_submitted_first<S, B, A, T>(
    socket: S,
    buffer: B,
    recv: &mut RecvFrom<S, B, T>,
    step: FutureStep<(S, B, usize, A)>,
)
    requires
        call_ensures(RecvFrom::<S, B, T>::new, (socket, buffer), *old(recv)),
        call_ensures(RecvFrom::<S, B, T>::poll::<A>, (recv, OpEvent::<T, (usize, A)>::Polled), step),
    ensures
        old(recv).state().expects(OpEvent::<T, (usize, A)>::Polled),
        step is Submit,
        final(recv).state().payload() == Some((socket, buffer)),
        final(recv).state() is Submitting,
{
}

/// Sending submits its operation on the first poll, with all that it was given.
pub proof fn law_sending_is_submitted_first<S, A, T>(
    socket: S,
    buffer: Bytes,
    addr: A,
    send: &mut SendTo<S, A, T>,
    step: FutureStep<(S, Bytes)>,
)
    requires
        call_ensures(SendTo::<S, A, T>::new, (socket, buffer, addr), *old(send)),
        call_ensures(SendTo::<S, A, T>::poll, (send, OpEvent::<T, usize>::Polled), step),
    ensures
        old(send).state().expects(OpEvent::<T, usize>::Polled),
        step is Submit,
        final(send).state().payload() == Some((socket, buffer, addr)),
        final(send).state() is Submitting,
{
}

/// A listener that takes IPv4 connections only has them taken by an IPv4 socket, and every other
/// listener by an IPv6 one: on its first poll, accepting submits its operation with such a socket.
/// A listener of which nothing can be found out is refused with the error, unless its own address
/// says all.
pub proof fn law_connection_is_taken_by_fitting_socket<L, T, V>(
    is_ipv4: bool,
    v6_only: Result<u32, Error>,
    version: Result<IpVersion, Error>,
    listener: L,
    accept: &mut Accept<L, T>,
    step: AcceptStep<L, T, V>,
    connecting: Family,
)
    requires
        call_ensures(IpVersion::of_listener, (is_ipv4, v6_only), version),
        version matches Ok(found) ==> call_ensures(
            Accept::<L, T>::new,
            (listener, found),
            *old(accept),
        ) && call_ensures(
            Accept::<L, T>::poll::<V>,
            (accept, OpEvent::<T, ()>::Polled),
            step,
        ),
        call_ensures(Family::of_addr, (is_ipv4,), connecting),
    ensures
        version is Err <==> !is_ipv4 && v6_only is Err,
        version matches Err(error) ==> v6_only == Err::<u32, Error>(error),
        version matches Ok(found) ==> {
            &&& found is V4Only <==> is_ipv4
            &&& found is DualStack <==> !is_ipv4 && v6_only == Ok::<u32, Error>(0)
            &&& old(accept).wf()
            &&& old(accept).state().expects(OpEvent::<T, ()>::Polled)
            &&& step matches AcceptStep::Initiate(family)
            &&& family is V4 <==> is_ipv4
            &&& final(accept).state() == OpState::<L, T>::Submitting(listener)
            &&& !final(accept).finishing()
        },
        connecting is V4 <==> is_ipv4,
{
}

/// Accepting fails with the error of the operation and with no other, waits until the operation is
/// complete, and then has a stream made of the connection, by its listener and with what belongs to
/// the operation. It resolves with that stream, or with why there is none.
pub proof fn law_accepted_connection_is_finished<L, T, V>(
    accept: &mut Accept<L, T>,
    event: OpEvent<T, ()>,
    step: AcceptStep<L, T, V>,
    later: &mut Accept<L, T>,
    accepted: Result<V, Error>,
    result: Result<Async<V>, Error>,
)
    requires
        old(accept).wf(),
        old(accept).state().expects(event),
        call_ensures(Accept::<L, T>::poll::<V>, (accept, event), step),
        *old(later) == *final(accept),
        step is Finish ==> call_ensures(
            Accept::<L, T>::finished::<V>,
            (later, accepted),
            result,
        ),
    ensures
        event matches OpEvent::Submitted(Err(error)) ==> step == AcceptStep::<L, T, V>::Return(
            Err(error),
        ),
        event matches OpEvent::TaskPolled(Err(error)) ==> step == AcceptStep::<L, T, V>::Return(
            Err(error),
        ),
        step matches AcceptStep::Return(Err(error)) ==> event == OpEvent::<T, ()>::Submitted(
            Err(error),
        ) || event == OpEvent::<T, ()>::TaskPolled(Err(error)),
        step matches AcceptStep::Return(Ok(ready)) ==> ready is NotReady,
        step == AcceptStep::<L, T, V>::Return(Ok(Async::NotReady)) <==> {
            ||| event matches OpEvent::Submitted(Ok((value, _))) && value is None
            ||| event matches OpEvent::TaskPolled(Ok(value)) && value is NotReady
        },
        step is Finish <==> {
            ||| event matches OpEvent::Submitted(Ok((value, _))) && value is Some
            ||| event matches OpEvent::TaskPolled(Ok(value)) && value is Ready
        },
        step matches AcceptStep::Finish(listener, task) ==> {
            &&& old(accept).state().payload() == Some(listener)
            &&& match event {
                OpEvent::Submitted(Ok((_, given))) => task == given,
                _ => old(accept).state().task() == Some(task),
            }
            &&& final(accept).finishing()
            &&& !final(later).finishing()
            &&& accepted matches Ok(made) ==> (result matches Ok(Async::Ready(made2)) && made2
                == made)
            &&& accepted matches Err(error) ==> result == Err::<Async<V>, Error>(error)
        },
        step is PollTask <==> event is Polled && old(accept).state() is Pending,
        step is PollTask ==> final(accept).state() is Polling,
        step is Initiate <==> event is Polled && old(accept).state() is Initial,
        step is Initiate ==> final(accept).state() is Submitting,
        step is Finish ==> final(accept).state() is Done,
        step matches AcceptStep::Return(outcome) ==> if outcome is Ok {
            &&& final(accept).state() is Pending
            &&& final(accept).state().payload() == old(accept).state().payload()
        } else {
            final(accept).state() is Done
        },
        final(accept).ip_version() == old(accept).ip_version(),
{
}

/// Connecting fails with why there is no stream, or with the error of the operation and with no
/// other; it waits until the operation is complete, then has the system told of the connection of
/// its own stream, and resolves with that stream, or with why the system could not be told.
pub proof fn law_connected_stream_is_finished<S, A, T>(
    connect: &mut Connect<S, A, T>,
    event: OpEvent<T, ()>,
    step: ConnectStep<S>,
    later: &mut Connect<S, A, T>,
    completed: Result<(), Error>,
    result: Result<Async<S>, Error>,
)
    requires
        old(connect).wf(),
        old(connect).expects(event),
        call_ensures(Connect::<S, A, T>::poll, (connect, event), step),
        *old(later) == *final(connect),
        step matches ConnectStep::Finish(stream) ==> call_ensures(
            Connect::<S, A, T>::finished,
            (later, stream, completed),
            result,
        ),
    ensures
        old(connect).error() matches Some(error) ==> step == ConnectStep::<S>::Return(Err(error)),
        old(connect).error() is None ==> {
            &&& event matches OpEvent::Submitted(Err(error)) ==> step == ConnectStep::<S>::Return(
                Err(error),
            )
            &&& event matches OpEvent::TaskPolled(Err(error)) ==> step
                == ConnectStep::<S>::Return(Err(error))
            &&& step matches ConnectStep::Return(Err(error)) ==> event == OpEvent::<
                T,
                (),
            >::Submitted(Err(error)) || event == OpEvent::<T, ()>::TaskPolled(Err(error))
            &&& step matches ConnectStep::Return(Ok(ready)) ==> ready is NotReady
            &&& step == ConnectStep::<S>::Return(Ok(Async::NotReady)) <==> {
                ||| event matches OpEvent::Submitted(Ok((value, _))) && value is None
                ||| event matches OpEvent::TaskPolled(Ok(value)) && value is NotReady
            }
            &&& step is Finish <==> {
                ||| event matches OpEvent::Submitted(Ok((value, _))) && value is Some
                ||| event matches OpEvent::TaskPolled(Ok(value)) && value is Ready
            }
            &&& step is PollTask <==> event is Polled && old(connect).state() is Pending
            &&& step is PollTask ==> final(connect).state() is Polling
            &&& step is Submit <==> event is Polled && old(connect).state() is Initial
            &&& step is Submit ==> final(connect).state() is Submitting
            &&& step is Finish ==> final(connect).state() is Done
            &&& step matches ConnectStep::Return(outcome) ==> if outcome is Ok {
                &&& final(connect).state() is Pending
                &&& final(connect).state().payload() == old(connect).state().payload()
            } else {
                final(connect).state() is Done
            }
        },
        step matches ConnectStep::Finish(stream) ==> {
            &&& old(connect).state().payload() matches Some((held, _))
            &&& stream == held
            &&& final(connect).finishing()
            &&& !final(later).finishing()
            &&& completed is Ok ==> (result matches Ok(Async::Ready(connected)) && connected
                == stream)
            &&& completed matches Err(error) ==> result == Err::<Async<S>, Error>(error)
        },
        final(connect).error() is None,
{
}

/// Where there is no stream to connect, the first poll fails with why there is none; otherwise it
/// submits the operation, with the stream and the address.
pub proof fn law_connecting_starts_with_stream<S, A, T>(
    stream: Result<S, Error>,
    addr: A,
    connect: &mut Connect<S, A, T>,
    step: ConnectStep<S>,
)
    requires
        call_ensures(Connect::<S, A, T>::new, (stream, addr), *old(connect)),
        call_ensures(Connect::<S, A, T>::poll, (connect, OpEvent::<T, ()>::Polled), step),
    ensures
        old(connect).wf(),
        old(connect).expects(OpEvent::<T, ()>::Polled),
        stream matches Err(error) ==> step == ConnectStep::<S>::Return(Err(error)),
        stream matches Ok(made) ==> {
            &&& step is Submit
            &&& final(connect).state().payload() == Some((made, addr))
        },
        !final(connect).finishing(),
{
}

/// A future that is dropped gives up what it was made from, and what belongs to its operation,
/// exactly while the operation is in flight; the two must be leaked exactly when the operation
/// could not be cancelled. In every case nothing can happen to the operation any more.
pub proof fn law_operation_in_flight_is_cancelled<P, T, R>(
    op: &mut OverlappedOp<P, T>,
    cancel: Option<(P, T)>,
    cancelled: Result<(), Error>,
    leak: bool,
    later: OpEvent<T, R>,
)
    requires
        call_ensures(OverlappedOp::<P, T>::abandon, (op,), cancel),
        call_ensures(must_leak, (cancelled,), leak),
    ensures
        cancel is Some <==> old(op).state() is Pending,
        cancel matches Some((payload, task)) ==> {
            &&& old(op).state().payload() == Some(payload)
            &&& old(op).state().task() == Some(task)
        },
        leak <==> cancelled is Err,
        !final(op).state().expects(later),
{
}

/// What a future was made from is at hand while its operation is submitted or looked at, and what
/// belongs to the operation while it is looked at; reading either changes nothing.
pub proof fn law_operation_has_its_parts_at_hand<P, T>(
    op: &mut OverlappedOp<P, T>,
    payload: Option<&mut P>,
    task: Option<&T>,
)
    requires
        call_ensures(OverlappedOp::<P, T>::payload, (op,), payload),
        call_ensures(OverlappedOp::<P, T>::task, (&*old(op),), task),
    ensures
        payload is Some <==> old(op).state() is Submitting || old(op).state() is Polling,
        payload matches Some(held) ==> old(op).state().payload() == Some(*held),
        payload matches Some(held) ==> final(op).state().payload() == Some(*final(held)),
        task is Some <==> old(op).state() is Polling,
        task matches Some(held) ==> old(op).state().task() == Some(*held),
        final(op).state().task() == old(op).state().task(),
{
}

/// Where the address of its bytes tells truly whether a buffer stores them within itself, a buffer
/// that was made safe never does, and holds the bytes that it held; one that did not do so before
/// is the same buffer.
pub proof fn law_buffer_is_made_safe(
    bytes: &mut Bytes,
    writable: &mut BytesMut,
    data: usize,
    start: usize,
    end: usize,
    moved: bool,
    moved_writable: bool,
)
    requires
        bytes_inline(*old(bytes)) <==> start <= data && data < end,
        bytes_mut_inline(*old(writable)) <==> start <= data && data < end,
        call_ensures(ensure_bytes_safe, (bytes, data, start, end), moved),
        call_ensures(ensure_bytesmut_safe, (writable, data, start, end), moved_writable),
    ensures
        !bytes_inline(*final(bytes)),
        bytes_data(*final(bytes)) == bytes_data(*old(bytes)),
        moved <==> bytes_inline(*old(bytes)),
        !moved ==> *final(bytes) == *old(bytes),
        !bytes_mut_inline(*final(writable)),
        bytes_mut_data(*final(writable)) == bytes_mut_data(*old(writable)),
        moved_writable <==> bytes_mut_inline(*old(writable)),
        !moved_writable ==> *final(writable) == *old(writable),
{
}

} // verus!
