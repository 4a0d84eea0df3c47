//! Completion-style asynchronous I/O: the decisions that an event queue, its socket futures and
//! a pool of worker threads take, as state machines that perform no I/O themselves.
//!
//! Every operation is split at the system call. A step of a machine takes what the last call
//! brought back, and says in its result what is to be done next.

pub mod buffer;
pub mod epoll;
pub mod evloop;
pub mod io;
pub mod iocp;
pub mod net;
pub mod queue;
pub mod tokio;
