# complete_io

Completion-style asynchronous I/O. An operation on a socket takes its buffer, and resolves with the
buffer and what became of it.

`src/` is the verified library. It holds the decisions, and makes no system call: each operation is a
state machine whose step takes what the last call brought back, and says what is to be done next.

- `epoll`: an event queue on Linux, with its registrations, the interests of tasks, custom events,
  turns and interrupts; `epoll::net` has the socket futures.
- `iocp`: an event queue on Windows; `iocp::net` has the socket futures.
- `tokio`: socket futures on a loop that keeps track of the readiness of sockets.
- `evloop`: the life of a spawned task, and a pool of worker threads.
- `queue`, `net`, `io`, `buffer`: what these share.

Proof functions whose names begin with `law_` state what holds across functions.

`app/` performs the I/O: it has the traits, the sockets and the threads, and drives the machines.
`tests/` runs the library.
