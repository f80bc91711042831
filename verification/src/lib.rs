//! Decision logic of a coroutine runtime: the scheduler's ready queues,
//! the reactor with its registration records and timer wheel, the
//! protocol by which an operation parks its coroutine without losing a
//! wakeup, cancellation, and the socket operations, channels and locks
//! built on them. Every component is a state machine whose steps are
//! atomic; the caller performs the system calls and the context switches
//! and reports what happened.

pub mod addr;
pub mod cancel;
pub mod channel;
pub mod completion;
pub mod connect;
pub mod coroutine;
pub mod error;
pub mod event_source;
pub mod io_data;
pub mod park;
pub mod poison;
pub mod reactor;
pub mod scheduler;
pub mod select;
pub mod tcp;
pub mod timer;
pub mod udp;
