//! Running a child process's output and exit status through one ordered
//! event channel, without blocking the owning thread.
//!
//! The library holds the decisions of the three background workers and of the
//! consumer handle; running the threads and touching the process is left to
//! the caller.
pub mod event;
pub mod shapes;
pub mod stream;
pub mod worker;

pub use event::Output;
pub use shapes::{ActedIn, Actor, Directed, Director, Movie};
pub use stream::OutputStream;
pub use worker::{Poll, StatusMonitor};
