//! The events that flow from the workers to the consumer.
use vstd::prelude::*;

verus! {

/// The I/O error type of std, carried as an opaque value inside an exit
/// outcome.
#[verifier::external_type_specification]
#[verifier::external_body]
pub struct ExIoError(std::io::Error);

/// One observation of the child process.
#[derive(Debug)]
pub enum Output {
    /// A line read from standard output.
    Out(String),
    /// A line read from standard error, or the description of a read failure.
    Stderr(String),
    /// The termination outcome: the exit code (absent when a signal ended the
    /// process) or the failure to learn it.
    Exit(Result<Option<i32>, std::io::Error>),
}

impl Output {
    /// Whether this is the terminal event of a stream.
    pub open spec fn is_exit_spec(&self) -> bool {
        self is Exit
    }

    /// Whether this is the terminal event of a stream.
    #[verifier::when_used_as_spec(is_exit_spec)]
    pub fn is_exit(&self) -> (r: bool)
        ensures
            r == self.is_exit_spec(),
    {
        match self {
            Output::Exit(_) => true,
            _ => false,
        }
    }
}

} // verus!
