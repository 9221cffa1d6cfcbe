//! The decisions of the three background workers: two readers, one per
//! output stream, and the status monitor that watches the process.
//!
//! The caller runs each worker's loop on a thread of its own, performs the
//! reads, polls and sends, and hands what it observed to these functions.
use crate::event::Output;
use vstd::prelude::*;

verus! {

/// Whether a message taken from the shutdown channel asks the worker to stop.
/// `None` stands for no message (the channel was empty or closed).
pub fn stop_requested(signal: Option<bool>) -> (r: bool)
    ensures
        r == (signal == Some(true)),
{
    match signal {
        Some(stop) => stop,
        None => false,
    }
}

/// The event for a line read from one output stream: an output line on
/// standard output, an error line on standard error.
pub open spec fn line_event(is_stdout: bool, line: String) -> Output {
    if is_stdout {
        Output::Out(line)
    } else {
        Output::Stderr(line)
    }
}

/// The event a reader emits for one attempt to read a line: `Some(Ok(line))` a
/// line, `Some(Err(description))` a failed read, `None` the end of the stream.
/// A failed read is reported as an error line; the end of the stream emits
/// nothing.
pub open spec fn read_event(is_stdout: bool, read: Option<Result<String, String>>) -> Option<Output> {
    match read {
        Some(Ok(line)) => Some(line_event(is_stdout, line)),
        Some(Err(description)) => Some(Output::Stderr(description)),
        None => None,
    }
}

/// The events a reader emits, in order, for successive read attempts.
pub open spec fn reader_events(is_stdout: bool, reads: Seq<Option<Result<String, String>>>) -> Seq<Output>
    decreases reads.len(),
{
    if reads.len() == 0 {
        Seq::empty()
    } else {
        let rest = reader_events(is_stdout, reads.drop_last());
        match read_event(is_stdout, reads.last()) {
            Some(o) => rest.push(o),
            None => rest,
        }
    }
}

/// A reader delivers the lines of its stream in the order they were read, each
/// exactly once, tagged by the stream they came from.
pub proof fn lemma_reader_keeps_lines(is_stdout: bool, lines: Seq<String>)
    ensures
        reader_events(is_stdout, lines.map_values(|l: String| Some(Ok::<String, String>(l))))
            == lines.map_values(|l: String| line_event(is_stdout, l)),
    decreases lines.len(),
{
    let reads = lines.map_values(|l: String| Some(Ok::<String, String>(l)));
    if lines.len() > 0 {
        lemma_reader_keeps_lines(is_stdout, lines.drop_last());
        assert(reads.drop_last() == lines.drop_last().map_values(|l: String| Some(Ok::<String, String>(l))));
        assert(lines.map_values(|l: String| line_event(is_stdout, l)) == lines.drop_last().map_values(
            |l: String| line_event(is_stdout, l),
        ).push(line_event(is_stdout, lines.last())));
    }
}

/// A reader never emits an exit event, whatever its reads give.
pub proof fn lemma_reader_never_exits(is_stdout: bool, reads: Seq<Option<Result<String, String>>>)
    ensures
        forall|i: int| 0 <= i < reader_events(is_stdout, reads).len() ==> !(#[trigger] reader_events(is_stdout, reads)[i] is Exit),
    decreases reads.len(),
{
    if reads.len() > 0 {
        lemma_reader_never_exits(is_stdout, reads.drop_last());
    }
}

/// The status monitor emits exactly one event, the exit, when some poll finds
/// the process ended or fails, and nothing otherwise.
pub proof fn lemma_single_exit(polls: Seq<Poll>)
    ensures
        monitor_events(false, polls).len() <= 1,
        forall|i: int| 0 <= i < monitor_events(false, polls).len() ==> #[trigger] monitor_events(false, polls)[i] is Exit,
        monitor_events(false, polls).len() == 1 <==> exists|k: int| 0 <= k < polls.len() && (#[trigger] poll_event(polls[k])) is Some,
    decreases polls.len(),
{
    if polls.len() > 0 {
        let rest = polls.drop_first();
        lemma_single_exit(rest);
        if poll_event(polls[0]) is None {
            assert((exists|k: int| 0 <= k < polls.len() && (#[trigger] poll_event(polls[k])) is Some)
                == (exists|k: int| 0 <= k < rest.len() && (#[trigger] poll_event(rest[k])) is Some)) by {
                if exists|k: int| 0 <= k < polls.len() && (#[trigger] poll_event(polls[k])) is Some {
                    let k = choose|k: int| 0 <= k < polls.len() && (#[trigger] poll_event(polls[k])) is Some;
                    assert(poll_event(rest[k - 1]) is Some);
                }
                if exists|k: int| 0 <= k < rest.len() && (#[trigger] poll_event(rest[k])) is Some {
                    let k = choose|k: int| 0 <= k < rest.len() && (#[trigger] poll_event(rest[k])) is Some;
                    assert(poll_event(polls[k + 1]) is Some);
                }
            }
        } else {
            assert(poll_event(polls[0]) is Some);
        }
    }
}

/// What a reader worker emits for one read attempt; a reader never emits an
/// exit event.
pub fn reader_event(is_stdout: bool, read: Option<Result<String, String>>) -> (r: Option<Output>)
    ensures
        r == read_event(is_stdout, read),
        !(r matches Some(o) && o is Exit),
{
    match read {
        Some(Ok(line)) => {
            if is_stdout {
                Some(Output::Out(line))
            } else {
                Some(Output::Stderr(line))
            }
        },
        Some(Err(description)) => Some(Output::Stderr(description)),
        None => None,
    }
}

/// What the status monitor learned from one attempt to poll the process.
pub enum Poll {
    /// The process lock was held elsewhere; the process was not looked at.
    Contended,
    /// The process is still running.
    Running,
    /// The process has ended, with this exit code (absent when a signal ended
    /// it).
    Exited(Option<i32>),
    /// The operating system failed to report the process's status.
    Failed(std::io::Error),
}

/// The exit event for a poll that ends the monitor, if this poll does.
pub open spec fn poll_event(poll: Poll) -> Option<Output> {
    match poll {
        Poll::Exited(code) => Some(Output::Exit(Ok(code))),
        Poll::Failed(e) => Some(Output::Exit(Err(e))),
        _ => None,
    }
}

/// The events a status monitor emits for successive polls, starting from the
/// given finished flag: the first poll that ends the process gives the exit
/// event, and nothing is emitted after it.
pub open spec fn monitor_events(finished: bool, polls: Seq<Poll>) -> Seq<Output>
    decreases polls.len(),
{
    if polls.len() == 0 || finished {
        Seq::empty()
    } else {
        match poll_event(polls[0]) {
            Some(o) => seq![o],
            None => monitor_events(false, polls.drop_first()),
        }
    }
}

/// The status monitor's state: whether it has already reported the exit.
pub struct StatusMonitor {
    finished: bool,
}

impl StatusMonitor {
    /// Whether the exit has been reported.
    pub closed spec fn finished(&self) -> bool {
        self.finished
    }

    /// A monitor that has reported nothing yet.
    pub fn new() -> (r: StatusMonitor)
        ensures
            !r.finished(),
    {
        StatusMonitor { finished: false }
    }

    /// Whether the exit has been reported; the monitor's loop ends then.
    pub fn is_finished(&self) -> (r: bool)
        ensures
            r == self.finished(),
    {
        self.finished
    }

    /// Takes the outcome of one poll and returns the event to emit, if any.
    /// A poll that finds the process ended, or fails, gives the single exit
    /// event and finishes the monitor; a finished monitor emits nothing more.
    pub fn observe(&mut self, poll: Poll) -> (r: Option<Output>)
        ensures
            old(self).finished() ==> r is None && final(self).finished(),
            !old(self).finished() ==> r == poll_event(poll) && final(self).finished() == (r is Some),
    {
        if self.finished {
            return None;
        }
        match poll {
            Poll::Exited(code) => {
                self.finished = true;
                Some(Output::Exit(Ok(code)))
            },
            Poll::Failed(e) => {
                self.finished = true;
                Some(Output::Exit(Err(e)))
            },
            _ => None,
        }
    }
}

} // verus!
