//! The consumer handle over the receiving end of the event channel.
use crate::event::Output;
use crossbeam_channel::Receiver;
use vstd::prelude::*;

verus! {

/// The receiving end of a crossbeam channel, carried as an opaque value.
#[verifier::external_type_specification]
#[verifier::external_body]
#[verifier::reject_recursive_types(T)]
pub struct ExReceiver<T>(Receiver<T>);

/// Relies on crossbeam_channel::Receiver::recv, which blocks until a message
/// arrives or the channel is empty and disconnected; the latter comes back as
/// `None`. What arrives depends on other threads, so nothing is promised of it.
#[verifier::external_body]
fn recv_blocking(rx: &Receiver<Option<Output>>) -> (r: Option<Option<Output>>) {
    rx.recv().ok()
}

/// Relies on crossbeam_channel::Receiver::try_recv, which takes a message
/// that is already buffered and otherwise returns at once; an empty or a
/// disconnected channel comes back as `None`.
#[verifier::external_body]
fn recv_buffered(rx: &Receiver<Option<Output>>) -> (r: Option<Option<Output>>) {
    rx.try_recv().ok()
}

/// The message in what the channel delivered, if any. A channel that is empty
/// and disconnected, or a message without an event, ends the pull with nothing.
pub open spec fn delivered(received: Option<Option<Output>>) -> Option<Output> {
    match received {
        Some(Some(o)) => Some(o),
        _ => None,
    }
}

/// One blocking pull, as a pair of the new exhausted flag and the event handed
/// out. An exhausted stream hands out nothing and stays exhausted; otherwise
/// the delivered event is handed out, and the stream is exhausted exactly when
/// that event is the exit.
pub open spec fn blocking_pull(exhausted: bool, received: Option<Option<Output>>) -> (bool, Option<Output>) {
    if exhausted {
        (true, None)
    } else {
        match delivered(received) {
            Some(o) => (o is Exit, Some(o)),
            None => (false, None),
        }
    }
}

/// The events handed out by successive blocking pulls, starting from the given
/// exhausted flag, where `received[i]` is what the channel would deliver to
/// the i-th pull if it asked.
pub open spec fn blocking_pulls(exhausted: bool, received: Seq<Option<Option<Output>>>) -> Seq<Option<Output>>
    decreases received.len(),
{
    if received.len() == 0 {
        Seq::empty()
    } else {
        let (e, o) = blocking_pull(exhausted, received[0]);
        seq![o] + blocking_pulls(e, received.drop_first())
    }
}

/// An exhausted stream hands out nothing, however many blocking pulls follow.
pub proof fn lemma_exhausted_yields_nothing(received: Seq<Option<Option<Output>>>)
    ensures
        blocking_pulls(true, received).len() == received.len(),
        forall|j: int| 0 <= j < received.len() ==> (#[trigger] blocking_pulls(true, received)[j]) is None,
    decreases received.len(),
{
    if received.len() > 0 {
        lemma_exhausted_yields_nothing(received.drop_first());
        assert forall|j: int| 0 <= j < received.len() implies (#[trigger] blocking_pulls(true, received)[j]) is None by {
            if j > 0 {
                assert(blocking_pulls(true, received)[j] == blocking_pulls(true, received.drop_first())[j - 1]);
            }
        }
    }
}

/// Exhaustion is stable: once a blocking pull has handed out the exit event,
/// every later blocking pull hands out nothing, whatever the channel holds.
pub proof fn lemma_exit_is_terminal(exhausted: bool, received: Seq<Option<Option<Output>>>)
    ensures
        blocking_pulls(exhausted, received).len() == received.len(),
        forall|i: int, j: int|
            0 <= i < j < received.len() && (#[trigger] blocking_pulls(exhausted, received)[i] matches Some(o) && o is Exit)
                ==> (#[trigger] blocking_pulls(exhausted, received)[j]) is None,
    decreases received.len(),
{
    if received.len() > 0 {
        let (e, o) = blocking_pull(exhausted, received[0]);
        let rest = received.drop_first();
        lemma_exit_is_terminal(e, rest);
        lemma_exhausted_yields_nothing(rest);
        let pulls = blocking_pulls(exhausted, received);
        assert forall|i: int, j: int|
            0 <= i < j < received.len() && (#[trigger] pulls[i] matches Some(o) && o is Exit)
                implies (#[trigger] pulls[j]) is None by {
            assert(pulls[j] == blocking_pulls(e, rest)[j - 1]);
            if i > 0 {
                assert(pulls[i] == blocking_pulls(e, rest)[i - 1]);
            }
        }
    }
}

/// Completes a blocking pull on a stream that is not yet exhausted, given what
/// the channel delivered: the new exhausted flag and the event handed out.
pub fn settle_pull(received: Option<Option<Output>>) -> (r: (bool, Option<Output>))
    ensures
        r == blocking_pull(false, received),
{
    match received {
        Some(Some(o)) => {
            let exit = o.is_exit();
            (exit, Some(o))
        },
        _ => (false, None),
    }
}

/// Pulls events from the channel, in blocking or in non-blocking mode, and
/// remembers when the terminal event has been seen.
///
/// The handle borrows the receiver mutably, so only one consumer can pull
/// through it at a time.
pub struct OutputStream<'a> {
    rx: &'a mut Receiver<Option<Output>>,
    exit: bool,
}

impl<'a> OutputStream<'a> {
    /// Whether the exit event has been handed out by a blocking pull.
    pub closed spec fn exhausted(&self) -> bool {
        self.exit
    }

    /// A fresh handle over the receiving end of the event channel.
    pub fn new(rx: &'a mut Receiver<Option<Output>>) -> (r: OutputStream<'a>)
        ensures
            !r.exhausted(),
    {
        OutputStream { rx, exit: false }
    }

    /// Whether the exit event has been handed out by a blocking pull.
    pub fn is_exhausted(&self) -> (r: bool)
        ensures
            r == self.exhausted(),
    {
        self.exit
    }

    /// Blocking pull: the next event, waiting for one to arrive. Once the exit
    /// event has been handed out, the channel is no longer asked and nothing
    /// more comes. A channel that is empty and disconnected ends the pull with
    /// nothing.
    pub fn next(&mut self) -> (r: Option<Output>)
        ensures
            old(self).exhausted() ==> r is None && final(self).exhausted(),
            !old(self).exhausted() ==> final(self).exhausted() == (r matches Some(o) && o is Exit),
    {
        if self.exit {
            None
        } else {
            let received = recv_blocking(self.rx);
            let (exit, r) = settle_pull(received);
            self.exit = exit;
            r
        }
    }

    /// Non-blocking pull: the next event if one is already buffered, and
    /// otherwise nothing, at once. It leaves the exhausted flag as it is.
    pub fn try_next(&mut self) -> (r: Option<Output>)
        ensures
            final(self).exhausted() == old(self).exhausted(),
    {
        let received = recv_buffered(self.rx);
        match received {
            Some(Some(o)) => Some(o),
            _ => None,
        }
    }
}

} // verus!
