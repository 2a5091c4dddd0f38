//! Start and stop signals: mailboxes in which only "a signal is waiting"
//! counts, never how many.

use vstd::prelude::*;
use crossbeam_channel::Receiver;
use crossbeam_channel::TryRecvError;

verus! {

#[verifier::external_type_specification]
#[verifier::external_body]
#[verifier::reject_recursive_types(T)]
pub struct ExReceiver<T>(Receiver<T>);

/// The receiving end of the stop-signal mailbox.
pub type StopChannel = Receiver<()>;

/// The receiving end of the start-signal mailbox.
pub type StartChannel = Receiver<()>;

/// What a look into a mailbox found.
#[derive(Clone, Copy, Debug, PartialEq, Eq, Structural)]
pub enum Polled {
    /// A signal was waiting and has been taken.
    Signal,
    /// No signal was waiting.
    Empty,
    /// No signal was waiting and every sender is gone: none will ever
    /// come.
    Disconnected,
}

/// Calls `crossbeam_channel::Receiver::len`: the number of signals queued
/// at the moment of the call. Senders on other threads may change it at
/// once, so nothing is claimed of the number.
#[verifier::external_body]
pub(crate) fn queued(mailbox: &Receiver<()>) -> (n: usize) {
    mailbox.len()
}

/// Calls `crossbeam_channel::Receiver::try_recv`, which never blocks, and
/// tells its three results apart. Which of them comes back is for the
/// senders on other threads to decide, so nothing is claimed of it.
#[verifier::external_body]
pub(crate) fn poll(mailbox: &Receiver<()>) -> (found: Polled) {
    match mailbox.try_recv() {
        Ok(()) => Polled::Signal,
        Err(TryRecvError::Empty) => Polled::Empty,
        Err(TryRecvError::Disconnected) => Polled::Disconnected,
    }
}

/// Removes the signals that were queued on entry and tells how many were
/// taken. It never waits, and never takes more than were queued when it
/// began.
pub(crate) fn drain(mailbox: &Receiver<()>) -> (taken: usize) {
    let waiting = queued(mailbox);
    take_up_to(mailbox, waiting)
}

/// Takes signals out of the mailbox, one look after the other, until a look
/// finds none or `limit` signals were taken, and tells how many were taken.
/// What each look finds is for the senders to decide; the limit holds
/// whatever they do.
pub(crate) fn take_up_to(mailbox: &Receiver<()>, limit: usize) -> (taken: usize)
    ensures
        taken <= limit,
{
    let mut taken: usize = 0;
    while taken < limit
        invariant
            taken <= limit,
        decreases limit - taken,
    {
        match poll(mailbox) {
            Polled::Signal => {
                taken += 1;
            },
            _ => {
                break;
            },
        }
    }
    taken
}

} // verus!
