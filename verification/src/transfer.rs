use vstd::prelude::*;

use crate::errors::PortError;
use crate::poll::PollResult;

verus! {

/// What one iteration of the send loop does with the poll outcome.
#[derive(Debug, Clone, Copy, PartialEq, Eq, Structural)]
pub enum SendAction {
    /// The device can take data: attempt one write of the pending bytes.
    WriteOutgoing,
    /// The device has incoming data while we want to write: drain it into
    /// the staging buffer so the peer is not stalled.
    DrainIncoming,
    /// Timed out or undocumented: make no progress this iteration.
    NoProgress,
}

/// What one iteration of the receive loop does with the poll outcome.
#[derive(Debug, Clone, Copy, PartialEq, Eq, Structural)]
pub enum RecvAction {
    /// The deadline elapsed: stop successfully with whatever was staged.
    Finish,
    /// The device has data: drain it into the staging buffer.
    DrainIncoming,
    /// Write-ready or undocumented: make no progress this iteration.
    NoProgress,
}

/// The send loop's reaction to a poll outcome: write when writable, drain
/// when the peer pushed data at us, otherwise no progress.
pub open spec fn spec_send_action(poll: PollResult) -> SendAction {
    match poll {
        PollResult::WriteReady => SendAction::WriteOutgoing,
        PollResult::ReadReady => SendAction::DrainIncoming,
        PollResult::TimedOut => SendAction::NoProgress,
        PollResult::Undocumented => SendAction::NoProgress,
    }
}

/// Decides what the send loop does with one poll outcome.
pub fn send_action(poll: PollResult) -> (r: SendAction)
    ensures
        r == spec_send_action(poll),
{
    match poll {
        PollResult::WriteReady => SendAction::WriteOutgoing,
        PollResult::ReadReady => SendAction::DrainIncoming,
        PollResult::TimedOut => SendAction::NoProgress,
        PollResult::Undocumented => SendAction::NoProgress,
    }
}

/// Whether the send loop is finished after an iteration: success once no
/// byte is pending, a timed-out error once the deadline has passed with
/// bytes still pending, otherwise keep looping.
pub open spec fn spec_send_status(remaining: nat, now: u64, deadline: u64) -> Option<
    Result<(), PortError>,
> {
    if remaining == 0 {
        Some(Ok(()))
    } else if deadline <= now {
        Some(Err(PortError::TimedOut))
    } else {
        None
    }
}

/// Decides whether the send loop stops after an iteration, and how.
/// A deadline already in the past still allows the one attempt the loop
/// iteration just made; only bytes left over after it turn into an error.
pub fn send_status(remaining: usize, now: u64, deadline: u64) -> (r: Option<
    Result<(), PortError>,
>)
    ensures
        r == spec_send_status(remaining as nat, now, deadline),
{
    if remaining == 0 {
        Some(Ok(()))
    } else if deadline <= now {
        Some(Err(PortError::TimedOut))
    } else {
        None
    }
}

/// The receive loop's reaction to a poll outcome: a timeout ends the loop
/// successfully — absence of data is a normal outcome, never an error —
/// data is drained, anything else is no progress.
pub open spec fn spec_recv_action(poll: PollResult) -> RecvAction {
    match poll {
        PollResult::TimedOut => RecvAction::Finish,
        PollResult::ReadReady => RecvAction::DrainIncoming,
        PollResult::WriteReady => RecvAction::NoProgress,
        PollResult::Undocumented => RecvAction::NoProgress,
    }
}

/// Decides what the receive loop does with one poll outcome.
pub fn recv_action(poll: PollResult) -> (r: RecvAction)
    ensures
        r == spec_recv_action(poll),
{
    match poll {
        PollResult::TimedOut => RecvAction::Finish,
        PollResult::ReadReady => RecvAction::DrainIncoming,
        PollResult::WriteReady => RecvAction::NoProgress,
        PollResult::Undocumented => RecvAction::NoProgress,
    }
}

/// Removes the prefix that a partial write managed to put on the wire,
/// keeping the unsent remainder in order.
pub fn drain_written(tx: &mut Vec<u8>, written: usize)
    requires
        written <= old(tx)@.len(),
    ensures
        final(tx)@ == old(tx)@.skip(written as int),
{
    let mut rest = tx.split_off(written);
    core::mem::swap(tx, &mut rest);
    proof {
        assert(old(tx)@.skip(written as int) =~= old(tx)@.subrange(
            written as int,
            old(tx)@.len() as int,
        ));
    }
}

/// Law: a transmit whose deadline has already passed performs one
/// non-blocking attempt and then fails with `TimedOut` exactly when any
/// byte remains pending; it succeeds exactly when the attempt sent
/// everything.
pub proof fn lemma_past_deadline_transmit(remaining: nat, now: u64, deadline: u64)
    requires
        deadline <= now,
    ensures
        spec_send_status(remaining, now, deadline) == (if remaining == 0 {
            Some(Ok::<(), PortError>(()))
        } else {
            Some(Err::<(), PortError>(PortError::TimedOut))
        }),
{
}

/// Law: a receive whose deadline has already passed stops at the first
/// timed-out poll without an error: the caller is handed whatever is
/// staged, an empty staging buffer meaning "no payload".
pub proof fn lemma_past_deadline_receive()
    ensures
        spec_recv_action(PollResult::TimedOut) == RecvAction::Finish,
{
}

} // verus!
