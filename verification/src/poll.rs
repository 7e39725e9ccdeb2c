use vstd::prelude::*;

use crate::errors::PortError;

verus! {

/// Event flag for data ready to read without blocking.
pub const POLL_IN: u16 = 0x0001;

/// Event flag for high-priority data ready to read.
pub const POLL_PRI: u16 = 0x0002;

/// Event flag for normal data writable without blocking.
pub const POLL_OUT: u16 = 0x0004;

/// Event flag for a device error condition.
pub const POLL_ERR: u16 = 0x0008;

/// Event flag for a device hangup: the peer has disconnected.
pub const POLL_HUP: u16 = 0x0010;

/// Event flag for an invalid file descriptor.
pub const POLL_NVAL: u16 = 0x0020;

/// Event flag for normal data ready to read.
pub const POLL_RDNORM: u16 = 0x0040;

/// Event flag for priority-band data ready to read.
pub const POLL_RDBAND: u16 = 0x0080;

/// Event flag for normal data writable.
pub const POLL_WRNORM: u16 = 0x0100;

/// Event flag for priority-band data writable.
pub const POLL_WRBAND: u16 = 0x0200;

/// Which kind of readiness a poll of the device waits for.
#[derive(Debug, Clone, Copy, PartialEq, PartialOrd, Eq, Structural)]
pub enum PollKind {
    ForRead,
    ForWrite,
}

/// The outcome of one poll of the device, after its returned event flags
/// have been classified.
#[derive(Debug, Clone, Copy, PartialEq, PartialOrd, Eq, Structural)]
pub enum PollResult {
    TimedOut,
    ReadReady,
    WriteReady,
    Undocumented,
}

/// The event flags to request for a read-wait or a write-wait.
pub open spec fn spec_request_flags(kind: PollKind) -> u16 {
    match kind {
        PollKind::ForRead => POLL_IN | POLL_PRI | POLL_RDNORM | POLL_RDBAND,
        PollKind::ForWrite => POLL_PRI | POLL_OUT | POLL_WRNORM | POLL_WRBAND,
    }
}

/// Selects the event flags handed to the readiness primitive: every read
/// flag for a read-wait, every write flag for a write-wait.
pub fn poll_request_flags(kind: PollKind) -> (r: u16)
    ensures
        r == spec_request_flags(kind),
{
    match kind {
        PollKind::ForRead => POLL_IN | POLL_PRI | POLL_RDNORM | POLL_RDBAND,
        PollKind::ForWrite => POLL_PRI | POLL_OUT | POLL_WRNORM | POLL_WRBAND,
    }
}

/// How returned event flags are classified, in priority order: hangup,
/// then invalid descriptor, then error, then write-ready, then read-ready;
/// anything else is undocumented.
pub open spec fn spec_classify_revents(revents: u16) -> Result<PollResult, PortError> {
    if revents & POLL_HUP != 0 {
        Err(PortError::Disconnected)
    } else if revents & POLL_NVAL != 0 {
        Err(PortError::InvalidDescriptor)
    } else if revents & POLL_ERR != 0 {
        Err(PortError::PollFailed)
    } else if revents & (POLL_OUT | POLL_WRNORM | POLL_WRBAND) != 0 {
        Ok(PollResult::WriteReady)
    } else if revents & (POLL_IN | POLL_RDNORM | POLL_RDBAND | POLL_PRI) != 0 {
        Ok(PollResult::ReadReady)
    } else {
        Ok(PollResult::Undocumented)
    }
}

/// Classifies the event flags that the readiness primitive returned for
/// the device.
pub fn classify_revents(revents: u16) -> (r: Result<PollResult, PortError>)
    ensures
        r == spec_classify_revents(revents),
{
    if revents & POLL_HUP != 0 {
        Err(PortError::Disconnected)
    } else if revents & POLL_NVAL != 0 {
        Err(PortError::InvalidDescriptor)
    } else if revents & POLL_ERR != 0 {
        Err(PortError::PollFailed)
    } else if revents & (POLL_OUT | POLL_WRNORM | POLL_WRBAND) != 0 {
        Ok(PollResult::WriteReady)
    } else if revents & (POLL_IN | POLL_RDNORM | POLL_RDBAND | POLL_PRI) != 0 {
        Ok(PollResult::ReadReady)
    } else {
        Ok(PollResult::Undocumented)
    }
}

/// The timeout handed to the readiness primitive, in whole milliseconds:
/// the time left until the deadline, truncated, saturating at zero, and
/// falling back to zero when it does not fit the primitive's signed
/// 32-bit timeout. An absent deadline polls without blocking.
pub open spec fn spec_poll_timeout_millis(deadline: Option<u64>, now: u64) -> int {
    match deadline {
        None => 0,
        Some(d) => {
            let left = if d > now {
                d - now
            } else {
                0
            };
            let ms = left / 1_000_000;
            if ms > i32::MAX as int {
                0
            } else {
                ms
            }
        },
    }
}

/// Derives the poll timeout in milliseconds from an optional absolute
/// deadline and the current time, both in nanoseconds.
pub fn poll_timeout_millis(deadline: Option<u64>, now: u64) -> (r: i32)
    ensures
        r as int == spec_poll_timeout_millis(deadline, now),
{
    match deadline {
        None => 0,
        Some(d) => {
            let left: u64 = if d > now {
                d - now
            } else {
                0
            };
            let ms: u64 = left / 1_000_000;
            if ms > 0x7fff_ffff {
                0
            } else {
                ms as i32
            }
        },
    }
}

} // verus!
