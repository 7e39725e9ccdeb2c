use vstd::prelude::*;

use crate::errors::PortError;

verus! {

/// The default reconnect cool-off, in nanoseconds: one second.
pub const DEFAULT_COOLOFF_NANOS: u64 = 1_000_000_000;

/// What a granted open request asks of the caller.
#[derive(Debug, Clone, Copy, PartialEq, Eq, Structural)]
pub enum OpenAction {
    /// A device handle is already held; no OS call is needed.
    AlreadyOpen,
    /// The policy admits an attempt: open the device at the stored path,
    /// then report back with `complete_open` on success.
    Attempt,
}

/// The lifecycle state of the attachment to one TTY path.
///
/// Timestamps and durations are in nanoseconds on a single monotonic
/// clock. `opened` stands for the device handle being held; the handle
/// itself lives with the unverified I/O layer that drives this state
/// machine.
pub struct Connection {
    /// The device path; unset until the first open call.
    pub path: Option<String>,
    /// Whether a device handle is currently held.
    pub opened: bool,
    /// When the most recent throttled open attempt was made.
    pub last_conn_attempt: Option<u64>,
    /// The cool-off: a failed open cannot be retried until this much time
    /// has passed since `last_conn_attempt`. Unset disables throttling.
    pub cool_time: Option<u64>,
}

impl Connection {
    /// A successful open clears the attempt timestamp, so an open
    /// connection never also carries a fresh attempt record.
    pub open spec fn wf(self) -> bool {
        self.opened ==> self.last_conn_attempt is None
    }

    /// Whether an open at time `now` falls inside the cool-off window
    /// that the most recent attempt started.
    pub open spec fn in_cooloff(self, now: u64) -> bool {
        &&& self.cool_time is Some
        &&& self.last_conn_attempt is Some
        &&& (now as int) < self.last_conn_attempt->0 + self.cool_time->0
    }

    /// What `open` returns at time `now`.
    pub open spec fn spec_open_result(self, now: u64) -> Result<OpenAction, PortError> {
        if self.opened {
            Ok(OpenAction::AlreadyOpen)
        } else if self.in_cooloff(now) {
            Err(PortError::QuotaExceeded)
        } else if self.path is Some {
            Ok(OpenAction::Attempt)
        } else {
            Err(PortError::InvalidFilename)
        }
    }

    /// The state `open` leaves behind at time `now`: when throttling is
    /// enabled and the policy lets the request past the cool-off check,
    /// the attempt is recorded before the OS is invoked, so a failing
    /// attempt starts the cool-off clock by itself.
    pub open spec fn spec_open_next(self, now: u64) -> Connection {
        if self.opened || self.in_cooloff(now) {
            self
        } else if self.cool_time is Some {
            Connection { last_conn_attempt: Some(now), ..self }
        } else {
            self
        }
    }

    /// Creates a closed connection with no path and the default cool-off.
    pub fn new() -> (r: Connection)
        ensures
            r.path is None,
            !r.opened,
            r.last_conn_attempt is None,
            r.cool_time == Some(DEFAULT_COOLOFF_NANOS),
            r.wf(),
    {
        Connection {
            path: None,
            opened: false,
            last_conn_attempt: None,
            cool_time: Some(DEFAULT_COOLOFF_NANOS),
        }
    }

    /// Decides an open request at time `now`.
    ///
    /// An already-open connection is granted at once. Otherwise the
    /// cool-off policy may refuse with `QuotaExceeded`; past it, the
    /// attempt is recorded (when throttling is on) and the request either
    /// fails with `InvalidFilename` (no path set) or asks the caller to
    /// attempt the OS open.
    pub fn open(&mut self, now: u64) -> (r: Result<OpenAction, PortError>)
        requires
            old(self).wf(),
        ensures
            r == old(self).spec_open_result(now),
            *final(self) == old(self).spec_open_next(now),
            final(self).wf(),
    {
        if self.opened {
            return Ok(OpenAction::AlreadyOpen);
        }
        if let Some(cool_time) = self.cool_time {
            if let Some(last_conn) = self.last_conn_attempt {
                let in_window = match now.checked_sub(last_conn) {
                    None => true,
                    Some(elapsed) => elapsed < cool_time,
                };
                if in_window {
                    return Err(PortError::QuotaExceeded);
                }
            }
            self.last_conn_attempt = Some(now);
        }
        if self.path.is_some() {
            Ok(OpenAction::Attempt)
        } else {
            Err(PortError::InvalidFilename)
        }
    }

    /// Records that the OS open that an `Attempt` asked for succeeded:
    /// the handle is now held and the attempt timestamp is cleared.
    pub fn complete_open(&mut self)
        ensures
            final(self).opened,
            final(self).last_conn_attempt is None,
            final(self).path == old(self).path,
            final(self).cool_time == old(self).cool_time,
            final(self).wf(),
    {
        self.opened = true;
        self.last_conn_attempt = None;
    }

    /// Closes the connection: the handle and the attempt timestamp are
    /// both dropped, so the next open proceeds without a cool-off delay.
    /// Closing an already-closed connection changes nothing more.
    pub fn close(&mut self)
        ensures
            !final(self).opened,
            final(self).last_conn_attempt is None,
            final(self).path == old(self).path,
            final(self).cool_time == old(self).cool_time,
            final(self).wf(),
    {
        self.last_conn_attempt = None;
        self.opened = false;
    }

    /// Assigns the device path and drops any held handle, forcing the
    /// next I/O request to reopen.
    pub fn set_path(&mut self, path: String)
        ensures
            final(self).path == Some(path),
            !final(self).opened,
            final(self).last_conn_attempt == old(self).last_conn_attempt,
            final(self).cool_time == old(self).cool_time,
    {
        self.path = Some(path);
        self.opened = false;
    }

    /// Returns whether a device handle is held.
    pub fn is_open(&self) -> (r: bool)
        ensures
            r == self.opened,
    {
        self.opened
    }

    /// Replaces the cool-off policy; `None` disables throttling.
    pub fn set_cooloff_duration(&mut self, cooloff: Option<u64>)
        ensures
            final(self).cool_time == cooloff,
            final(self).path == old(self).path,
            final(self).opened == old(self).opened,
            final(self).last_conn_attempt == old(self).last_conn_attempt,
    {
        self.cool_time = cooloff;
    }
}

/// Law: when `cool_time = C` is set and an open attempt was recorded at
/// `t0`, every open at a time `t` in `[t0, t0 + C)` is refused with
/// `QuotaExceeded` and leaves the state untouched — in particular it
/// never asks for an OS open.
pub proof fn lemma_cooloff_window(c: Connection, t0: u64, cool: u64, t: u64)
    requires
        !c.opened,
        c.cool_time == Some(cool),
        c.last_conn_attempt == Some(t0),
        t0 <= t,
        (t as int) < t0 + cool,
    ensures
        c.spec_open_result(t) == Err::<OpenAction, PortError>(PortError::QuotaExceeded),
        c.spec_open_next(t) == c,
{
}

/// Law: once the cool-off window that the attempt at `t0` started has
/// elapsed, the policy no longer throttles.
pub proof fn lemma_cooloff_expired(c: Connection, t0: u64, cool: u64, t: u64)
    requires
        c.cool_time == Some(cool),
        c.last_conn_attempt == Some(t0),
        t0 + cool <= t,
    ensures
        !c.in_cooloff(t),
{
}

/// Law: an error observed during transmit or receive closes the
/// connection, and from a closed connection no open request reports the
/// device open again by itself — only a successful OS open, recorded by
/// `complete_open`, does.
pub proof fn lemma_error_leaves_closed(c: Connection, now: u64)
    requires
        !c.opened,
    ensures
        !c.spec_open_next(now).opened,
        c.spec_open_result(now) != Ok::<OpenAction, PortError>(OpenAction::AlreadyOpen),
{
}

} // verus!
