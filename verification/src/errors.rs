use vstd::prelude::*;

verus! {

/// The error kinds that the library surfaces to callers.
///
/// `QuotaExceeded` and `InvalidFilename` come from the connection's open
/// policy; `Disconnected`, `InvalidDescriptor` and `PollFailed` are mapped
/// from the readiness primitive's returned event flags; `TimedOut` reports
/// a transmit that missed its deadline; `Internal` reports a failure of the
/// channel between a caller and the worker.
#[derive(Clone, Copy, Debug, PartialEq, Eq, Structural)]
pub enum PortError {
    /// An open was attempted during the reconnect cool-off window.
    QuotaExceeded,
    /// An open was attempted before any device path was set.
    InvalidFilename,
    /// A transmit did not complete by its deadline.
    TimedOut,
    /// The device reported a hangup: it has been disconnected.
    Disconnected,
    /// The readiness primitive reported an invalid file descriptor.
    InvalidDescriptor,
    /// The readiness primitive reported a device error condition.
    PollFailed,
    /// The channel between a caller and the worker failed.
    Internal,
}

impl PortError {
    /// A short description of the error, for callers that report it.
    pub fn message(&self) -> (r: &'static str)
        ensures
            r@.len() > 0,
    {
        let r = match self {
            PortError::QuotaExceeded => "open refused: reconnect cool-off in progress",
            PortError::InvalidFilename => "open refused: no device path set",
            PortError::TimedOut => "transmit deadline exceeded",
            PortError::Disconnected => "device has been disconnected",
            PortError::InvalidDescriptor => "invalid file descriptor",
            PortError::PollFailed => "device error reported by poll",
            PortError::Internal => "internal channel failure",
        };
        proof {
            reveal_strlit("open refused: reconnect cool-off in progress");
            reveal_strlit("open refused: no device path set");
            reveal_strlit("transmit deadline exceeded");
            reveal_strlit("device has been disconnected");
            reveal_strlit("invalid file descriptor");
            reveal_strlit("device error reported by poll");
            reveal_strlit("internal channel failure");
        }
        r
    }
}

} // verus!
