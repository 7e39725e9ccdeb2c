use serial_arbiter::{
    classify_revents, drain_written, poll_request_flags, poll_timeout_millis, recv_action,
    send_action, send_status, PollKind, PollResult, PortError, RecvAction, SendAction,
};

const MS: u64 = 1_000_000;

#[test]
fn request_flags_cover_all_readiness_kinds() {
    // POLLIN | POLLPRI | POLLRDNORM | POLLRDBAND
    assert_eq!(poll_request_flags(PollKind::ForRead), 0x00c3);
    // POLLPRI | POLLOUT | POLLWRNORM | POLLWRBAND
    assert_eq!(poll_request_flags(PollKind::ForWrite), 0x0306);
}

#[test]
fn hangup_maps_to_disconnected() {
    // POLLHUP wins even when data is also readable.
    assert_eq!(classify_revents(0x0010), Err(PortError::Disconnected));
    assert_eq!(classify_revents(0x0011), Err(PortError::Disconnected));
}

#[test]
fn invalid_descriptor_and_error_flags() {
    assert_eq!(classify_revents(0x0020), Err(PortError::InvalidDescriptor));
    assert_eq!(classify_revents(0x0008), Err(PortError::PollFailed));
    // Hangup outranks both.
    assert_eq!(classify_revents(0x0038), Err(PortError::Disconnected));
}

#[test]
fn write_ready_outranks_read_ready() {
    assert_eq!(classify_revents(0x0004), Ok(PollResult::WriteReady));
    assert_eq!(classify_revents(0x0100), Ok(PollResult::WriteReady));
    assert_eq!(classify_revents(0x0200), Ok(PollResult::WriteReady));
    assert_eq!(classify_revents(0x0005), Ok(PollResult::WriteReady));
}

#[test]
fn read_ready_flags() {
    assert_eq!(classify_revents(0x0001), Ok(PollResult::ReadReady));
    assert_eq!(classify_revents(0x0040), Ok(PollResult::ReadReady));
    assert_eq!(classify_revents(0x0080), Ok(PollResult::ReadReady));
    assert_eq!(classify_revents(0x0002), Ok(PollResult::ReadReady));
}

#[test]
fn unknown_flags_are_undocumented() {
    assert_eq!(classify_revents(0x0000), Ok(PollResult::Undocumented));
    assert_eq!(classify_revents(0x0400), Ok(PollResult::Undocumented));
}

#[test]
fn timeout_from_deadline() {
    // No deadline: a non-blocking probe.
    assert_eq!(poll_timeout_millis(None, 5 * MS), 0);
    // Past deadline saturates at zero.
    assert_eq!(poll_timeout_millis(Some(4 * MS), 5 * MS), 0);
    // Whole milliseconds, truncated.
    assert_eq!(poll_timeout_millis(Some(10 * MS), 5 * MS), 5);
    assert_eq!(poll_timeout_millis(Some(10 * MS + 900_000), 5 * MS), 5);
    // A remainder that does not fit the primitive's timeout becomes zero.
    assert_eq!(poll_timeout_millis(Some(u64::MAX), 0), 0);
}

#[test]
fn send_actions_follow_poll_outcome() {
    assert_eq!(send_action(PollResult::WriteReady), SendAction::WriteOutgoing);
    assert_eq!(send_action(PollResult::ReadReady), SendAction::DrainIncoming);
    assert_eq!(send_action(PollResult::TimedOut), SendAction::NoProgress);
    assert_eq!(send_action(PollResult::Undocumented), SendAction::NoProgress);
}

#[test]
fn recv_actions_follow_poll_outcome() {
    assert_eq!(recv_action(PollResult::TimedOut), RecvAction::Finish);
    assert_eq!(recv_action(PollResult::ReadReady), RecvAction::DrainIncoming);
    assert_eq!(recv_action(PollResult::WriteReady), RecvAction::NoProgress);
    assert_eq!(recv_action(PollResult::Undocumented), RecvAction::NoProgress);
}

#[test]
fn past_deadline_transmit_times_out_when_bytes_remain() {
    // Everything sent on the one non-blocking attempt: success.
    assert_eq!(send_status(0, 10, 10), Some(Ok(())));
    // Bytes remain and the deadline has passed: timed out.
    assert_eq!(send_status(3, 10, 10), Some(Err(PortError::TimedOut)));
    assert_eq!(send_status(3, 11, 10), Some(Err(PortError::TimedOut)));
    // Bytes remain but there is time: keep looping.
    assert_eq!(send_status(3, 9, 10), None);
}

#[test]
fn partial_write_drains_the_sent_prefix() {
    let mut tx = b"abcd".to_vec();
    drain_written(&mut tx, 2);
    assert_eq!(tx, b"cd".to_vec());
    drain_written(&mut tx, 0);
    assert_eq!(tx, b"cd".to_vec());
    drain_written(&mut tx, 2);
    assert_eq!(tx, Vec::<u8>::new());
}

#[test]
fn error_messages_are_not_empty() {
    let errors = [
        PortError::QuotaExceeded,
        PortError::InvalidFilename,
        PortError::TimedOut,
        PortError::Disconnected,
        PortError::InvalidDescriptor,
        PortError::PollFailed,
        PortError::Internal,
    ];
    for e in errors {
        assert!(!e.message().is_empty());
    }
}
