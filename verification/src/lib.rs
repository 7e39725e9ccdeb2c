//! Core of a serial-port arbitration library for POSIX TTY devices.
//!
//! The crate verifies the decision logic of the arbiter: the connection
//! lifecycle with its reconnect cool-off policy, the worker's staging
//! buffer with its delimiter-framed collection policies, and the
//! deadline-driven poll/read/write loop decisions. The syscalls and the
//! thread plumbing that drive these state machines live outside the
//! verified library and hand it plain values.

mod connection;
mod errors;
mod poll;
mod transfer;
mod worker;

pub use connection::{Connection, OpenAction, DEFAULT_COOLOFF_NANOS};
pub use connection::{lemma_cooloff_expired, lemma_cooloff_window, lemma_error_leaves_closed};
pub use errors::PortError;
pub use poll::{PollKind, PollResult};
pub use poll::{classify_revents, poll_request_flags, poll_timeout_millis};
pub use transfer::{RecvAction, SendAction};
pub use transfer::{drain_written, recv_action, send_action, send_status};
pub use transfer::{lemma_past_deadline_receive, lemma_past_deadline_transmit};
pub use worker::{CollectKind, Worker};
pub use worker::{kind_for_receive, left_by_collect, position_of, taken_by_collect};
pub use worker::{
    lemma_collect_preserves_stream, lemma_delimited_round_trip, lemma_empty_staging_yields_none,
    lemma_fast_path_hit, lemma_post_drain_policy, lemma_receive_everything,
};
