//! Trusted declarations for the channel endpoints the reader owns and for
//! the task waker it parks: the notification channel and the discovery and
//! status channels are flume channels, shared with the receive path.
//!
//! What arrives on a channel depends on other threads, so none of these
//! contracts pins a result; every decision taken on a received value is
//! made by verified code in the reader.

use vstd::prelude::*;

use crate::participant::{DataReaderStatus, DiscoveryCommand};

verus! {

/// The receiving end of a flume channel.
#[verifier::external_type_specification]
#[verifier::external_body]
#[verifier::reject_recursive_types(T)]
pub struct ExReceiver<T>(flume::Receiver<T>);

/// The transmitting end of a flume channel.
#[verifier::external_type_specification]
#[verifier::external_body]
#[verifier::reject_recursive_types(T)]
pub struct ExSender<T>(flume::Sender<T>);

/// A handle for waking an asynchronous task.
#[verifier::external_type_specification]
#[verifier::external_body]
pub struct ExWaker(std::task::Waker);

/// Relies on flume's `Receiver::len`: how many wake pings sit in the
/// notification channel at this moment.
#[verifier::external_body]
pub(crate) fn pending_notification_count(r: &flume::Receiver<()>) -> usize {
    r.len()
}

/// Relies on flume's `Receiver::try_recv`: pops one pending wake ping
/// without blocking; `false` when none was pending.
#[verifier::external_body]
pub(crate) fn try_recv_ping(r: &flume::Receiver<()>) -> bool {
    r.try_recv().is_ok()
}

/// Relies on flume's `Sender::try_send`: hands one command to discovery
/// without blocking the caller; `false` when the channel is full or all
/// receivers are gone.
#[verifier::external_body]
pub(crate) fn send_discovery_command(
    s: &flume::Sender<DiscoveryCommand>,
    cmd: DiscoveryCommand,
) -> bool {
    s.try_send(cmd).is_ok()
}

/// One poll of the status channel.
pub enum StatusPoll {
    /// A status event was pending.
    Event(DataReaderStatus),
    /// Nothing is pending right now.
    Empty,
    /// All status senders are gone; no event will ever arrive again.
    Disconnected,
}

/// Relies on flume's `Receiver::try_recv`, which distinguishes an empty
/// channel from one whose senders have all been dropped.
#[verifier::external_body]
pub(crate) fn poll_status_channel(r: &flume::Receiver<DataReaderStatus>) -> StatusPoll {
    match r.try_recv() {
        Ok(s) => StatusPoll::Event(s),
        Err(flume::TryRecvError::Empty) => StatusPoll::Empty,
        Err(flume::TryRecvError::Disconnected) => StatusPoll::Disconnected,
    }
}

} // verus!
