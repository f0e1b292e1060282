//! Log events and the producer-facing dispatchers.
//!
//! A dispatcher is the handle that producers use to submit events. Submitting
//! must never block and must never surface an error, even when the consuming
//! exporter has already terminated: late events are silently discarded.

use vstd::prelude::*;

verus! {

/// One formatted log line, captured at the moment a producer submitted it.
///
/// The timestamp is the submission instant in milliseconds since the Unix
/// epoch; it is captured at submission, not at flush, and the event is
/// immutable once created.
#[derive(Debug)]
pub struct LogEvent {
    /// The already-rendered message text.
    pub message: String,
    /// Submission instant, in milliseconds since the Unix epoch.
    pub timestamp: i64,
}

/// Producer-facing handle: submit an event for later export.
pub trait Dispatcher {
    /// Enqueue `input` for later export. Never blocks and never surfaces an
    /// error to the caller, whatever state the consumer is in.
    fn dispatch(&self, input: LogEvent);
}

/// A dispatcher that discards every event.
pub struct NoopDispatcher {}

impl Dispatcher for NoopDispatcher {
    fn dispatch(&self, _input: LogEvent) {
    }
}

impl NoopDispatcher {
    pub fn new() -> Self {
        NoopDispatcher {}
    }
}

#[verifier::external_type_specification]
#[verifier::external_body]
#[verifier::reject_recursive_types(T)]
pub struct ExUnboundedSender<T>(tokio::sync::mpsc::UnboundedSender<T>);

#[verifier::external_type_specification]
#[verifier::external_body]
#[verifier::reject_recursive_types(T)]
pub struct ExSendError<T>(tokio::sync::mpsc::error::SendError<T>);

/// Relies on `tokio::sync::mpsc::UnboundedSender::send`: the channel is
/// unbounded, so the send completes immediately, without blocking or
/// panicking; it fails only when the receiving half is gone, and then hands
/// the rejected message back inside the error. Whether the receiver is still
/// alive depends on the peer, so nothing is promised about which variant
/// comes back.
pub assume_specification<T>[ tokio::sync::mpsc::UnboundedSender::<T>::send ](
    sender: &tokio::sync::mpsc::UnboundedSender<T>,
    message: T,
) -> Result<(), tokio::sync::mpsc::error::SendError<T>>;

/// The handle that submits events to a running batch exporter over an
/// unbounded multi-producer single-consumer channel.
pub struct CloudWatchDispatcher {
    tx: tokio::sync::mpsc::UnboundedSender<LogEvent>,
}

impl CloudWatchDispatcher {
    /// Wrap the sending half of the channel whose receiving half the
    /// exporter loop consumes.
    pub fn new(tx: tokio::sync::mpsc::UnboundedSender<LogEvent>) -> Self {
        CloudWatchDispatcher { tx }
    }
}

impl Dispatcher for CloudWatchDispatcher {
    fn dispatch(&self, input: LogEvent) {
        // The exporter can already be shutting down when late logs arrive.
        // Drop them instead of surfacing an error to the producer.
        let _ = self.tx.send(input);
    }
}

} // verus!
