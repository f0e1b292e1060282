//! Batching export engine for shipping structured log events to a remote
//! CloudWatch-style sink.
//!
//! Producers hand `LogEvent`s to a `Dispatcher` without ever blocking; a
//! single consumer (the `BatchExporter` state machine) accumulates them and
//! decides when a batch must be flushed to the sink: when the configured
//! batch size is reached, when the flush interval elapses over a non-empty
//! queue, or when shutdown drains the queue. The `CloudWatchWorkerGuard`
//! drives the one-shot shutdown handshake and its acknowledgment.

pub mod client;
pub mod dispatch;
pub mod export;
pub mod guard;
pub mod order;

pub use client::CloudWatchClient;
pub use export::{ExportConfig, LogDestination};
