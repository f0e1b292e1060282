//! The sink capability the engine delivers to, and its error taxonomy.
//!
//! The engine never talks to a concrete SDK: it only needs something that
//! can accept `(destination, batch)` and report success or failure. Failed
//! batches are reported through an injectable diagnostic channel and then
//! dropped — retry and backoff are deliberately the sink's responsibility,
//! not this engine's.

use vstd::prelude::*;

use crate::dispatch::LogEvent;
use crate::export::LogDestination;

verus! {

/// Why a sink call failed. A missing destination is distinguished from
/// every other failure so that callers could branch on it; the engine
/// itself treats both identically (report and drop).
#[derive(Debug)]
pub enum PutLogsError {
    /// The log group or log stream does not exist at the sink.
    LogDestinationNotFound { message: String },
    /// Any other delivery failure.
    Other { cause: String },
}

/// The capability the engine requires from a remote sink: deliver one batch
/// of events to a destination. The sink takes ownership of the batch for
/// the duration of the call; whatever it answers, the engine never hands it
/// the same batch again.
pub trait CloudWatchClient {
    fn put_logs(&self, dest: LogDestination, logs: Vec<LogEvent>) -> Result<(), PutLogsError>;
}

/// A sink that accepts and discards every batch.
pub struct NoopClient {}

impl CloudWatchClient for NoopClient {
    fn put_logs(&self, dest: LogDestination, logs: Vec<LogEvent>) -> (r: Result<
        (),
        PutLogsError,
    >)
        ensures
            r is Ok,
    {
        Ok(())
    }
}

impl NoopClient {
    pub fn new() -> Self {
        NoopClient {}
    }
}

/// Injectable diagnostic channel: how the engine reports a failed sink
/// call. Reports never reach producers — producers have no return channel
/// by design — and never stop the engine.
pub trait ErrorReporter {
    fn report(&mut self, error: &PutLogsError, destination: &LogDestination);
}

/// A reporter that swallows every diagnostic.
pub struct NoopReporter {}

impl ErrorReporter for NoopReporter {
    fn report(&mut self, error: &PutLogsError, destination: &LogDestination) {
    }
}

impl NoopReporter {
    pub fn new() -> Self {
        NoopReporter {}
    }
}

/// One flush: hand `batch` to the sink. On failure the error goes once to
/// the reporter and the batch is discarded anyway — there is no retry and
/// no requeueing, so a failing sink can never halt or wedge the engine; the
/// result only says whether this one delivery succeeded.
pub fn export_batch<C: CloudWatchClient, R: ErrorReporter>(
    client: &C,
    reporter: &mut R,
    destination: &LogDestination,
    batch: Vec<LogEvent>,
) -> (delivered: bool) {
    let dest = destination.clone();
    match client.put_logs(dest, batch) {
        Ok(()) => true,
        Err(err) => {
            reporter.report(&err, destination);
            false
        },
    }
}

} // verus!
