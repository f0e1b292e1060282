use tokio::sync::{mpsc, oneshot};

use tracing_cloudwatch::dispatch::{CloudWatchDispatcher, Dispatcher, LogEvent, NoopDispatcher};
use tracing_cloudwatch::guard::{CloudWatchWorkerGuard, ShutdownSignal};

fn event(message: &str, timestamp: i64) -> LogEvent {
    LogEvent {
        message: message.to_string(),
        timestamp,
    }
}

#[test]
fn acknowledgment_observed_only_after_ack_is_sent() {
    let (shutdown_tx, mut shutdown_rx) = oneshot::channel::<ShutdownSignal>();
    let mut guard = CloudWatchWorkerGuard::new(shutdown_tx);

    let mut ack_rx = guard
        .request_shutdown()
        .expect("the first request hands back the acknowledgment receiver");

    let signal = shutdown_rx
        .try_recv()
        .expect("the shutdown request must be delivered to the exporter side");

    assert!(
        ack_rx.try_recv().is_err(),
        "no acknowledgment may be observable before the final flush acknowledges"
    );

    signal.ack();
    assert!(ack_rx.try_recv().is_ok());
}

#[test]
fn idempotent_shutdown() {
    let (shutdown_tx, shutdown_rx) = oneshot::channel::<ShutdownSignal>();
    let mut guard = CloudWatchWorkerGuard::new(shutdown_tx);

    assert!(guard.is_armed());
    assert!(guard.request_shutdown().is_some());
    assert!(!guard.is_armed());
    assert!(
        guard.request_shutdown().is_none(),
        "a second request must be a silent no-op"
    );
    assert!(guard.request_shutdown().is_none());
    drop(shutdown_rx);
    drop(guard);
}

#[test]
fn shutdown_after_exporter_gone_is_swallowed() {
    let (shutdown_tx, shutdown_rx) = oneshot::channel::<ShutdownSignal>();
    drop(shutdown_rx);
    let mut guard = CloudWatchWorkerGuard::new(shutdown_tx);
    assert!(guard.request_shutdown().is_none());
    assert!(!guard.is_armed());
}

#[test]
fn double_acknowledgment_is_impossible() {
    let (signal, mut ack_rx) = ShutdownSignal::new();
    signal.ack();
    assert!(ack_rx.try_recv().is_ok());
    assert!(ack_rx.try_recv().is_err());
}

#[test]
fn acknowledging_a_gone_guard_is_a_no_op() {
    let (signal, ack_rx) = ShutdownSignal::new();
    drop(ack_rx);
    signal.ack();
}

#[test]
fn post_shutdown_submission_never_panics() {
    let (tx, rx) = mpsc::unbounded_channel::<LogEvent>();
    let dispatcher = CloudWatchDispatcher::new(tx);
    drop(rx);
    dispatcher.dispatch(event("after the end", 1));
    dispatcher.dispatch(event("still fine", 2));
}

#[test]
fn dispatcher_hands_events_to_the_consumer() {
    let (tx, mut rx) = mpsc::unbounded_channel::<LogEvent>();
    let dispatcher = CloudWatchDispatcher::new(tx);
    dispatcher.dispatch(event("hello", 5));
    let got = rx.try_recv().expect("the submitted event must be buffered");
    assert_eq!(got.message, "hello");
    assert_eq!(got.timestamp, 5);
    assert!(rx.try_recv().is_err());
}

#[test]
fn noop_dispatcher_discards_events() {
    let dispatcher = NoopDispatcher::new();
    dispatcher.dispatch(event("dropped", 1));
}
