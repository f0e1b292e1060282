use std::sync::Mutex;

use tracing_cloudwatch::client::{
    export_batch, CloudWatchClient, ErrorReporter, NoopClient, NoopReporter, PutLogsError,
};
use tracing_cloudwatch::dispatch::LogEvent;
use tracing_cloudwatch::export::{BatchExporter, ExportConfig, ExporterState, LogDestination};

const ONE_DAY_MS: i64 = 86_400_000;

fn event(message: &str, timestamp: i64) -> LogEvent {
    LogEvent {
        message: message.to_string(),
        timestamp,
    }
}

fn destination() -> LogDestination {
    LogDestination {
        log_group_name: "group".to_string(),
        log_stream_name: "stream".to_string(),
    }
}

struct FlakyClient {
    fail_remaining: Mutex<u32>,
    calls: Mutex<u32>,
}

impl FlakyClient {
    fn failing_first(n: u32) -> Self {
        FlakyClient {
            fail_remaining: Mutex::new(n),
            calls: Mutex::new(0),
        }
    }
}

impl CloudWatchClient for FlakyClient {
    fn put_logs(&self, _dest: LogDestination, _logs: Vec<LogEvent>) -> Result<(), PutLogsError> {
        *self.calls.lock().unwrap() += 1;
        let mut left = self.fail_remaining.lock().unwrap();
        if *left > 0 {
            *left -= 1;
            Err(PutLogsError::Other {
                cause: "sink unavailable".to_string(),
            })
        } else {
            Ok(())
        }
    }
}

struct NotFoundClient {}

impl CloudWatchClient for NotFoundClient {
    fn put_logs(&self, dest: LogDestination, _logs: Vec<LogEvent>) -> Result<(), PutLogsError> {
        Err(PutLogsError::LogDestinationNotFound {
            message: format!("no such group: {}", dest.log_group_name),
        })
    }
}

#[derive(Default)]
struct RecordingReporter {
    not_found: Vec<String>,
    other: Vec<String>,
}

impl ErrorReporter for RecordingReporter {
    fn report(&mut self, error: &PutLogsError, _destination: &LogDestination) {
        match error {
            PutLogsError::LogDestinationNotFound { message } => {
                self.not_found.push(message.clone())
            }
            PutLogsError::Other { cause } => self.other.push(cause.clone()),
        }
    }
}

#[test]
fn does_not_order_logs_by_default() {
    let mut unordered_queue = vec![
        event("1", ONE_DAY_MS),
        event("3", 3 * ONE_DAY_MS),
        event("2", 2 * ONE_DAY_MS),
    ];
    let still_unordered_queue = BatchExporter::take_from_queue(&mut unordered_queue, false);

    let mut still_unordered_queue_iter = still_unordered_queue.iter();
    assert_eq!(
        ONE_DAY_MS,
        still_unordered_queue_iter.next().unwrap().timestamp
    );
    assert_eq!(
        3 * ONE_DAY_MS,
        still_unordered_queue_iter.next().unwrap().timestamp
    );
    assert_eq!(
        2 * ONE_DAY_MS,
        still_unordered_queue_iter.next().unwrap().timestamp
    );
}

#[test]
fn orders_logs_when_enabled() {
    let mut unordered_queue = vec![
        event("1", ONE_DAY_MS),
        event("3", 3 * ONE_DAY_MS),
        event("2", 2 * ONE_DAY_MS),
    ];
    let ordered_queue = BatchExporter::take_from_queue(&mut unordered_queue, true);

    let mut last_timestamp: i64 = 0;
    for log in ordered_queue {
        assert!(
            log.timestamp > last_timestamp,
            "Not true: {} > {}",
            log.timestamp,
            last_timestamp
        );
        last_timestamp = log.timestamp;
    }
}

#[test]
fn sorting_is_stable_for_equal_timestamps() {
    let mut queue = vec![
        event("late", 9),
        event("a", 3),
        event("b", 3),
        event("early", 1),
        event("c", 3),
    ];
    let sorted = BatchExporter::take_from_queue(&mut queue, true);
    let messages: Vec<&str> = sorted.iter().map(|e| e.message.as_str()).collect();
    assert_eq!(messages, vec!["early", "a", "b", "c", "late"]);
}

#[test]
fn size_trigger_precedes_time_trigger() {
    let config = ExportConfig::default()
        .with_batch_size(2)
        .with_interval(60_000);
    let mut exporter = BatchExporter::new(config);

    assert!(exporter.on_event(event("a", 1)).is_none());
    let batch = exporter
        .on_event(event("b", 2))
        .expect("reaching the batch size must flush at once, without a timer tick");
    assert_eq!(batch.len(), 2);
    assert_eq!(batch[0].message, "a");
    assert_eq!(batch[1].message, "b");
    assert!(exporter.on_timer_tick().is_none());
}

#[test]
fn time_trigger_fires_only_on_non_empty_queue() {
    let config = ExportConfig::default()
        .with_batch_size(1024)
        .with_interval(200);
    let mut exporter = BatchExporter::new(config);

    assert!(
        exporter.on_timer_tick().is_none(),
        "an idle tick over an empty queue must never call the sink"
    );
    assert!(exporter.on_event(event("only", 7)).is_none());
    let batch = exporter
        .on_timer_tick()
        .expect("the first tick after one event must flush it");
    assert_eq!(batch.len(), 1);
    assert_eq!(batch[0].message, "only");
    assert!(exporter.on_timer_tick().is_none());
}

#[test]
fn shutdown_drains_everything_queued_before_it() {
    let config = ExportConfig::default()
        .with_batch_size(1024)
        .with_interval(60_000);
    let mut exporter = BatchExporter::new(config);

    for i in 0i64..512i64 {
        assert!(exporter.on_event(event("queued", i)).is_none());
    }
    exporter.begin_drain();
    assert_eq!(exporter.state, ExporterState::Draining);
    let batch = exporter
        .finish_drain(Vec::new())
        .expect("512 queued events must come out in the final flush");
    assert_eq!(batch.len(), 512);
    assert_eq!(exporter.state, ExporterState::Terminated);
}

#[test]
fn shutdown_flushes_sum_to_everything_submitted() {
    let config = ExportConfig::default().with_batch_size(5).with_interval(60_000);
    let mut exporter = BatchExporter::new(config);

    let mut flushed_total: usize = 0;
    for i in 0i64..512i64 {
        if let Some(batch) = exporter.on_event(event("queued", i)) {
            flushed_total += batch.len();
        }
    }
    exporter.begin_drain();
    if let Some(batch) = exporter.finish_drain(Vec::new()) {
        flushed_total += batch.len();
    }
    assert_eq!(flushed_total, 512);
    assert_eq!(exporter.state, ExporterState::Terminated);
}

#[test]
fn shutdown_includes_events_drained_from_the_channel_buffer() {
    let config = ExportConfig::default().with_batch_size(10).with_interval(60_000);
    let mut exporter = BatchExporter::new(config);

    assert!(exporter.on_event(event("queued", 1)).is_none());
    exporter.begin_drain();
    let drained = vec![event("buffered-1", 2), event("buffered-2", 3)];
    let batch = exporter.finish_drain(drained).expect("three events remain");
    let messages: Vec<&str> = batch.iter().map(|e| e.message.as_str()).collect();
    assert_eq!(messages, vec!["queued", "buffered-1", "buffered-2"]);
}

#[test]
fn empty_final_flush_is_a_no_op() {
    let config = ExportConfig::default();
    let mut exporter = BatchExporter::new(config);
    exporter.begin_drain();
    assert!(exporter.finish_drain(Vec::new()).is_none());
    assert_eq!(exporter.state, ExporterState::Terminated);
}

#[test]
fn channel_closed_acts_as_implicit_shutdown() {
    let config = ExportConfig::default().with_batch_size(10);
    let mut exporter = BatchExporter::new(config);
    assert!(exporter.on_event(event("a", 1)).is_none());
    assert!(exporter.on_event(event("b", 2)).is_none());
    let batch = exporter
        .on_channel_closed()
        .expect("queued events must be flushed when the channel closes");
    assert_eq!(batch.len(), 2);
    assert_eq!(exporter.state, ExporterState::Terminated);
}

#[test]
fn ordering_mode_sorts_within_one_batch() {
    let config = ExportConfig::default()
        .with_batch_size(3)
        .with_ordered_logs(true);
    let mut exporter = BatchExporter::new(config);

    assert!(exporter.on_event(event("3", 3 * ONE_DAY_MS)).is_none());
    assert!(exporter.on_event(event("1", ONE_DAY_MS)).is_none());
    let batch = exporter
        .on_event(event("2", 2 * ONE_DAY_MS))
        .expect("the third event fills the batch");
    let timestamps: Vec<i64> = batch.iter().map(|e| e.timestamp).collect();
    assert_eq!(timestamps, vec![ONE_DAY_MS, 2 * ONE_DAY_MS, 3 * ONE_DAY_MS]);
}

#[test]
fn sink_failure_does_not_halt_the_loop() {
    let config = ExportConfig::default().with_batch_size(1);
    let mut exporter = BatchExporter::new(config);
    let client = FlakyClient::failing_first(1);
    let mut reporter = RecordingReporter::default();
    let dest = destination();

    let first = exporter.on_event(event("first", 1)).expect("batch size 1");
    assert!(!export_batch(&client, &mut reporter, &dest, first));
    assert_eq!(exporter.state, ExporterState::Running);

    let second = exporter.on_event(event("second", 2)).expect("batch size 1");
    assert!(
        export_batch(&client, &mut reporter, &dest, second),
        "the very next batch must still be attempted and can succeed"
    );
    assert_eq!(*client.calls.lock().unwrap(), 2);
    assert_eq!(reporter.other, vec!["sink unavailable".to_string()]);
    assert!(reporter.not_found.is_empty());
}

#[test]
fn destination_not_found_is_reported_and_dropped() {
    let client = NotFoundClient {};
    let mut reporter = RecordingReporter::default();
    let dest = destination();

    let delivered = export_batch(&client, &mut reporter, &dest, vec![event("x", 1)]);
    assert!(!delivered);
    assert_eq!(reporter.not_found, vec!["no such group: group".to_string()]);
    assert!(reporter.other.is_empty());
}

#[test]
fn noop_client_accepts_every_batch() {
    let client = NoopClient::new();
    let mut reporter = NoopReporter::new();
    let dest = destination();
    assert!(export_batch(&client, &mut reporter, &dest, Vec::new()));
    assert!(export_batch(
        &client,
        &mut reporter,
        &dest,
        vec![event("x", 1)]
    ));
}

#[test]
fn default_config() {
    let config = ExportConfig::default();
    assert_eq!(config.batch_size, 5);
    assert_eq!(config.interval_millis, 5000);
    assert!(!config.ordered_logs);
    assert_eq!(config.destination.log_group_name, "");
    assert_eq!(config.destination.log_stream_name, "");
}

#[test]
fn builders_set_every_field() {
    let config = ExportConfig::default()
        .with_batch_size(2)
        .with_interval(1000)
        .with_log_group_name("tracing-cloudwatch".to_string())
        .with_log_stream_name("stream-1".to_string())
        .with_ordered_logs(true);
    assert_eq!(config.batch_size, 2);
    assert_eq!(config.interval_millis, 1000);
    assert_eq!(config.destination.log_group_name, "tracing-cloudwatch");
    assert_eq!(config.destination.log_stream_name, "stream-1");
    assert!(config.ordered_logs);
}
