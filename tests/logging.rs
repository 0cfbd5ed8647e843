use free_cursor_client::logger::{drain_round, order_by_seq, LogMessage, LoggerHandle, Sequencer, Wake};
use free_cursor_client::telemetry::{EventLevel, TelemetryLogLevel};

fn msg(seq: usize, text: &str) -> LogMessage {
    LogMessage { level: TelemetryLogLevel::Info, message: text.to_string(), timestamp: 1_700_000_000_000, seq }
}

fn seqs(v: &[LogMessage]) -> Vec<usize> {
    v.iter().map(|m| m.seq).collect()
}

#[test]
fn sequencer_numbers_events_in_emission_order() {
    let mut s = Sequencer::new();
    let a = s.emit(TelemetryLogLevel::Info, "a".to_string(), 1).unwrap();
    let b = s.emit(TelemetryLogLevel::Warn, "b".to_string(), 1).unwrap();
    let c = s.emit(TelemetryLogLevel::Error, "c".to_string(), 0).unwrap();
    assert_eq!((a.seq, b.seq, c.seq), (0, 1, 2));
    assert_eq!(s.next, 3);
}

#[test]
fn sequencer_refuses_when_exhausted() {
    let mut s = Sequencer { next: usize::MAX };
    assert!(s.next_seq().is_none());
    assert_eq!(s.next, usize::MAX);
}

#[test]
fn interleaved_delivery_is_forwarded_in_emission_order() {
    // two producers emitted 0..6 alternately; the channel delivered them shuffled
    let delivered = vec![msg(3, "p2"), msg(0, "p1"), msg(5, "p2"), msg(1, "p2"), msg(4, "p1"), msg(2, "p1")];
    let out = order_by_seq(delivered);
    assert_eq!(seqs(&out), vec![0, 1, 2, 3, 4, 5]);
    assert_eq!(out[3].message, "p2");
}

#[test]
fn ordering_an_empty_batch_gives_an_empty_batch() {
    assert!(order_by_seq(Vec::new()).is_empty());
}

#[test]
fn shutdown_round_drains_everything_queued() {
    let r = drain_round(Wake::Shutdown, vec![msg(9, "x"), msg(7, "y"), msg(8, "z")]);
    assert!(r.finished);
    assert_eq!(seqs(&r.batch), vec![7, 8, 9]);
}

#[test]
fn message_round_includes_the_waking_message_and_continues() {
    let r = drain_round(Wake::Message(msg(4, "w")), vec![msg(6, "q"), msg(5, "q")]);
    assert!(!r.finished);
    assert_eq!(seqs(&r.batch), vec![4, 5, 6]);
}

#[test]
fn closed_channel_ends_the_drain() {
    let r = drain_round(Wake::Closed, Vec::new());
    assert!(r.finished);
    assert!(r.batch.is_empty());
}

#[test]
fn shutdown_is_idempotent() {
    let mut h = LoggerHandle::new();
    let first = h.shutdown();
    assert!(first.send_signal && first.await_drain);
    let second = h.shutdown();
    assert!(second.send_signal);
    assert!(!second.await_drain);
    assert!(!h.drain_pending);
}

#[test]
fn event_levels_map_to_sink_levels() {
    assert_eq!(TelemetryLogLevel::from_event_level(EventLevel::Trace), TelemetryLogLevel::Debug);
    assert_eq!(TelemetryLogLevel::from_event_level(EventLevel::Debug), TelemetryLogLevel::Debug);
    assert_eq!(TelemetryLogLevel::from_event_level(EventLevel::Info), TelemetryLogLevel::Info);
    assert_eq!(TelemetryLogLevel::from_event_level(EventLevel::Warn), TelemetryLogLevel::Warn);
    assert_eq!(TelemetryLogLevel::from_event_level(EventLevel::Error), TelemetryLogLevel::Error);
    assert_eq!(TelemetryLogLevel::Warn.to_string(), "warn");
    assert_eq!(TelemetryLogLevel::Debug.to_string(), "debug");
}

#[test]
fn numbers_keep_increasing_up_to_the_counter_end() {
    let mut s = Sequencer { next: usize::MAX - 2 };
    let a = s.next_seq().unwrap();
    let b = s.next_seq().unwrap();
    assert!(a < b);
    assert_eq!(s.next_seq(), None);
    assert_eq!(s.next_seq(), None);
}
