//! The dispatch handle and the writer: ordering, teardown, draining.

use geyser_structured_log::errors::LoggerError;
use geyser_structured_log::json::JsonObject;
use geyser_structured_log::thread_safe_logger::ThreadSafeLogger;

fn payload(tag: u64) -> JsonObject {
    let mut o = JsonObject::new();
    o.push_u64_field("tag", tag);
    o
}

#[test]
fn single_producer_lines_arrive_in_submission_order() {
    let (logger, worker) = ThreadSafeLogger::new();
    for i in 0..5u64 {
        logger.log("tick", Some(i), payload(i));
    }
    drop(logger);
    for i in 0..5u64 {
        let line = worker.next_line().expect("a queued record must drain");
        assert!(line.contains(&format!("\"slot\":{},\"data\":{{\"tag\":{}}}", i, i)));
    }
    assert!(worker.next_line().is_none());
}

#[test]
fn submit_after_teardown_is_swallowed() {
    let (logger, worker) = ThreadSafeLogger::new();
    drop(worker);
    // The plain submission returns at once and raises nothing.
    logger.log("tick", Some(1), payload(1));
    // The reporting variant names the condition.
    assert_eq!(
        logger.try_log("tick", Some(2), payload(2)),
        Err(LoggerError::ChannelClosed)
    );
}

#[test]
fn dropping_all_handles_drains_then_ends() {
    let (logger, worker) = ThreadSafeLogger::new();
    let second = logger.clone();
    logger.log("a", Some(1), payload(1));
    second.log("b", Some(2), payload(2));
    logger.log("c", Some(3), payload(3));
    drop(logger);
    drop(second);
    // Everything accepted onto the channel is still handed out, in order,
    // before the worker sees the end.
    let l1 = worker.next_line().unwrap();
    let l2 = worker.next_line().unwrap();
    let l3 = worker.next_line().unwrap();
    assert!(l1.contains("\"event_type\":\"a\""));
    assert!(l2.contains("\"event_type\":\"b\""));
    assert!(l3.contains("\"event_type\":\"c\""));
    assert!(worker.next_line().is_none());
    assert!(worker.next_entry().is_none());
}

#[test]
fn two_producers_interleave_without_loss() {
    let (logger, worker) = ThreadSafeLogger::new();
    let other = logger.clone();
    for i in 0..100u64 {
        logger.log("left", Some(i), payload(i));
        other.log("right", Some(i), payload(i));
    }
    drop(logger);
    drop(other);
    let mut left: Vec<u64> = Vec::new();
    let mut right: Vec<u64> = Vec::new();
    while let Some(entry) = worker.next_entry() {
        let slot = entry.slot.unwrap();
        if entry.event_type == "left" {
            left.push(slot);
        } else {
            assert_eq!(entry.event_type, "right");
            right.push(slot);
        }
    }
    // 200 lines in all, and each producer's own submissions kept their order.
    assert_eq!(left.len(), 100);
    assert_eq!(right.len(), 100);
    assert!(left.windows(2).all(|w| w[0] < w[1]));
    assert!(right.windows(2).all(|w| w[0] < w[1]));
}

#[test]
fn every_line_is_one_json_object() {
    let (logger, worker) = ThreadSafeLogger::new();
    logger.log("tick", Some(1), payload(1));
    drop(logger);
    let line = worker.next_line().unwrap();
    assert!(line.starts_with('{'));
    assert!(line.ends_with('}'));
    assert!(!line.contains('\n'));
}

#[test]
fn error_labels() {
    assert_eq!(LoggerError::SinkUnavailable.describe(), "sink unavailable");
    assert_eq!(LoggerError::ChannelClosed.describe(), "channel closed");
    assert_eq!(
        LoggerError::SerializationFailure.describe(),
        "serialization failure"
    );
    assert_eq!(LoggerError::WriteFailure.describe(), "write failure");
    assert_eq!(LoggerError::FlushFailure.describe(), "flush failure");
}

