//! Normalization of each event category and version variant.

use geyser_structured_log::events::{AccountUpdate, BlockMetadata, SlotStatus, TransactionNotice};
use geyser_structured_log::json::render_object;
use geyser_structured_log::record::LogEntry;
use geyser_structured_log::structured_logger::StructuredLogger;

const ZEROS_32_B58: &str = "11111111111111111111111111111111";
const ONES_32_B58: &str = "4vJ9JU1bJJE96FWSJKvHsmmFADCg4gpZQff4P3bkLKi";

#[test]
fn account_update_v2_payload() {
    let account = AccountUpdate::V2 {
        pubkey: vec![1u8; 32],
        owner: vec![0u8; 32],
        lamports: 1000,
        data_len: 0,
        executable: false,
        rent_epoch: 361,
    };
    let data = StructuredLogger::account_update_data(&account, true);
    let text = render_object(&data);
    let expected = format!(
        "{{\"version\":\"V2\",\"pubkey\":\"{}\",\"owner\":\"{}\",\"lamports\":1000,\
         \"data_len\":0,\"executable\":false,\"rent_epoch\":361,\"is_startup\":true}}",
        ONES_32_B58, ZEROS_32_B58
    );
    assert_eq!(text, expected);
}

#[test]
fn account_update_v3_payload_adds_write_version() {
    let account = AccountUpdate::V3 {
        pubkey: vec![0u8; 32],
        owner: vec![1u8; 32],
        lamports: 42,
        data_len: 7,
        executable: true,
        rent_epoch: 5,
        write_version: 99,
    };
    let data = StructuredLogger::account_update_data(&account, false);
    let text = render_object(&data);
    let expected = format!(
        "{{\"version\":\"V3\",\"pubkey\":\"{}\",\"owner\":\"{}\",\"lamports\":42,\
         \"data_len\":7,\"executable\":true,\"rent_epoch\":5,\"write_version\":99,\
         \"is_startup\":false}}",
        ZEROS_32_B58, ONES_32_B58
    );
    assert_eq!(text, expected);
}

#[test]
fn account_update_v1_unsupported_is_recorded_not_dropped() {
    let data = StructuredLogger::account_update_data(&AccountUpdate::V1, false);
    let text = render_object(&data);
    assert_eq!(text, "{\"version\":\"V1\",\"error\":\"Version not supported\"}");
    // The record is still built like any other: unsupported is not an error.
    let entry = StructuredLogger::log_account_update(&AccountUpdate::V1, 17, false);
    assert_eq!(entry.event_type, "account_update");
    assert_eq!(entry.slot, Some(17));
    assert_eq!(render_object(&entry.data), "{\"version\":\"V1\",\"error\":\"Version not supported\"}");
}

#[test]
fn transaction_v1_payload() {
    let tx = TransactionNotice::V1 { signature: vec![1, 2, 3, 4, 5, 6, 7, 8], is_vote: false };
    let data = StructuredLogger::transaction_data(&tx);
    assert_eq!(
        render_object(&data),
        "{\"version\":\"V1\",\"signature\":\"An6UebxCZd\",\"is_vote\":false,\
         \"transaction_logged\":true}"
    );
}

#[test]
fn transaction_v2_and_v3_add_index() {
    let tx2 = TransactionNotice::V2 {
        signature: vec![1, 2, 3, 4, 5, 6, 7, 8],
        is_vote: true,
        index: 12,
    };
    assert_eq!(
        render_object(&StructuredLogger::transaction_data(&tx2)),
        "{\"version\":\"V2\",\"signature\":\"An6UebxCZd\",\"is_vote\":true,\
         \"transaction_logged\":true,\"index\":12}"
    );
    let tx3 = TransactionNotice::V3 {
        signature: vec![1, 2, 3, 4, 5, 6, 7, 8],
        is_vote: false,
        index: 0,
    };
    assert_eq!(
        render_object(&StructuredLogger::transaction_data(&tx3)),
        "{\"version\":\"V3\",\"signature\":\"An6UebxCZd\",\"is_vote\":false,\
         \"transaction_logged\":true,\"index\":0}"
    );
}

#[test]
fn transaction_record_carries_slot() {
    let tx = TransactionNotice::V2 { signature: vec![7], is_vote: false, index: 3 };
    let entry = StructuredLogger::log_transaction(&tx, 55);
    assert_eq!(entry.event_type, "transaction");
    assert_eq!(entry.slot, Some(55));
}

#[test]
fn block_metadata_v1_payload() {
    let block = BlockMetadata::V1 {
        slot: 9,
        blockhash: vec![9, 8, 7, 6, 5, 4, 3, 2, 1],
        rewards: String::from("[]"),
        block_time: Some(1700000000),
    };
    assert_eq!(
        render_object(&StructuredLogger::block_metadata_data(&block)),
        "{\"version\":\"V1\",\"blockhash\":\"7fiZcYFQEKEG\",\"rewards\":\"[]\",\
         \"block_time\":1700000000}"
    );
}

#[test]
fn block_metadata_v2_adds_block_height_and_null_time() {
    let block = BlockMetadata::V2 {
        slot: 10,
        blockhash: vec![9, 8, 7, 6, 5, 4, 3, 2, 1],
        rewards: String::from("[]"),
        block_time: None,
        block_height: Some(8),
    };
    assert_eq!(
        render_object(&StructuredLogger::block_metadata_data(&block)),
        "{\"version\":\"V2\",\"blockhash\":\"7fiZcYFQEKEG\",\"rewards\":\"[]\",\
         \"block_time\":null,\"block_height\":8}"
    );
}

#[test]
fn block_metadata_v3_and_v4_add_transaction_count() {
    let block3 = BlockMetadata::V3 {
        slot: 11,
        blockhash: vec![9, 8, 7, 6, 5, 4, 3, 2, 1],
        rewards: String::from("[]"),
        block_time: Some(-5),
        block_height: None,
        executed_transaction_count: 250,
    };
    assert_eq!(
        render_object(&StructuredLogger::block_metadata_data(&block3)),
        "{\"version\":\"V3\",\"blockhash\":\"7fiZcYFQEKEG\",\"rewards\":\"[]\",\
         \"block_time\":-5,\"block_height\":null,\"executed_transaction_count\":250}"
    );
    let block4 = BlockMetadata::V4 {
        slot: 12,
        blockhash: vec![9, 8, 7, 6, 5, 4, 3, 2, 1],
        rewards: String::from("[]"),
        block_time: Some(0),
        block_height: Some(1),
        executed_transaction_count: 0,
    };
    assert_eq!(
        render_object(&StructuredLogger::block_metadata_data(&block4)),
        "{\"version\":\"V4\",\"blockhash\":\"7fiZcYFQEKEG\",\"rewards\":\"[]\",\
         \"block_time\":0,\"block_height\":1,\"executed_transaction_count\":0}"
    );
}

#[test]
fn block_record_takes_slot_from_block() {
    let block = BlockMetadata::V2 {
        slot: 1234,
        blockhash: vec![1],
        rewards: String::from("[]"),
        block_time: None,
        block_height: None,
    };
    let entry = StructuredLogger::log_block_metadata(&block);
    assert_eq!(entry.event_type, "block_metadata");
    assert_eq!(entry.slot, Some(1234));
}

#[test]
fn slot_status_payload_with_parent() {
    let data = StructuredLogger::slot_status_data(Some(41), &SlotStatus::Rooted);
    assert_eq!(render_object(&data), "{\"parent\":41,\"status\":\"Rooted\"}");
}

#[test]
fn slot_status_payload_without_parent() {
    let data = StructuredLogger::slot_status_data(None, &SlotStatus::Processed);
    assert_eq!(render_object(&data), "{\"parent\":null,\"status\":\"Processed\"}");
}

#[test]
fn slot_status_dead_carries_reason() {
    let status = SlotStatus::Dead(String::from("fork abandoned"));
    let data = StructuredLogger::slot_status_data(Some(2), &status);
    assert_eq!(
        render_object(&data),
        "{\"parent\":2,\"status\":\"Dead(\\\"fork abandoned\\\")\"}"
    );
}

#[test]
fn slot_status_all_tags() {
    assert_eq!(SlotStatus::Processed.status_text(), "Processed");
    assert_eq!(SlotStatus::Rooted.status_text(), "Rooted");
    assert_eq!(SlotStatus::Confirmed.status_text(), "Confirmed");
    assert_eq!(SlotStatus::FirstShredReceived.status_text(), "FirstShredReceived");
    assert_eq!(SlotStatus::Completed.status_text(), "Completed");
    assert_eq!(SlotStatus::CreatedBank.status_text(), "CreatedBank");
    assert_eq!(
        SlotStatus::Dead(String::from("x")).status_text(),
        "Dead(\"x\")"
    );
}

#[test]
fn record_line_is_exact() {
    let account = AccountUpdate::V2 {
        pubkey: vec![0u8; 32],
        owner: vec![0u8; 32],
        lamports: 1,
        data_len: 2,
        executable: true,
        rent_epoch: 3,
        };
    let data = StructuredLogger::account_update_data(&account, false);
    let entry = LogEntry::new(String::from("2024-01-01T00:00:00+00:00"), "account_update", Some(7), data);
    let line = entry.render();
    let expected = format!(
        "{{\"timestamp\":\"2024-01-01T00:00:00+00:00\",\"event_type\":\"account_update\",\
         \"slot\":7,\"data\":{{\"version\":\"V2\",\"pubkey\":\"{z}\",\"owner\":\"{z}\",\
         \"lamports\":1,\"data_len\":2,\"executable\":true,\"rent_epoch\":3,\
         \"is_startup\":false}}}}",
        z = ZEROS_32_B58
    );
    assert_eq!(line, expected);
}

#[test]
fn lifecycle_marker_has_null_slot() {
    let entry = StructuredLogger::log(
        "plugin_loaded",
        None,
        geyser_structured_log::json::JsonObject::new(),
    );
    assert_eq!(entry.event_type, "plugin_loaded");
    assert_eq!(entry.slot, None);
    let line = entry.render();
    assert!(line.contains("\"slot\":null,\"data\":{}"));
}
