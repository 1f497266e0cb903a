//! The plugin hook: configuration resolution and callback decisions.

use geyser_structured_log::events::{AccountUpdate, SlotStatus, TransactionNotice};
use geyser_structured_log::geyser_plugin::{GeyserPluginConfig, GeyserPluginHook, HookError};
use geyser_structured_log::thread_safe_logger::ThreadSafeLogger;

#[test]
fn default_hook_has_no_config() {
    let hook = GeyserPluginHook::default();
    assert_eq!(hook.config, None);
    assert_eq!(hook.name(), "GeyserPluginHook");
}

#[test]
fn extract_config_keeps_a_parsed_section() {
    let parsed = GeyserPluginConfig {
        output_file: Some(String::from("events.log")),
        account_owners_filter: Some(vec![String::from("owner1")]),
    };
    let resolved = GeyserPluginHook::extract_config(Some(parsed.clone()));
    assert_eq!(resolved, parsed);
}

#[test]
fn extract_config_falls_back_to_default() {
    let resolved = GeyserPluginHook::extract_config(None);
    assert_eq!(resolved, GeyserPluginConfig::default());
    assert_eq!(resolved.output_file, None);
    assert_eq!(resolved.account_owners_filter, None);
}

#[test]
fn load_config_records_the_effective_config() {
    let mut hook = GeyserPluginHook::default();
    let parsed = GeyserPluginConfig {
        output_file: Some(String::from("out.jsonl")),
        account_owners_filter: None,
    };
    hook.load_config(Some(parsed.clone()));
    assert_eq!(hook.config, Some(parsed));

    let mut bare = GeyserPluginHook::default();
    bare.load_config(None);
    assert_eq!(bare.config, Some(GeyserPluginConfig::default()));
}

#[test]
fn update_account_refuses_only_the_first_version() {
    let hook = GeyserPluginHook::default();
    assert_eq!(
        hook.update_account(&AccountUpdate::V1),
        Err(HookError::UnsupportedAccountVersion)
    );
    let v2 = AccountUpdate::V2 {
        pubkey: vec![0u8; 32],
        owner: vec![0u8; 32],
        lamports: 0,
        data_len: 0,
        executable: false,
        rent_epoch: 0,
    };
    let summary = hook.update_account(&v2).unwrap();
    assert_eq!(
        summary,
        "pubkey: 11111111111111111111111111111111, \
         owner: 11111111111111111111111111111111"
    );
    let v3 = AccountUpdate::V3 {
        pubkey: vec![1u8; 32],
        owner: vec![0u8; 32],
        lamports: 0,
        data_len: 0,
        executable: false,
        rent_epoch: 0,
        write_version: 1,
    };
    let summary = hook.update_account(&v3).unwrap();
    assert!(summary.starts_with("pubkey: 4vJ9JU1bJJE96FWSJKvHsmmFADCg4gpZQff4P3bkLKi"));
}

#[test]
fn notification_flags_are_on() {
    let hook = GeyserPluginHook::default();
    assert!(hook.account_data_notifications_enabled());
    assert!(hook.transaction_notifications_enabled());
}

#[test]
fn handle_normalizes_each_category() {
    let (logger, worker) = ThreadSafeLogger::new();
    logger.log_account_update(&AccountUpdate::V1, 1, false);
    logger.log_transaction(
        &TransactionNotice::V1 { signature: vec![1, 2, 3, 4, 5, 6, 7, 8], is_vote: true },
        2,
    );
    logger.log_slot_status(3, Some(2), &SlotStatus::Confirmed);
    drop(logger);
    let l1 = worker.next_line().unwrap();
    let l2 = worker.next_line().unwrap();
    let l3 = worker.next_line().unwrap();
    assert!(l1.contains("\"event_type\":\"account_update\",\"slot\":1"));
    assert!(l2.contains("\"event_type\":\"transaction\",\"slot\":2"));
    assert!(l2.contains("\"is_vote\":true"));
    assert!(l3.contains("\"event_type\":\"slot_status\",\"slot\":3"));
    assert!(l3.contains("{\"parent\":2,\"status\":\"Confirmed\"}"));
    assert!(worker.next_line().is_none());
}
