//! The producer/consumer decoupling: a non-blocking dispatch handle and the
//! writer's record source.
//!
//! Producers hold a `ThreadSafeLogger` and submit records without ever
//! blocking on the write; a multi-producer/single-consumer channel carries
//! each record, in per-producer submission order, to the single
//! `WriterWorker`, which renders records one at a time for the sink. The
//! channel is the pipeline's only synchronization point. Opening the sink
//! and draining the worker in a background thread belong to the host-facing
//! layer; everything that decides or computes stands here.

use vstd::prelude::*;

verus! {

use std::sync::mpsc::Receiver;
use std::sync::mpsc::Sender;

use crate::errors::LoggerError;
use crate::events::AccountUpdate;
use crate::events::BlockMetadata;
use crate::events::SlotStatus;
use crate::events::TransactionNotice;
use crate::json::JsonObject;
use crate::record::LogEntry;
use crate::record::RecordView;
use crate::record::record_text;
use crate::structured_logger::StructuredLogger;

#[verifier::external_type_specification]
#[verifier::external_body]
#[verifier::reject_recursive_types(T)]
pub struct ExSender<T>(Sender<T>);

#[verifier::external_type_specification]
#[verifier::external_body]
#[verifier::reject_recursive_types(T)]
pub struct ExReceiver<T>(Receiver<T>);

/// Relies on `std::sync::mpsc::Sender::clone`: the duplicate sends into
/// the same channel as the original. Nothing further is assumed of it.
pub assume_specification<T>[ <Sender<T> as Clone>::clone ](sender: &Sender<T>) -> Sender<T>;

/// Relies on `std::sync::mpsc::channel`: the two endpoints form one queue,
/// unbounded, delivering each sender's records in its send order.
#[verifier::external_body]
fn new_channel() -> (r: (Sender<LogEntry>, Receiver<LogEntry>)) {
    std::sync::mpsc::channel()
}

/// Relies on `std::sync::mpsc::Sender::send`: it never blocks, and it fails
/// exactly when the receiving half has been dropped, handing the record
/// back inside the error.
#[verifier::external_body]
fn send_entry(sender: &Sender<LogEntry>, entry: LogEntry) -> (r: Result<(), LogEntry>)
    ensures
        r matches Err(back) ==> back == entry,
{
    match sender.send(entry) {
        Ok(()) => Ok(()),
        Err(e) => Err(e.0),
    }
}

/// Relies on `std::sync::mpsc::Receiver::recv`: it blocks until a record
/// arrives, and returns nothing exactly when every sender has been dropped
/// and the queue is drained.
#[verifier::external_body]
fn recv_entry(receiver: &Receiver<LogEntry>) -> (r: Option<LogEntry>) {
    receiver.recv().ok()
}

/// The caller-facing dispatch handle: duplicable, non-blocking, owning the
/// sending half of the channel. Submission never raises to the caller: a
/// record submitted after the worker is gone is dropped, and the failure is
/// swallowed.
#[derive(Clone)]
pub struct ThreadSafeLogger {
    sender: Sender<LogEntry>,
}

/// The single consumer: owns the receiving half of the channel and renders
/// records, one at a time, in the order they were dequeued.
pub struct WriterWorker {
    receiver: Receiver<LogEntry>,
}

impl ThreadSafeLogger {
    /// Creates the channel and both ends of the pipeline: the handle that
    /// producers share, and the worker the host-facing layer drives on its
    /// background thread.
    pub fn new() -> (r: (ThreadSafeLogger, WriterWorker)) {
        let (sender, receiver) = new_channel();
        (ThreadSafeLogger { sender }, WriterWorker { receiver })
    }

    /// Submits a record, reporting whether the worker was still there.
    /// Failure means exactly that the receiving half is gone; the record is
    /// dropped in that case.
    pub fn try_log(&self, event_type: &str, slot: Option<u64>, data: JsonObject) -> (r: Result<
        (),
        LoggerError,
    >)
        ensures
            r matches Err(e) ==> e == LoggerError::ChannelClosed,
    {
        let entry = StructuredLogger::log(event_type, slot, data);
        match send_entry(&self.sender, entry) {
            Ok(()) => Ok(()),
            Err(_) => Err(LoggerError::ChannelClosed),
        }
    }

    /// Submits a record, swallowing a closed channel: producers must never
    /// be slowed or aborted by logging failures.
    pub fn log(&self, event_type: &str, slot: Option<u64>, data: JsonObject) {
        let _ = self.try_log(event_type, slot, data);
    }

    /// Normalizes an account update and submits it.
    pub fn log_account_update(&self, account: &AccountUpdate, slot: u64, is_startup: bool) {
        let entry = StructuredLogger::log_account_update(account, slot, is_startup);
        let _ = send_entry(&self.sender, entry);
    }

    /// Normalizes a transaction and submits it.
    pub fn log_transaction(&self, transaction: &TransactionNotice, slot: u64) {
        let entry = StructuredLogger::log_transaction(transaction, slot);
        let _ = send_entry(&self.sender, entry);
    }

    /// Normalizes block metadata and submits it.
    pub fn log_block_metadata(&self, block: &BlockMetadata) {
        let entry = StructuredLogger::log_block_metadata(block);
        let _ = send_entry(&self.sender, entry);
    }

    /// Normalizes a slot-status transition and submits it.
    pub fn log_slot_status(&self, slot: u64, parent: Option<u64>, status: &SlotStatus) {
        let entry = StructuredLogger::log_slot_status(slot, parent, status);
        let _ = send_entry(&self.sender, entry);
    }
}

impl WriterWorker {
    /// Takes the next queued record, blocking until one arrives; nothing is
    /// returned exactly when every handle has been dropped and the queue is
    /// drained, which is the worker's signal to flush and exit.
    pub fn next_entry(&self) -> (r: Option<LogEntry>) {
        recv_entry(&self.receiver)
    }

    /// Takes the next queued record and renders it to its persisted line.
    /// Every line handed out is the exact rendering of some record.
    pub fn next_line(&self) -> (r: Option<String>)
        ensures
            r matches Some(line) ==> exists|v: RecordView| line@ == record_text(v),
    {
        match recv_entry(&self.receiver) {
            Some(entry) => {
                let line = entry.render();
                proof {
                    assert(line@ == record_text(entry@));
                }
                Some(line)
            },
            None => None,
        }
    }
}

} // verus!
