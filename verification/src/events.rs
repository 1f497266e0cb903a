//! The versioned event variants the pipeline ingests.
//!
//! Each event category arrives in one of several historical wire versions.
//! The types here carry, as plain values, exactly what normalization reads:
//! binary identifiers as byte vectors, counters as integers, and the
//! pre-rendered reward summary as text. The host-facing layer converts its
//! wire representation into these before calling in.

use vstd::prelude::*;

verus! {

use vstd::string::StringExecFns;

/// An account mutation, in one of its wire versions. The first version is
/// unsupported: it is recorded as such, never treated as a failure of the
/// pipeline. `data_len` is the length of the raw account data buffer; the
/// buffer's content is never persisted.
#[derive(Debug)]
pub enum AccountUpdate {
    V1,
    V2 {
        pubkey: Vec<u8>,
        owner: Vec<u8>,
        lamports: u64,
        data_len: u64,
        executable: bool,
        rent_epoch: u64,
    },
    V3 {
        pubkey: Vec<u8>,
        owner: Vec<u8>,
        lamports: u64,
        data_len: u64,
        executable: bool,
        rent_epoch: u64,
        write_version: u64,
    },
}

/// A processed transaction, in one of its wire versions. Later versions add
/// the transaction's position within its containing block. The detailed
/// status metadata is never carried here: rendering it is unsafe by design,
/// so the record keeps only a boolean marker.
#[derive(Debug)]
pub enum TransactionNotice {
    V1 { signature: Vec<u8>, is_vote: bool },
    V2 { signature: Vec<u8>, is_vote: bool, index: u64 },
    V3 { signature: Vec<u8>, is_vote: bool, index: u64 },
}

/// Block metadata, in one of its wire versions. The second version adds the
/// block height, the third the executed transaction count. `rewards` is a
/// pre-rendered textual summary. The block's own slot number is carried
/// here and becomes the record's slot.
#[derive(Debug)]
pub enum BlockMetadata {
    V1 {
        slot: u64,
        blockhash: Vec<u8>,
        rewards: String,
        block_time: Option<i64>,
    },
    V2 {
        slot: u64,
        blockhash: Vec<u8>,
        rewards: String,
        block_time: Option<i64>,
        block_height: Option<u64>,
    },
    V3 {
        slot: u64,
        blockhash: Vec<u8>,
        rewards: String,
        block_time: Option<i64>,
        block_height: Option<u64>,
        executed_transaction_count: u64,
    },
    V4 {
        slot: u64,
        blockhash: Vec<u8>,
        rewards: String,
        block_time: Option<i64>,
        block_height: Option<u64>,
        executed_transaction_count: u64,
    },
}

/// The slot a block event belongs to: the block's own slot number.
pub open spec fn block_slot(b: BlockMetadata) -> u64 {
    match b {
        BlockMetadata::V1 { slot, .. } => slot,
        BlockMetadata::V2 { slot, .. } => slot,
        BlockMetadata::V3 { slot, .. } => slot,
        BlockMetadata::V4 { slot, .. } => slot,
    }
}

impl BlockMetadata {
    /// The block's own slot number.
    pub fn slot_number(&self) -> (r: u64)
        ensures
            r == block_slot(*self),
    {
        match self {
            BlockMetadata::V1 { slot, .. } => *slot,
            BlockMetadata::V2 { slot, .. } => *slot,
            BlockMetadata::V3 { slot, .. } => *slot,
            BlockMetadata::V4 { slot, .. } => *slot,
        }
    }
}

/// The lifecycle state of a slot, a small closed set. A dead slot carries
/// the reason it was abandoned.
#[derive(Debug)]
pub enum SlotStatus {
    Processed,
    Rooted,
    Confirmed,
    FirstShredReceived,
    Completed,
    CreatedBank,
    Dead(String),
}

/// The textual tag a slot status is rendered as.
pub open spec fn status_label(s: SlotStatus) -> Seq<char> {
    match s {
        SlotStatus::Processed => "Processed"@,
        SlotStatus::Rooted => "Rooted"@,
        SlotStatus::Confirmed => "Confirmed"@,
        SlotStatus::FirstShredReceived => "FirstShredReceived"@,
        SlotStatus::Completed => "Completed"@,
        SlotStatus::CreatedBank => "CreatedBank"@,
        SlotStatus::Dead(reason) => "Dead(\""@ + reason@ + "\")"@,
    }
}

impl SlotStatus {
    /// Renders the status as its textual tag.
    pub fn status_text(&self) -> (r: String)
        ensures
            r@ == status_label(*self),
    {
        match self {
            SlotStatus::Processed => String::from_str("Processed"),
            SlotStatus::Rooted => String::from_str("Rooted"),
            SlotStatus::Confirmed => String::from_str("Confirmed"),
            SlotStatus::FirstShredReceived => String::from_str("FirstShredReceived"),
            SlotStatus::Completed => String::from_str("Completed"),
            SlotStatus::CreatedBank => String::from_str("CreatedBank"),
            SlotStatus::Dead(reason) => {
                let mut out = String::from_str("Dead(\"");
                out.append(reason.as_str());
                out.append("\")");
                out
            },
        }
    }
}

} // verus!
