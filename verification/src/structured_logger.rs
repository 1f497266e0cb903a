//! The schema normalizer: collapses each versioned event variant into one
//! canonical, loss-preserving payload.
//!
//! Every payload carries a `version` tag naming the source variant, so
//! provenance survives even though the outer record is versionless. A
//! variant's fields are preserved exactly: nothing the variant carries is
//! dropped, and nothing absent is invented. Binary identifiers enter the
//! payload only through the fixed base-58 encoding.

use vstd::prelude::*;

verus! {

use vstd::string::StringExecFns;

use crate::base58::base58_of;
use crate::base58::encode_base58;
use crate::events::AccountUpdate;
use crate::events::BlockMetadata;
use crate::events::SlotStatus;
use crate::events::TransactionNotice;
use crate::events::block_slot;
use crate::events::status_label;
use crate::json::JsonObject;
use crate::json::JsonView;
use crate::record::LogEntry;
use crate::record::current_timestamp;

/// The payload value of an optional signed counter: the number, or null
/// when the variant does not carry it.
pub open spec fn opt_i64_view(v: Option<i64>) -> JsonView {
    match v {
        Some(n) => JsonView::Int(n as int),
        None => JsonView::Null,
    }
}

/// The payload value of an optional unsigned counter.
pub open spec fn opt_u64_view(v: Option<u64>) -> JsonView {
    match v {
        Some(n) => JsonView::Int(n as int),
        None => JsonView::Null,
    }
}

/// The normalized payload of an account update. The unsupported first
/// version is recorded with an explicit error marker rather than rejected.
pub open spec fn account_update_payload(a: AccountUpdate, is_startup: bool) -> Seq<
    (Seq<char>, JsonView),
> {
    match a {
        AccountUpdate::V1 => seq![
            ("version"@, JsonView::Str("V1"@)),
            ("error"@, JsonView::Str("Version not supported"@)),
        ],
        AccountUpdate::V2 { pubkey, owner, lamports, data_len, executable, rent_epoch } => seq![
            ("version"@, JsonView::Str("V2"@)),
            ("pubkey"@, JsonView::Str(base58_of(pubkey@))),
            ("owner"@, JsonView::Str(base58_of(owner@))),
            ("lamports"@, JsonView::Int(lamports as int)),
            ("data_len"@, JsonView::Int(data_len as int)),
            ("executable"@, JsonView::Bool(executable)),
            ("rent_epoch"@, JsonView::Int(rent_epoch as int)),
            ("is_startup"@, JsonView::Bool(is_startup)),
        ],
        AccountUpdate::V3 {
            pubkey,
            owner,
            lamports,
            data_len,
            executable,
            rent_epoch,
            write_version,
        } => seq![
            ("version"@, JsonView::Str("V3"@)),
            ("pubkey"@, JsonView::Str(base58_of(pubkey@))),
            ("owner"@, JsonView::Str(base58_of(owner@))),
            ("lamports"@, JsonView::Int(lamports as int)),
            ("data_len"@, JsonView::Int(data_len as int)),
            ("executable"@, JsonView::Bool(executable)),
            ("rent_epoch"@, JsonView::Int(rent_epoch as int)),
            ("write_version"@, JsonView::Int(write_version as int)),
            ("is_startup"@, JsonView::Bool(is_startup)),
        ],
    }
}

/// The normalized payload of a transaction. The detailed status metadata is
/// never rendered; a boolean marker stands in its place by design. Later
/// variants add the transaction's position within its block.
pub open spec fn transaction_payload(t: TransactionNotice) -> Seq<(Seq<char>, JsonView)> {
    match t {
        TransactionNotice::V1 { signature, is_vote } => seq![
            ("version"@, JsonView::Str("V1"@)),
            ("signature"@, JsonView::Str(base58_of(signature@))),
            ("is_vote"@, JsonView::Bool(is_vote)),
            ("transaction_logged"@, JsonView::Bool(true)),
        ],
        TransactionNotice::V2 { signature, is_vote, index } => seq![
            ("version"@, JsonView::Str("V2"@)),
            ("signature"@, JsonView::Str(base58_of(signature@))),
            ("is_vote"@, JsonView::Bool(is_vote)),
            ("transaction_logged"@, JsonView::Bool(true)),
            ("index"@, JsonView::Int(index as int)),
        ],
        TransactionNotice::V3 { signature, is_vote, index } => seq![
            ("version"@, JsonView::Str("V3"@)),
            ("signature"@, JsonView::Str(base58_of(signature@))),
            ("is_vote"@, JsonView::Bool(is_vote)),
            ("transaction_logged"@, JsonView::Bool(true)),
            ("index"@, JsonView::Int(index as int)),
        ],
    }
}

/// The normalized payload of block metadata. The second variant adds the
/// block height, the third the executed transaction count; the fourth
/// carries the same fields as the third.
pub open spec fn block_metadata_payload(b: BlockMetadata) -> Seq<(Seq<char>, JsonView)> {
    match b {
        BlockMetadata::V1 { slot, blockhash, rewards, block_time } => seq![
            ("version"@, JsonView::Str("V1"@)),
            ("blockhash"@, JsonView::Str(base58_of(blockhash@))),
            ("rewards"@, JsonView::Str(rewards@)),
            ("block_time"@, opt_i64_view(block_time)),
        ],
        BlockMetadata::V2 { slot, blockhash, rewards, block_time, block_height } => seq![
            ("version"@, JsonView::Str("V2"@)),
            ("blockhash"@, JsonView::Str(base58_of(blockhash@))),
            ("rewards"@, JsonView::Str(rewards@)),
            ("block_time"@, opt_i64_view(block_time)),
            ("block_height"@, opt_u64_view(block_height)),
        ],
        BlockMetadata::V3 {
            slot,
            blockhash,
            rewards,
            block_time,
            block_height,
            executed_transaction_count,
        } => seq![
            ("version"@, JsonView::Str("V3"@)),
            ("blockhash"@, JsonView::Str(base58_of(blockhash@))),
            ("rewards"@, JsonView::Str(rewards@)),
            ("block_time"@, opt_i64_view(block_time)),
            ("block_height"@, opt_u64_view(block_height)),
            ("executed_transaction_count"@, JsonView::Int(executed_transaction_count as int)),
        ],
        BlockMetadata::V4 {
            slot,
            blockhash,
            rewards,
            block_time,
            block_height,
            executed_transaction_count,
        } => seq![
            ("version"@, JsonView::Str("V4"@)),
            ("blockhash"@, JsonView::Str(base58_of(blockhash@))),
            ("rewards"@, JsonView::Str(rewards@)),
            ("block_time"@, opt_i64_view(block_time)),
            ("block_height"@, opt_u64_view(block_height)),
            ("executed_transaction_count"@, JsonView::Int(executed_transaction_count as int)),
        ],
    }
}

/// The normalized payload of a slot-status transition: the parent slot (or
/// null) and the status's textual tag.
pub open spec fn slot_status_payload(parent: Option<u64>, status: SlotStatus) -> Seq<
    (Seq<char>, JsonView),
> {
    seq![("parent"@, opt_u64_view(parent)), ("status"@, JsonView::Str(status_label(status)))]
}

/// The field names of a payload, in order.
pub open spec fn payload_keys(fs: Seq<(Seq<char>, JsonView)>) -> Seq<Seq<char>> {
    fs.map_values(|f: (Seq<char>, JsonView)| f.0)
}

/// Law: normalizing an account update preserves exactly the fields its
/// variant carries, each exactly once, and its binary identifiers enter the
/// payload only as base-58 text.
pub proof fn lemma_account_update_fields(a: AccountUpdate, is_startup: bool)
    ensures
        payload_keys(account_update_payload(a, is_startup)) == match a {
            AccountUpdate::V1 => seq!["version"@, "error"@],
            AccountUpdate::V2 { .. } => seq![
                "version"@,
                "pubkey"@,
                "owner"@,
                "lamports"@,
                "data_len"@,
                "executable"@,
                "rent_epoch"@,
                "is_startup"@,
            ],
            AccountUpdate::V3 { .. } => seq![
                "version"@,
                "pubkey"@,
                "owner"@,
                "lamports"@,
                "data_len"@,
                "executable"@,
                "rent_epoch"@,
                "write_version"@,
                "is_startup"@,
            ],
        },
        payload_keys(account_update_payload(a, is_startup)).no_duplicates(),
        a matches AccountUpdate::V2 { pubkey, owner, .. } ==> account_update_payload(
            a,
            is_startup,
        )[1] == ("pubkey"@, JsonView::Str(base58_of(pubkey@))) && account_update_payload(
            a,
            is_startup,
        )[2] == ("owner"@, JsonView::Str(base58_of(owner@))),
        a matches AccountUpdate::V3 { pubkey, owner, .. } ==> account_update_payload(
            a,
            is_startup,
        )[1] == ("pubkey"@, JsonView::Str(base58_of(pubkey@))) && account_update_payload(
            a,
            is_startup,
        )[2] == ("owner"@, JsonView::Str(base58_of(owner@))),
{
    reveal_strlit("version");
    reveal_strlit("error");
    reveal_strlit("pubkey");
    reveal_strlit("owner");
    reveal_strlit("lamports");
    reveal_strlit("data_len");
    reveal_strlit("executable");
    reveal_strlit("rent_epoch");
    reveal_strlit("write_version");
    reveal_strlit("is_startup");
    assert("version"@.len() == 7);
    assert("error"@.len() == 5);
    assert("pubkey"@.len() == 6);
    assert("owner"@.len() == 5);
    assert("lamports"@.len() == 8);
    assert("data_len"@.len() == 8);
    assert("executable"@.len() == 10);
    assert("rent_epoch"@.len() == 10);
    assert("write_version"@.len() == 13);
    assert("is_startup"@.len() == 10);
    assert("error"@[0] == 'e' && "owner"@[0] == 'o');
    assert("lamports"@[0] == 'l' && "data_len"@[0] == 'd');
    assert("executable"@[0] == 'e' && "rent_epoch"@[0] == 'r' && "is_startup"@[0] == 'i');
    match a {
        AccountUpdate::V1 => {
            assert(payload_keys(account_update_payload(a, is_startup)) =~= seq![
                "version"@,
                "error"@,
            ]);
        },
        AccountUpdate::V2 { .. } => {
            assert(payload_keys(account_update_payload(a, is_startup)) =~= seq![
                "version"@,
                "pubkey"@,
                "owner"@,
                "lamports"@,
                "data_len"@,
                "executable"@,
                "rent_epoch"@,
                "is_startup"@,
            ]);
        },
        AccountUpdate::V3 { .. } => {
            assert(payload_keys(account_update_payload(a, is_startup)) =~= seq![
                "version"@,
                "pubkey"@,
                "owner"@,
                "lamports"@,
                "data_len"@,
                "executable"@,
                "rent_epoch"@,
                "write_version"@,
                "is_startup"@,
            ]);
        },
    }
}

/// Law: normalizing a transaction preserves exactly the fields its variant
/// carries, each exactly once, and the signature enters the payload only as
/// base-58 text.
pub proof fn lemma_transaction_fields(t: TransactionNotice)
    ensures
        payload_keys(transaction_payload(t)) == match t {
            TransactionNotice::V1 { .. } => seq![
                "version"@,
                "signature"@,
                "is_vote"@,
                "transaction_logged"@,
            ],
            TransactionNotice::V2 { .. } => seq![
                "version"@,
                "signature"@,
                "is_vote"@,
                "transaction_logged"@,
                "index"@,
            ],
            TransactionNotice::V3 { .. } => seq![
                "version"@,
                "signature"@,
                "is_vote"@,
                "transaction_logged"@,
                "index"@,
            ],
        },
        payload_keys(transaction_payload(t)).no_duplicates(),
        t matches TransactionNotice::V1 { signature, .. } ==> transaction_payload(t)[1] == (
            "signature"@,
            JsonView::Str(base58_of(signature@)),
        ),
        t matches TransactionNotice::V2 { signature, .. } ==> transaction_payload(t)[1] == (
            "signature"@,
            JsonView::Str(base58_of(signature@)),
        ),
        t matches TransactionNotice::V3 { signature, .. } ==> transaction_payload(t)[1] == (
            "signature"@,
            JsonView::Str(base58_of(signature@)),
        ),
{
    reveal_strlit("version");
    reveal_strlit("signature");
    reveal_strlit("is_vote");
    reveal_strlit("transaction_logged");
    reveal_strlit("index");
    assert("version"@.len() == 7);
    assert("signature"@.len() == 9);
    assert("is_vote"@.len() == 7);
    assert("transaction_logged"@.len() == 18);
    assert("index"@.len() == 5);
    assert("version"@[0] == 'v' && "is_vote"@[0] == 'i');
    match t {
        TransactionNotice::V1 { .. } => {
            assert(payload_keys(transaction_payload(t)) =~= seq![
                "version"@,
                "signature"@,
                "is_vote"@,
                "transaction_logged"@,
            ]);
        },
        TransactionNotice::V2 { .. } => {
            assert(payload_keys(transaction_payload(t)) =~= seq![
                "version"@,
                "signature"@,
                "is_vote"@,
                "transaction_logged"@,
                "index"@,
            ]);
        },
        TransactionNotice::V3 { .. } => {
            assert(payload_keys(transaction_payload(t)) =~= seq![
                "version"@,
                "signature"@,
                "is_vote"@,
                "transaction_logged"@,
                "index"@,
            ]);
        },
    }
}

/// Law: normalizing block metadata preserves exactly the fields its variant
/// carries, each exactly once, and the block hash enters the payload only
/// as base-58 text.
pub proof fn lemma_block_metadata_fields(b: BlockMetadata)
    ensures
        payload_keys(block_metadata_payload(b)) == match b {
            BlockMetadata::V1 { .. } => seq!["version"@, "blockhash"@, "rewards"@, "block_time"@],
            BlockMetadata::V2 { .. } => seq![
                "version"@,
                "blockhash"@,
                "rewards"@,
                "block_time"@,
                "block_height"@,
            ],
            BlockMetadata::V3 { .. } => seq![
                "version"@,
                "blockhash"@,
                "rewards"@,
                "block_time"@,
                "block_height"@,
                "executed_transaction_count"@,
            ],
            BlockMetadata::V4 { .. } => seq![
                "version"@,
                "blockhash"@,
                "rewards"@,
                "block_time"@,
                "block_height"@,
                "executed_transaction_count"@,
            ],
        },
        payload_keys(block_metadata_payload(b)).no_duplicates(),
        block_metadata_payload(b)[1].0 == "blockhash"@,
        block_metadata_payload(b)[1].1 == match b {
            BlockMetadata::V1 { blockhash, .. } => JsonView::Str(base58_of(blockhash@)),
            BlockMetadata::V2 { blockhash, .. } => JsonView::Str(base58_of(blockhash@)),
            BlockMetadata::V3 { blockhash, .. } => JsonView::Str(base58_of(blockhash@)),
            BlockMetadata::V4 { blockhash, .. } => JsonView::Str(base58_of(blockhash@)),
        },
{
    reveal_strlit("version");
    reveal_strlit("blockhash");
    reveal_strlit("rewards");
    reveal_strlit("block_time");
    reveal_strlit("block_height");
    reveal_strlit("executed_transaction_count");
    assert("version"@.len() == 7);
    assert("blockhash"@.len() == 9);
    assert("rewards"@.len() == 7);
    assert("block_time"@.len() == 10);
    assert("block_height"@.len() == 12);
    assert("executed_transaction_count"@.len() == 26);
    assert("version"@[0] == 'v' && "rewards"@[0] == 'r');
    match b {
        BlockMetadata::V1 { .. } => {
            assert(payload_keys(block_metadata_payload(b)) =~= seq![
                "version"@,
                "blockhash"@,
                "rewards"@,
                "block_time"@,
            ]);
        },
        BlockMetadata::V2 { .. } => {
            assert(payload_keys(block_metadata_payload(b)) =~= seq![
                "version"@,
                "blockhash"@,
                "rewards"@,
                "block_time"@,
                "block_height"@,
            ]);
        },
        BlockMetadata::V3 { .. } => {
            assert(payload_keys(block_metadata_payload(b)) =~= seq![
                "version"@,
                "blockhash"@,
                "rewards"@,
                "block_time"@,
                "block_height"@,
                "executed_transaction_count"@,
            ]);
        },
        BlockMetadata::V4 { .. } => {
            assert(payload_keys(block_metadata_payload(b)) =~= seq![
                "version"@,
                "blockhash"@,
                "rewards"@,
                "block_time"@,
                "block_height"@,
                "executed_transaction_count"@,
            ]);
        },
    }
}

/// Law: normalizing a slot-status transition yields exactly the parent and
/// the status tag, each exactly once.
pub proof fn lemma_slot_status_fields(parent: Option<u64>, status: SlotStatus)
    ensures
        payload_keys(slot_status_payload(parent, status)) == seq!["parent"@, "status"@],
        payload_keys(slot_status_payload(parent, status)).no_duplicates(),
        slot_status_payload(parent, status)[1].1 == JsonView::Str(status_label(status)),
{
    reveal_strlit("parent");
    reveal_strlit("status");
    assert(payload_keys(slot_status_payload(parent, status)) =~= seq!["parent"@, "status"@]);
    assert("parent"@.len() == 6 && "status"@.len() == 6);
    assert("parent"@[0] == 'p' && "status"@[0] == 's');
}

/// Builds canonical records: one entry point per event category, plus a
/// generic one for lifecycle markers.
pub struct StructuredLogger;

impl StructuredLogger {
    /// Builds a record with the current time as its timestamp.
    pub fn log(event_type: &str, slot: Option<u64>, data: JsonObject) -> (e: LogEntry)
        ensures
            e@.event_type == event_type@,
            e@.slot == slot,
            e@.data == data@,
    {
        LogEntry::new(current_timestamp(), event_type, slot, data)
    }

    /// Normalizes an account update into its payload.
    pub fn account_update_data(account: &AccountUpdate, is_startup: bool) -> (o: JsonObject)
        ensures
            o@ == account_update_payload(*account, is_startup),
    {
        let mut o = JsonObject::new();
        match account {
            AccountUpdate::V1 => {
                o.push_str_field("version", String::from_str("V1"));
                o.push_str_field("error", String::from_str("Version not supported"));
                proof {
                    assert(o@ =~= account_update_payload(*account, is_startup));
                }
            },
            AccountUpdate::V2 { pubkey, owner, lamports, data_len, executable, rent_epoch } => {
                o.push_str_field("version", String::from_str("V2"));
                o.push_str_field("pubkey", encode_base58(pubkey.as_slice()));
                o.push_str_field("owner", encode_base58(owner.as_slice()));
                o.push_u64_field("lamports", *lamports);
                o.push_u64_field("data_len", *data_len);
                o.push_bool_field("executable", *executable);
                o.push_u64_field("rent_epoch", *rent_epoch);
                o.push_bool_field("is_startup", is_startup);
                proof {
                    assert(o@ =~= account_update_payload(*account, is_startup));
                }
            },
            AccountUpdate::V3 {
                pubkey,
                owner,
                lamports,
                data_len,
                executable,
                rent_epoch,
                write_version,
            } => {
                o.push_str_field("version", String::from_str("V3"));
                o.push_str_field("pubkey", encode_base58(pubkey.as_slice()));
                o.push_str_field("owner", encode_base58(owner.as_slice()));
                o.push_u64_field("lamports", *lamports);
                o.push_u64_field("data_len", *data_len);
                o.push_bool_field("executable", *executable);
                o.push_u64_field("rent_epoch", *rent_epoch);
                o.push_u64_field("write_version", *write_version);
                o.push_bool_field("is_startup", is_startup);
                proof {
                    assert(o@ =~= account_update_payload(*account, is_startup));
                }
            },
        }
        o
    }

    /// Normalizes and timestamps an account update.
    pub fn log_account_update(account: &AccountUpdate, slot: u64, is_startup: bool) -> (e:
        LogEntry)
        ensures
            e@.event_type == "account_update"@,
            e@.slot == Some(slot),
            e@.data == account_update_payload(*account, is_startup),
    {
        Self::log("account_update", Some(slot), Self::account_update_data(account, is_startup))
    }

    /// Normalizes a transaction into its payload.
    pub fn transaction_data(transaction: &TransactionNotice) -> (o: JsonObject)
        ensures
            o@ == transaction_payload(*transaction),
    {
        let mut o = JsonObject::new();
        match transaction {
            TransactionNotice::V1 { signature, is_vote } => {
                o.push_str_field("version", String::from_str("V1"));
                o.push_str_field("signature", encode_base58(signature.as_slice()));
                o.push_bool_field("is_vote", *is_vote);
                o.push_bool_field("transaction_logged", true);
                proof {
                    assert(o@ =~= transaction_payload(*transaction));
                }
            },
            TransactionNotice::V2 { signature, is_vote, index } => {
                o.push_str_field("version", String::from_str("V2"));
                o.push_str_field("signature", encode_base58(signature.as_slice()));
                o.push_bool_field("is_vote", *is_vote);
                o.push_bool_field("transaction_logged", true);
                o.push_u64_field("index", *index);
                proof {
                    assert(o@ =~= transaction_payload(*transaction));
                }
            },
            TransactionNotice::V3 { signature, is_vote, index } => {
                o.push_str_field("version", String::from_str("V3"));
                o.push_str_field("signature", encode_base58(signature.as_slice()));
                o.push_bool_field("is_vote", *is_vote);
                o.push_bool_field("transaction_logged", true);
                o.push_u64_field("index", *index);
                proof {
                    assert(o@ =~= transaction_payload(*transaction));
                }
            },
        }
        o
    }

    /// Normalizes and timestamps a transaction.
    pub fn log_transaction(transaction: &TransactionNotice, slot: u64) -> (e: LogEntry)
        ensures
            e@.event_type == "transaction"@,
            e@.slot == Some(slot),
            e@.data == transaction_payload(*transaction),
    {
        Self::log("transaction", Some(slot), Self::transaction_data(transaction))
    }

    /// Normalizes block metadata into its payload.
    pub fn block_metadata_data(block: &BlockMetadata) -> (o: JsonObject)
        ensures
            o@ == block_metadata_payload(*block),
    {
        let mut o = JsonObject::new();
        match block {
            BlockMetadata::V1 { slot: _, blockhash, rewards, block_time } => {
                o.push_str_field("version", String::from_str("V1"));
                o.push_str_field("blockhash", encode_base58(blockhash.as_slice()));
                o.push_str_field("rewards", rewards.clone());
                match block_time {
                    Some(t) => o.push_i64_field("block_time", *t),
                    None => o.push_null_field("block_time"),
                }
                proof {
                    assert(o@ =~= block_metadata_payload(*block));
                }
            },
            BlockMetadata::V2 { slot: _, blockhash, rewards, block_time, block_height } => {
                o.push_str_field("version", String::from_str("V2"));
                o.push_str_field("blockhash", encode_base58(blockhash.as_slice()));
                o.push_str_field("rewards", rewards.clone());
                match block_time {
                    Some(t) => o.push_i64_field("block_time", *t),
                    None => o.push_null_field("block_time"),
                }
                match block_height {
                    Some(h) => o.push_u64_field("block_height", *h),
                    None => o.push_null_field("block_height"),
                }
                proof {
                    assert(o@ =~= block_metadata_payload(*block));
                }
            },
            BlockMetadata::V3 {
                slot: _,
                blockhash,
                rewards,
                block_time,
                block_height,
                executed_transaction_count,
            } => {
                o.push_str_field("version", String::from_str("V3"));
                o.push_str_field("blockhash", encode_base58(blockhash.as_slice()));
                o.push_str_field("rewards", rewards.clone());
                match block_time {
                    Some(t) => o.push_i64_field("block_time", *t),
                    None => o.push_null_field("block_time"),
                }
                match block_height {
                    Some(h) => o.push_u64_field("block_height", *h),
                    None => o.push_null_field("block_height"),
                }
                o.push_u64_field("executed_transaction_count", *executed_transaction_count);
                proof {
                    assert(o@ =~= block_metadata_payload(*block));
                }
            },
            BlockMetadata::V4 {
                slot: _,
                blockhash,
                rewards,
                block_time,
                block_height,
                executed_transaction_count,
            } => {
                o.push_str_field("version", String::from_str("V4"));
                o.push_str_field("blockhash", encode_base58(blockhash.as_slice()));
                o.push_str_field("rewards", rewards.clone());
                match block_time {
                    Some(t) => o.push_i64_field("block_time", *t),
                    None => o.push_null_field("block_time"),
                }
                match block_height {
                    Some(h) => o.push_u64_field("block_height", *h),
                    None => o.push_null_field("block_height"),
                }
                o.push_u64_field("executed_transaction_count", *executed_transaction_count);
                proof {
                    assert(o@ =~= block_metadata_payload(*block));
                }
            },
        }
        o
    }

    /// Normalizes and timestamps block metadata. The record's slot is the
    /// block's own slot number.
    pub fn log_block_metadata(block: &BlockMetadata) -> (e: LogEntry)
        ensures
            e@.event_type == "block_metadata"@,
            e@.slot == Some(block_slot(*block)),
            e@.data == block_metadata_payload(*block),
    {
        let slot = block.slot_number();
        Self::log("block_metadata", Some(slot), Self::block_metadata_data(block))
    }

    /// Normalizes a slot-status transition into its payload.
    pub fn slot_status_data(parent: Option<u64>, status: &SlotStatus) -> (o: JsonObject)
        ensures
            o@ == slot_status_payload(parent, *status),
    {
        let mut o = JsonObject::new();
        match parent {
            Some(p) => o.push_u64_field("parent", p),
            None => o.push_null_field("parent"),
        }
        o.push_str_field("status", status.status_text());
        proof {
            assert(o@ =~= slot_status_payload(parent, *status));
        }
        o
    }

    /// Normalizes and timestamps a slot-status transition.
    pub fn log_slot_status(slot: u64, parent: Option<u64>, status: &SlotStatus) -> (e: LogEntry)
        ensures
            e@.event_type == "slot_status"@,
            e@.slot == Some(slot),
            e@.data == slot_status_payload(parent, *status),
    {
        Self::log("slot_status", Some(slot), Self::slot_status_data(parent, status))
    }
}

} // verus!

