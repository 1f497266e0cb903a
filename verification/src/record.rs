//! The canonical record: the versionless shape every event is logged in.
//!
//! A record carries the submission timestamp, an event-kind discriminator,
//! an optional slot, and the normalized payload. Its persisted form is one
//! JSON object per line, specified here to the character.

use vstd::prelude::*;

verus! {

use vstd::string::StringExecFns;

use crate::json::JsonObject;
use crate::json::JsonView;
use crate::json::dec_digits;
use crate::json::object_text;
use crate::json::push_object;
use crate::json::push_string;
use crate::json::push_u64;
use crate::json::string_text;

/// One canonical log record. Constructed by the producer at submission
/// time, consumed exactly once by the writer, never mutated after
/// construction.
#[derive(Debug)]
pub struct LogEntry {
    /// The point in time the record was created, already rendered as text.
    pub timestamp: String,
    /// The event category discriminator, such as `account_update`.
    pub event_type: String,
    /// The slot the event belongs to; absent for lifecycle markers.
    pub slot: Option<u64>,
    /// The normalized, version-tagged payload.
    pub data: JsonObject,
}

/// The mathematical value of a record.
pub struct RecordView {
    pub timestamp: Seq<char>,
    pub event_type: Seq<char>,
    pub slot: Option<u64>,
    pub data: Seq<(Seq<char>, JsonView)>,
}

impl View for LogEntry {
    type V = RecordView;

    open spec fn view(&self) -> RecordView {
        RecordView {
            timestamp: self.timestamp@,
            event_type: self.event_type@,
            slot: self.slot,
            data: self.data@,
        }
    }
}

/// The text of the record's slot member: the slot number, or `null` for
/// records that have none.
pub open spec fn slot_text(slot: Option<u64>) -> Seq<char> {
    match slot {
        Some(n) => dec_digits(n as nat),
        None => seq!['n', 'u', 'l', 'l'],
    }
}

/// The persisted text of one record: a single JSON object holding the
/// timestamp, the event kind, the slot and the payload, in that order.
pub open spec fn record_text(r: RecordView) -> Seq<char> {
    seq!['{'] + string_text("timestamp"@) + seq![':'] + string_text(r.timestamp) + seq![',']
        + string_text("event_type"@) + seq![':'] + string_text(r.event_type) + seq![',']
        + string_text("slot"@) + seq![':'] + slot_text(r.slot) + seq![',']
        + string_text("data"@) + seq![':'] + object_text(r.data) + seq!['}']
}

impl LogEntry {
    /// Builds a record from its parts.
    pub fn new(timestamp: String, event_type: &str, slot: Option<u64>, data: JsonObject) -> (e:
        LogEntry)
        ensures
            e@.timestamp == timestamp@,
            e@.event_type == event_type@,
            e@.slot == slot,
            e@.data == data@,
    {
        LogEntry { timestamp, event_type: String::from_str(event_type), slot, data }
    }

    /// Renders the record to its persisted JSON text, without the line
    /// terminator.
    pub fn render(&self) -> (r: String)
        ensures
            r@ == record_text(self@),
    {
        let mut out = String::new();
        out.push('{');
        push_string(&mut out, "timestamp");
        out.push(':');
        push_string(&mut out, self.timestamp.as_str());
        out.push(',');
        push_string(&mut out, "event_type");
        out.push(':');
        push_string(&mut out, self.event_type.as_str());
        out.push(',');
        push_string(&mut out, "slot");
        out.push(':');
        match &self.slot {
            Some(n) => push_u64(&mut out, *n),
            None => {
                out.push('n');
                out.push('u');
                out.push('l');
                out.push('l');
            },
        }
        out.push(',');
        push_string(&mut out, "data");
        out.push(':');
        push_object(&mut out, &self.data);
        out.push('}');
        proof {
            assert(out@ =~= record_text(self@));
        }
        out
    }
}

/// Relies on chrono's `Utc::now` and `to_rfc3339` for the submission
/// timestamp. The clock's reading cannot be pinned down, so nothing is
/// assumed of the returned text.
#[verifier::external_body]
pub(crate) fn current_timestamp() -> (r: String) {
    chrono::Utc::now().to_rfc3339()
}

} // verus!
