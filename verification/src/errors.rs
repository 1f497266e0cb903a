//! The pipeline's failure taxonomy.
//!
//! Only a failure to open the sink is surfaced to the pipeline's caller;
//! every steady-state failure is recorded as a diagnostic and swallowed.

use vstd::prelude::*;

verus! {

/// What can go wrong in the logging pipeline.
#[derive(Debug, Clone, Copy, PartialEq, Eq, Structural)]
pub enum LoggerError {
    /// The output sink could not be opened; fatal to pipeline creation and
    /// the only error surfaced synchronously to the constructor's caller.
    SinkUnavailable,
    /// A record was submitted after the worker terminated; recorded as a
    /// local diagnostic, never surfaced to the producer.
    ChannelClosed,
    /// A record could not be rendered to text; the record is dropped and
    /// processing continues.
    SerializationFailure,
    /// An I/O error while appending to the sink; processing continues with
    /// the next record.
    WriteFailure,
    /// An I/O error while flushing the sink; processing continues with the
    /// next record.
    FlushFailure,
}

impl LoggerError {
    /// A short diagnostic label for the error.
    pub fn describe(&self) -> (r: &'static str)
        ensures
            r@ == match *self {
                LoggerError::SinkUnavailable => "sink unavailable"@,
                LoggerError::ChannelClosed => "channel closed"@,
                LoggerError::SerializationFailure => "serialization failure"@,
                LoggerError::WriteFailure => "write failure"@,
                LoggerError::FlushFailure => "flush failure"@,
            },
    {
        match self {
            LoggerError::SinkUnavailable => "sink unavailable",
            LoggerError::ChannelClosed => "channel closed",
            LoggerError::SerializationFailure => "serialization failure",
            LoggerError::WriteFailure => "write failure",
            LoggerError::FlushFailure => "flush failure",
        }
    }
}

} // verus!
