//! The standardized operation-result record and its two constructors.

use vstd::prelude::*;
use crate::json::JsonValue;

verus! {

/// The outcome of one invocation of a fallible operation.
///
/// Exactly one of `message` (on success) or `error`/`error_type` (on
/// failure) is populated, and `data` is only ever populated on success:
/// see [`Self::well_formed`]. The `timestamp` field is the moment the
/// record was built, in milliseconds since the Unix epoch, UTC.
#[derive(Debug, PartialEq)]
pub struct OperationResult {
    pub success: bool,
    pub data: Option<JsonValue>,
    pub message: Option<String>,
    pub error: Option<String>,
    pub error_type: Option<String>,
    pub timestamp: i64,
}

impl OperationResult {
    /// The envelope's invariant: a success carries a message and no error
    /// fields, a failure carries both error fields and neither payload nor
    /// message. Both constructors establish it.
    pub open spec fn well_formed(self) -> bool {
        if self.success {
            self.message is Some && self.error is None && self.error_type is None
        } else {
            self.error is Some && self.error_type is Some && self.data is None
                && self.message is None
        }
    }

    /// A success record with the given payload and annotation, stamped
    /// with the given time.
    pub fn success_at(data: Option<JsonValue>, message: &str, timestamp: i64) -> (r: Self)
        ensures
            r.success == true,
            r.data == data,
            r.message matches Some(m) && m@ == message@,
            r.error is None,
            r.error_type is None,
            r.timestamp == timestamp,
            r.well_formed(),
    {
        Self {
            success: true,
            data,
            message: Some(message.to_string()),
            error: None,
            error_type: None,
            timestamp,
        }
    }

    /// A success record stamped with the current time.
    pub fn success(data: Option<JsonValue>, message: &str) -> (r: Self)
        ensures
            r.success == true,
            r.data == data,
            r.message matches Some(m) && m@ == message@,
            r.error is None,
            r.error_type is None,
            r.well_formed(),
    {
        let now: i64 = now_millis();
        Self::success_at(data, message, now)
    }

    /// A failure record with the given description and classification,
    /// stamped with the given time.
    pub fn error_at(error: &str, error_type: &str, timestamp: i64) -> (r: Self)
        ensures
            r.success == false,
            r.data is None,
            r.message is None,
            r.error matches Some(e) && e@ == error@,
            r.error_type matches Some(t) && t@ == error_type@,
            r.timestamp == timestamp,
            r.well_formed(),
    {
        Self {
            success: false,
            data: None,
            message: None,
            error: Some(error.to_string()),
            error_type: Some(error_type.to_string()),
            timestamp,
        }
    }

    /// A failure record stamped with the current time.
    pub fn error(error: &str, error_type: &str) -> (r: Self)
        ensures
            r.success == false,
            r.data is None,
            r.message is None,
            r.error matches Some(e) && e@ == error@,
            r.error_type matches Some(t) && t@ == error_type@,
            r.well_formed(),
    {
        let now: i64 = now_millis();
        Self::error_at(error, error_type, now)
    }
}

/// Relies on chrono's `Utc::now` and `DateTime::timestamp_millis`: the
/// current UTC wall-clock time, read as milliseconds since the Unix epoch.
/// Nothing is promised of the value: a wall clock may move freely.
#[verifier::external_body]
fn now_millis() -> i64 {
    chrono::Utc::now().timestamp_millis()
}

} // verus!
