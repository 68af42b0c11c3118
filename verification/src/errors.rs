//! The error taxonomy: a closed set of reason codes, one stable wire-level
//! failure shape, and total classification functions from validation reports
//! and storage failures into that shape. Nothing unrecognized ever carries
//! its own detail to the caller.

use crate::rules::Invalidation;
use vstd::prelude::*;

verus! {

/// The discriminated top-level classification of a failed call. Exactly one
/// variant is active per error; `Invalid` is the only one with a payload.
#[derive(Debug, Clone, PartialEq, Eq)]
pub enum ErrorReason {
    BadRequest,
    Invalid(Vec<(String, Invalidation)>),
    Unauthorized,
    Forbidden,
    NotFound,
    Conflict,
    Internal,
    ServiceUnavailable,
    GatewayTimeout,
}

/// The failure kinds a storage collaborator can report.
#[derive(Debug, Clone, Copy, PartialEq, Eq)]
pub enum StorageFailure {
    /// A malformed query or protocol error.
    Protocol,
    ColumnIndexOutOfBounds,
    ColumnNotFound,
    ColumnDecode,
    Decode,
    /// The requested record does not exist.
    RowNotFound,
    /// The connection pool has been closed.
    PoolClosed,
    /// An I/O or transport failure.
    Io,
    Tls,
    /// Waiting for a pooled connection timed out.
    PoolTimedOut,
    /// Anything unrecognized.
    Other,
}

/// The fixed message for anything unclassified; it never carries internal
/// detail.
pub open spec fn spec_internal_message() -> Seq<char> {
    "Internal server error"@
}

/// The fixed mapping from storage failure kinds to reasons.
pub open spec fn spec_storage_reason(k: StorageFailure) -> ErrorReason {
    match k {
        StorageFailure::Protocol => ErrorReason::BadRequest,
        StorageFailure::ColumnIndexOutOfBounds => ErrorReason::BadRequest,
        StorageFailure::ColumnNotFound => ErrorReason::BadRequest,
        StorageFailure::ColumnDecode => ErrorReason::BadRequest,
        StorageFailure::Decode => ErrorReason::BadRequest,
        StorageFailure::RowNotFound => ErrorReason::NotFound,
        StorageFailure::PoolClosed => ErrorReason::ServiceUnavailable,
        StorageFailure::Io => ErrorReason::ServiceUnavailable,
        StorageFailure::Tls => ErrorReason::ServiceUnavailable,
        StorageFailure::PoolTimedOut => ErrorReason::GatewayTimeout,
        StorageFailure::Other => ErrorReason::Internal,
    }
}

/// The fixed message for each storage failure kind.
pub open spec fn spec_storage_message(k: StorageFailure) -> Seq<char> {
    match k {
        StorageFailure::Protocol => "Protocol error - Bad Request"@,
        StorageFailure::ColumnIndexOutOfBounds => "Column index out of bounds - Bad Request"@,
        StorageFailure::ColumnNotFound => "Column not found - Bad Request"@,
        StorageFailure::ColumnDecode => "Column decode error - Bad Request"@,
        StorageFailure::Decode => "Decode error - Bad Request"@,
        StorageFailure::RowNotFound => "Entry not found"@,
        StorageFailure::PoolClosed => "Database pool closed - Service Unavailable"@,
        StorageFailure::Io => "Database I/O error - Service Unavailable"@,
        StorageFailure::Tls => "Database TLS error - Service Unavailable"@,
        StorageFailure::PoolTimedOut => "Database pool timed out (504 Gateway Timeout)"@,
        StorageFailure::Other => spec_internal_message(),
    }
}

/// The single wire-level failure shape returned to the caller.
#[derive(Debug, Clone, PartialEq, Eq)]
pub struct ErrorResponse {
    pub reason: ErrorReason,
    pub message: String,
    /// Milliseconds since the Unix epoch, taken when the error is built.
    pub timestamp: i64,
}

/// Relies on `std::time::SystemTime::now`: the current wall-clock time in
/// milliseconds since the Unix epoch, or 0 on a clock set before the epoch,
/// so the read never panics. Two calls need not be related, so nothing is
/// promised of the result.
#[verifier::external_body]
fn now_millis() -> i64 {
    match std::time::SystemTime::now().duration_since(std::time::UNIX_EPOCH) {
        Ok(elapsed) => elapsed.as_millis() as i64,
        Err(_) => 0,
    }
}

impl ErrorResponse {
    /// Builds a terminal error value; the timestamp is taken here and is the
    /// only part of the value the contract leaves open.
    pub fn new(reason: ErrorReason, message: String) -> (r: ErrorResponse)
        ensures
            r.reason == reason,
            r.message == message,
    {
        ErrorResponse { reason, message, timestamp: now_millis() }
    }

    /// The default/fatal error: `Internal` with the fixed message.
    pub fn internal() -> (r: ErrorResponse)
        ensures
            r.reason is Internal,
            r.message@ == spec_internal_message(),
    {
        ErrorResponse::new(ErrorReason::Internal, String::from_str("Internal server error"))
    }

    /// Wraps a per-field violation report in the wire shape: the reason is
    /// `Invalid` carrying the report, the top-level message is fixed.
    pub fn from_validation(violations: Vec<(String, Invalidation)>) -> (r: ErrorResponse)
        ensures
            r.reason == ErrorReason::Invalid(violations),
            r.message@ == "One or more fields are invalid"@,
    {
        ErrorResponse::new(
            ErrorReason::Invalid(violations),
            String::from_str("One or more fields are invalid"),
        )
    }

    /// Classifies a storage failure by the fixed, total table: every kind
    /// gets a reason from the closed set, and the unrecognized kind gets the
    /// fixed internal message, never its own detail.
    pub fn from_storage_failure(kind: StorageFailure) -> (r: ErrorResponse)
        ensures
            r.reason == spec_storage_reason(kind),
            r.message@ == spec_storage_message(kind),
    {
        match kind {
            StorageFailure::Protocol => ErrorResponse::new(
                ErrorReason::BadRequest,
                String::from_str("Protocol error - Bad Request"),
            ),
            StorageFailure::ColumnIndexOutOfBounds => ErrorResponse::new(
                ErrorReason::BadRequest,
                String::from_str("Column index out of bounds - Bad Request"),
            ),
            StorageFailure::ColumnNotFound => ErrorResponse::new(
                ErrorReason::BadRequest,
                String::from_str("Column not found - Bad Request"),
            ),
            StorageFailure::ColumnDecode => ErrorResponse::new(
                ErrorReason::BadRequest,
                String::from_str("Column decode error - Bad Request"),
            ),
            StorageFailure::Decode => ErrorResponse::new(
                ErrorReason::BadRequest,
                String::from_str("Decode error - Bad Request"),
            ),
            StorageFailure::RowNotFound => ErrorResponse::new(
                ErrorReason::NotFound,
                String::from_str("Entry not found"),
            ),
            StorageFailure::PoolClosed => ErrorResponse::new(
                ErrorReason::ServiceUnavailable,
                String::from_str("Database pool closed - Service Unavailable"),
            ),
            StorageFailure::Io => ErrorResponse::new(
                ErrorReason::ServiceUnavailable,
                String::from_str("Database I/O error - Service Unavailable"),
            ),
            StorageFailure::Tls => ErrorResponse::new(
                ErrorReason::ServiceUnavailable,
                String::from_str("Database TLS error - Service Unavailable"),
            ),
            StorageFailure::PoolTimedOut => ErrorResponse::new(
                ErrorReason::GatewayTimeout,
                String::from_str("Database pool timed out (504 Gateway Timeout)"),
            ),
            StorageFailure::Other => ErrorResponse::internal(),
        }
    }

    /// Classifies anything not already classified: always `Internal` with
    /// the fixed message, whatever `_detail` holds. Nothing of the failure
    /// ever reaches the caller.
    pub fn from_unexpected(_detail: &str) -> (r: ErrorResponse)
        ensures
            r.reason is Internal,
            r.message@ == spec_internal_message(),
    {
        ErrorResponse::internal()
    }
}

impl Default for ErrorResponse {
    /// The same value as `internal`: `Internal` with the fixed message.
    fn default() -> (r: ErrorResponse)
        ensures
            r.reason is Internal,
            r.message@ == spec_internal_message(),
    {
        ErrorResponse::internal()
    }
}

/// Totality: every storage failure kind is classified into the closed reason
/// set of the fixed table; no kind falls outside it.
pub proof fn lemma_storage_taxonomy_total(k: StorageFailure)
    ensures
        spec_storage_reason(k) is BadRequest || spec_storage_reason(k) is NotFound
            || spec_storage_reason(k) is ServiceUnavailable || spec_storage_reason(
            k,
        ) is GatewayTimeout || spec_storage_reason(k) is Internal,
{
}

/// Idempotent mapping: two conversions of the same validation report agree
/// on reason and message; only their timestamps may differ.
pub proof fn lemma_validation_mapping_idempotent(
    e1: ErrorResponse,
    e2: ErrorResponse,
    v: Vec<(String, Invalidation)>,
)
    requires
        e1.reason == ErrorReason::Invalid(v),
        e1.message@ == "One or more fields are invalid"@,
        e2.reason == ErrorReason::Invalid(v),
        e2.message@ == "One or more fields are invalid"@,
    ensures
        e1.reason == e2.reason,
        e1.message@ == e2.message@,
{
}

} // verus!
