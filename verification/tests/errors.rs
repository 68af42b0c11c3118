use breezi::digits::u64_to_string;
use breezi::errors::{ErrorReason, ErrorResponse, StorageFailure};
use breezi::rules::Invalidation;

const ALL_KINDS: [StorageFailure; 11] = [
    StorageFailure::Protocol,
    StorageFailure::ColumnIndexOutOfBounds,
    StorageFailure::ColumnNotFound,
    StorageFailure::ColumnDecode,
    StorageFailure::Decode,
    StorageFailure::RowNotFound,
    StorageFailure::PoolClosed,
    StorageFailure::Io,
    StorageFailure::Tls,
    StorageFailure::PoolTimedOut,
    StorageFailure::Other,
];

#[test]
fn from_storage_failure_given_any_kind_then_reason_from_fixed_table() {
    for kind in ALL_KINDS {
        let err = ErrorResponse::from_storage_failure(kind);
        assert!(
            matches!(
                err.reason,
                ErrorReason::BadRequest
                    | ErrorReason::NotFound
                    | ErrorReason::ServiceUnavailable
                    | ErrorReason::GatewayTimeout
                    | ErrorReason::Internal
            ),
            "unexpected reason for {kind:?}"
        );
    }
}

#[test]
fn from_storage_failure_given_each_kind_then_exact_reason_and_message() {
    let table: [(StorageFailure, ErrorReason, &str); 11] = [
        (StorageFailure::Protocol, ErrorReason::BadRequest, "Protocol error - Bad Request"),
        (
            StorageFailure::ColumnIndexOutOfBounds,
            ErrorReason::BadRequest,
            "Column index out of bounds - Bad Request",
        ),
        (StorageFailure::ColumnNotFound, ErrorReason::BadRequest, "Column not found - Bad Request"),
        (
            StorageFailure::ColumnDecode,
            ErrorReason::BadRequest,
            "Column decode error - Bad Request",
        ),
        (StorageFailure::Decode, ErrorReason::BadRequest, "Decode error - Bad Request"),
        (StorageFailure::RowNotFound, ErrorReason::NotFound, "Entry not found"),
        (
            StorageFailure::PoolClosed,
            ErrorReason::ServiceUnavailable,
            "Database pool closed - Service Unavailable",
        ),
        (
            StorageFailure::Io,
            ErrorReason::ServiceUnavailable,
            "Database I/O error - Service Unavailable",
        ),
        (
            StorageFailure::Tls,
            ErrorReason::ServiceUnavailable,
            "Database TLS error - Service Unavailable",
        ),
        (
            StorageFailure::PoolTimedOut,
            ErrorReason::GatewayTimeout,
            "Database pool timed out (504 Gateway Timeout)",
        ),
        (StorageFailure::Other, ErrorReason::Internal, "Internal server error"),
    ];
    for (kind, reason, message) in table {
        let err = ErrorResponse::from_storage_failure(kind);
        assert_eq!(err.reason, reason, "reason for {kind:?}");
        assert_eq!(err.message, message, "message for {kind:?}");
    }
}

#[test]
fn from_storage_failure_given_pool_closed_then_service_unavailable() {
    let err = ErrorResponse::from_storage_failure(StorageFailure::PoolClosed);
    assert_eq!(err.reason, ErrorReason::ServiceUnavailable);
    assert_eq!(err.message, "Database pool closed - Service Unavailable");
}

#[test]
fn from_unexpected_given_any_detail_then_fixed_internal_message() {
    let first = ErrorResponse::from_unexpected("stack trace at /src/db.rs:42: SECRET-REDACTED");
    assert_eq!(first.reason, ErrorReason::Internal);
    assert_eq!(first.message, "Internal server error");

    let second = ErrorResponse::from_unexpected("");
    assert_eq!(second.reason, ErrorReason::Internal);
    assert_eq!(second.message, "Internal server error");

    assert!(!first.message.contains("db.rs"));
}

#[test]
fn from_validation_given_same_report_twice_then_reason_and_payload_equal() {
    let report = || {
        vec![(
            "email".to_string(),
            Invalidation::new(
                "email".to_string(),
                "Given value is not a valid email".to_string(),
                "nope".to_string(),
                vec![],
            ),
        )]
    };
    let first = ErrorResponse::from_validation(report());
    let second = ErrorResponse::from_validation(report());
    assert_eq!(first.reason, second.reason);
    assert_eq!(first.message, second.message);
    assert_eq!(first.message, "One or more fields are invalid");
}

#[test]
fn internal_and_default_agree() {
    let internal = ErrorResponse::internal();
    assert_eq!(internal.reason, ErrorReason::Internal);
    assert_eq!(internal.message, "Internal server error");

    let default = ErrorResponse::default();
    assert_eq!(default.reason, ErrorReason::Internal);
    assert_eq!(default.message, "Internal server error");
}

#[test]
fn u64_to_string_renders_exact_decimals() {
    assert_eq!(u64_to_string(0), "0");
    assert_eq!(u64_to_string(5), "5");
    assert_eq!(u64_to_string(10), "10");
    assert_eq!(u64_to_string(1024), "1024");
    assert_eq!(u64_to_string(u64::MAX), "18446744073709551615");
}
