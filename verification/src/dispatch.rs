//! The per-call control flow: resolve the procedure name, take the decoded
//! payload, validate it, and either reject with one terminal error or hand
//! the validated input to the registered handler; afterwards, map the
//! storage collaborator's answer to the call's terminal outcome. Rejections
//! complete before any storage interaction.

use crate::errors::{
    spec_storage_message, spec_storage_reason, ErrorReason, ErrorResponse, StorageFailure,
};
use crate::registry::{spec_resolve, ProcedureId, Registry};
use crate::user::UserRegistration;
use crate::validation::{object_passes, validate_with, violations_match, FieldSchema, Validate};
use vstd::prelude::*;

verus! {

/// What the transport decoded for a call: the declared request type, or a
/// note that the payload did not parse.
pub enum Decoded<T> {
    Malformed,
    Payload(T),
}

/// The synchronous part of one call, terminal at either branch: reply with
/// this error and invoke nothing, or invoke the registered handler with the
/// validated input.
pub enum DispatchStep {
    Reject(ErrorResponse),
    InvokeRegister(UserRegistration),
}

/// The terminal outcome of a call once the storage collaborator has
/// answered: exactly one success payload or one error, never a mixture.
pub enum DispatchOutcome {
    Success(String),
    Failure(ErrorResponse),
}

/// Runs the synchronous part of one call. An unregistered name is rejected
/// at once, before validation and before any handler; a malformed payload
/// is rejected before validation; a payload with violations is rejected
/// with the full per-field report; only a fully valid payload reaches the
/// handler.
pub fn dispatch(
    registry: &Registry,
    procedure: &str,
    payload: Decoded<UserRegistration>,
    rules: &Vec<FieldSchema>,
) -> (r: DispatchStep)
    requires
        <UserRegistration as Validate>::schema_ok(rules@),
    ensures
        match spec_resolve(registry@, procedure@) {
            None => r matches DispatchStep::Reject(e) && e.reason is NotFound && e.message@
                == "Procedure not found"@,
            Some(pid) => pid is RegisterUser && match payload {
                Decoded::Malformed => r matches DispatchStep::Reject(e) && e.reason is BadRequest
                    && e.message@ == "Malformed request payload"@,
                Decoded::Payload(u) => if object_passes(rules@, u.spec_fields()) {
                    r == DispatchStep::InvokeRegister(u)
                } else {
                    r matches DispatchStep::Reject(e) && e.message@
                        == "One or more fields are invalid"@ && (e.reason matches
                    ErrorReason::Invalid(v) && violations_match(rules@, u.spec_fields(), v@)
                        && v@.len() > 0)
                },
            },
        },
{
    match registry.resolve(procedure) {
        None => DispatchStep::Reject(
            ErrorResponse::new(ErrorReason::NotFound, String::from_str("Procedure not found")),
        ),
        Some(pid) => match pid {
            ProcedureId::RegisterUser => match payload {
                Decoded::Malformed => DispatchStep::Reject(
                    ErrorResponse::new(
                        ErrorReason::BadRequest,
                        String::from_str("Malformed request payload"),
                    ),
                ),
                Decoded::Payload(u) => match validate_with(&u, rules) {
                    Ok(()) => DispatchStep::InvokeRegister(u),
                    Err(v) => DispatchStep::Reject(ErrorResponse::from_validation(v)),
                },
            },
        },
    }
}

/// Maps the storage collaborator's answer for the register procedure to the
/// call's terminal outcome: success carries the generated identifier
/// through unchanged, and every failure kind goes through the fixed
/// classification table.
pub fn complete_register(result: Result<String, StorageFailure>) -> (r: DispatchOutcome)
    ensures
        result matches Ok(id) ==> r == DispatchOutcome::Success(id),
        result matches Err(k) ==> r matches DispatchOutcome::Failure(e) && e.reason
            == spec_storage_reason(k) && e.message@ == spec_storage_message(k),
{
    match result {
        Ok(id) => DispatchOutcome::Success(id),
        Err(k) => DispatchOutcome::Failure(ErrorResponse::from_storage_failure(k)),
    }
}

} // verus!
