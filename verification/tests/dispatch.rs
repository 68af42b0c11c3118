use breezi::dispatch::{complete_register, dispatch, Decoded, DispatchOutcome, DispatchStep};
use breezi::errors::{ErrorReason, StorageFailure};
use breezi::registry::{ProcedureId, Registry, RegistryError};
use breezi::user::{user_registration_rules, UserRegistration};
use breezi::validation::FieldSchema;

fn setup() -> (Registry, Vec<FieldSchema>) {
    let mut registry = Registry::new();
    registry
        .register("register".to_string(), ProcedureId::RegisterUser)
        .expect("first registration should succeed");
    let rules = user_registration_rules().expect("patterns should compile");
    (registry, rules)
}

fn valid_user() -> UserRegistration {
    UserRegistration {
        username: "username123".into(),
        email: "user@example.com".into(),
        password: "password".into(),
    }
}

#[test]
fn register_given_duplicate_name_then_configuration_error() {
    let (mut registry, _) = setup();
    let refused = registry.register("register".to_string(), ProcedureId::RegisterUser);
    assert_eq!(refused, Err(RegistryError::DuplicateName));
}

#[test]
fn resolve_given_registered_name_then_handler_found() {
    let (registry, _) = setup();
    assert_eq!(registry.resolve("register"), Some(ProcedureId::RegisterUser));
    assert_eq!(registry.resolve("unregister"), None);
    assert_eq!(registry.resolve(""), None);
}

#[test]
fn dispatch_given_unknown_procedure_then_not_found_without_validation() {
    let (registry, rules) = setup();
    // Even a payload that would fail validation is not looked at: the
    // unknown name is rejected first.
    let invalid_payload = Decoded::Payload(UserRegistration {
        username: "!!".into(),
        email: "bad".into(),
        password: "".into(),
    });
    match dispatch(&registry, "no_such_procedure", invalid_payload, &rules) {
        DispatchStep::Reject(e) => {
            assert_eq!(e.reason, ErrorReason::NotFound);
            assert_eq!(e.message, "Procedure not found");
        },
        DispatchStep::InvokeRegister(_) => panic!("no handler should be invoked"),
    }
}

#[test]
fn dispatch_given_malformed_payload_then_bad_request() {
    let (registry, rules) = setup();
    match dispatch(&registry, "register", Decoded::Malformed, &rules) {
        DispatchStep::Reject(e) => {
            assert_eq!(e.reason, ErrorReason::BadRequest);
            assert_eq!(e.message, "Malformed request payload");
        },
        DispatchStep::InvokeRegister(_) => panic!("no handler should be invoked"),
    }
}

#[test]
fn dispatch_given_invalid_payload_then_invalid_with_full_report() {
    let (registry, rules) = setup();
    let payload = Decoded::Payload(UserRegistration {
        username: "username123".into(),
        email: "user!example.com".into(),
        password: "".into(),
    });
    match dispatch(&registry, "register", payload, &rules) {
        DispatchStep::Reject(e) => {
            assert_eq!(e.message, "One or more fields are invalid");
            match e.reason {
                ErrorReason::Invalid(violations) => {
                    assert_eq!(violations.len(), 2);
                    assert_eq!(violations[0].0, "password");
                    assert_eq!(violations[1].0, "email");
                },
                other => panic!("expected Invalid, got {other:?}"),
            }
        },
        DispatchStep::InvokeRegister(_) => panic!("no handler should be invoked"),
    }
}

#[test]
fn dispatch_given_valid_payload_then_handler_invoked_with_it() {
    let (registry, rules) = setup();
    match dispatch(&registry, "register", Decoded::Payload(valid_user()), &rules) {
        DispatchStep::InvokeRegister(user) => assert_eq!(user, valid_user()),
        DispatchStep::Reject(e) => panic!("expected invocation, got {e:?}"),
    }
}

#[test]
fn complete_register_given_success_then_identifier_carried_through() {
    let id = "3fa4a2cc-69b9-4009-8b13-9952b852a951".to_string();
    match complete_register(Ok(id.clone())) {
        DispatchOutcome::Success(out) => assert_eq!(out, id),
        DispatchOutcome::Failure(e) => panic!("expected success, got {e:?}"),
    }
}

#[test]
fn complete_register_given_pool_closed_then_service_unavailable() {
    match complete_register(Err(StorageFailure::PoolClosed)) {
        DispatchOutcome::Failure(e) => {
            assert_eq!(e.reason, ErrorReason::ServiceUnavailable);
            assert_eq!(e.message, "Database pool closed - Service Unavailable");
        },
        DispatchOutcome::Success(_) => panic!("expected failure"),
    }
}
