use breezi::errors::{ErrorReason, ErrorResponse};
use breezi::rules::{Invalidation, Rule};
use breezi::user::{user_registration_rules, UserAll, UserRegistration};
use breezi::validation::{first_violation, validate_with, FieldSchema, Validated};

fn registration_rules() -> Vec<FieldSchema> {
    user_registration_rules().expect("patterns should compile")
}

#[test]
fn register_given_invalid_email_then_error_invalid() {
    // Given
    let user_expected = UserRegistration {
        username: "username123".into(),
        email: "user!example.com".into(),
        password: "".into(),
    };

    // When
    let rules = registration_rules();
    let violations = validate_with(&user_expected, &rules).expect_err("user should be invalid");
    let err = ErrorResponse::from_validation(violations);

    // Then
    assert_eq!(err.message, "One or more fields are invalid".to_string());
    assert_eq!(
        err.reason,
        ErrorReason::Invalid(vec![
            (
                "password".to_string(),
                Invalidation::new(
                    "length".to_string(),
                    "Given value is not a valid length".to_string(),
                    "".to_string(),
                    vec![
                        ("min".to_string(), "5".to_string()),
                        ("max".to_string(), "1024".to_string()),
                    ],
                )
            ),
            (
                "email".to_string(),
                Invalidation::new(
                    "email".to_string(),
                    "Given value is not a valid email".to_string(),
                    "user!example.com".to_string(),
                    vec![],
                )
            ),
        ])
    );
}

#[test]
fn validate_given_short_username_bad_email_empty_password_then_email_and_length_reported() {
    let user = UserRegistration {
        username: "ab".into(),
        email: "bad".into(),
        password: "".into(),
    };

    let rules = registration_rules();
    let violations = validate_with(&user, &rules).expect_err("user should be invalid");

    // The username passes its pattern; password and email are each reported
    // once, in field-declaration order.
    assert_eq!(violations.len(), 2);
    assert_eq!(violations[0].0, "password");
    assert_eq!(violations[0].1.code, "length");
    assert_eq!(
        violations[0].1.rules,
        vec![
            ("min".to_string(), "5".to_string()),
            ("max".to_string(), "1024".to_string()),
        ]
    );
    assert_eq!(violations[1].0, "email");
    assert_eq!(violations[1].1.code, "email");
    assert_eq!(violations[1].1.value, "bad");
}

#[test]
fn validate_given_every_field_invalid_then_one_entry_per_field() {
    let user = UserRegistration {
        username: "not a valid username!".into(),
        email: "nope".into(),
        password: "x".into(),
    };

    let rules = registration_rules();
    let violations = validate_with(&user, &rules).expect_err("user should be invalid");

    assert_eq!(violations.len(), 3);
    assert_eq!(violations[0].0, "username");
    assert_eq!(violations[0].1.code, "username");
    assert_eq!(violations[1].0, "password");
    assert_eq!(violations[1].1.code, "length");
    assert_eq!(violations[2].0, "email");
    assert_eq!(violations[2].1.code, "email");
}

#[test]
fn validate_given_valid_user_then_ok() {
    let user = UserRegistration {
        username: "username123".into(),
        email: "user@example.com".into(),
        password: "password".into(),
    };

    let rules = registration_rules();
    assert!(validate_with(&user, &rules).is_ok());
}

#[test]
fn first_violation_given_two_failing_rules_then_first_declared_wins() {
    // An empty value violates both the length rule and the email rule; only
    // the first-declared rule's invalidation is reported.
    let rules = vec![Rule::Length { min: 5, max: 10 }, Rule::Email];
    let inv = first_violation(&rules, "").expect("empty value should fail");
    assert_eq!(inv.code, "length");
    assert_eq!(inv.message, "Given value is not a valid length");

    // With the declaration order reversed, the email rule wins instead.
    let rules = vec![Rule::Email, Rule::Length { min: 5, max: 10 }];
    let inv = first_violation(&rules, "").expect("empty value should fail");
    assert_eq!(inv.code, "email");
}

#[test]
fn evaluate_given_generic_regex_code_then_surfaced_as_pattern_match() {
    let pattern = breezi::pattern::CompiledPattern::compile("^[a-z]+$")
        .expect("pattern should compile");
    let rules = vec![Rule::Pattern {
        code: "regex".to_string(),
        pattern,
    }];
    assert!(first_violation(&rules, "abc").is_none());
    let inv = first_violation(&rules, "ABC").expect("uppercase should not match");
    assert_eq!(inv.code, "pattern match");
    assert_eq!(inv.message, "Given value is not a valid pattern match");
    assert_eq!(inv.value, "ABC");
    assert_eq!(inv.rules, vec![]);
}

#[test]
fn validated_new_given_valid_user_then_wraps_it() {
    let user = UserRegistration {
        username: "username123".into(),
        email: "user@example.com".into(),
        password: "password".into(),
    };
    let rules = registration_rules();
    let validated = Validated::new(user.clone(), &rules).expect("user should be valid");
    assert_eq!(validated.0, user);
}

#[test]
fn validated_new_given_invalid_user_then_reports_violations() {
    let user = UserRegistration {
        username: "username123".into(),
        email: "user!example.com".into(),
        password: "password".into(),
    };
    let rules = registration_rules();
    let violations = Validated::new(user, &rules).expect_err("user should be invalid");
    assert_eq!(violations.len(), 1);
    assert_eq!(violations[0].0, "email");
}

#[test]
fn user_all_into_registration_keeps_field_values() {
    let all = UserAll {
        id: "3fa4a2cc-69b9-4009-8b13-9952b852a951".into(),
        username: "username123".into(),
        password: "password".into(),
        email: "user@example.com".into(),
    };
    let registration: UserRegistration = all.into();
    assert_eq!(
        registration,
        UserRegistration {
            username: "username123".into(),
            password: "password".into(),
            email: "user@example.com".into(),
        }
    );
}

#[test]
fn user_all_rules_given_valid_record_then_ok() {
    let rules = breezi::user::user_all_rules().expect("patterns should compile");
    let all = UserAll {
        id: "3fa4a2cc-69b9-4009-8b13-9952b852a951".into(),
        username: "username123".into(),
        password: "password".into(),
        email: "user@example.com".into(),
    };
    assert!(validate_with(&all, &rules).is_ok());

    let bad = UserAll {
        id: "not-a-uuid".into(),
        username: "username123".into(),
        password: "password".into(),
        email: "user@example.com".into(),
    };
    let violations = validate_with(&bad, &rules).expect_err("id should be invalid");
    assert_eq!(violations.len(), 1);
    assert_eq!(violations[0].0, "id");
    assert_eq!(violations[0].1.code, "uuid");
}
