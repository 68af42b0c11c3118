//! Field rules and their evaluation: one declared rule applied to one field
//! value yields either acceptance or a structured `Invalidation`.

use crate::digits::{spec_decimal, u64_to_string};
use crate::pattern::{regex_match, CompiledPattern};
use vstd::prelude::*;

verus! {

/// Whether `s` is a syntactically valid e-mail address. Names the result of
/// `validator::ValidateEmail::validate_email` for `&str`, which is a function
/// of the characters alone.
pub uninterp spec fn email_valid(s: Seq<char>) -> bool;

/// Relies on `validator::ValidateEmail for &str`: the HTML5 e-mail check
/// depends only on the characters; its source rejects an empty string.
#[verifier::external_body]
fn check_email(s: &str) -> (r: bool)
    ensures
        r == email_valid(s@),
        s@.len() == 0 ==> !r,
{
    validator::ValidateEmail::validate_email(&s)
}

/// One declared validation rule for a field.
pub enum Rule {
    /// The value must match `pattern` somewhere; the declared patterns are
    /// anchored, so for them a match constrains the whole value. Reported
    /// under `code`, except that the internal generic code "regex" is
    /// surfaced as "pattern match".
    Pattern { code: String, pattern: CompiledPattern },
    /// The number of characters must lie between `min` and `max`, inclusive.
    Length { min: u64, max: u64 },
    /// The value must be a syntactically valid e-mail address.
    Email,
}

/// Whether `v` satisfies the rule `r`.
pub open spec fn rule_holds(r: Rule, v: Seq<char>) -> bool {
    match r {
        Rule::Pattern { code, pattern } => regex_match(pattern.spec_pattern(), v),
        Rule::Length { min, max } => min <= v.len() && v.len() <= max,
        Rule::Email => email_valid(v),
    }
}

/// The code under which a rule is surfaced to the caller. The generic
/// pattern-matcher's internal code "regex" is remapped to "pattern match";
/// every other code is reported as declared.
pub open spec fn spec_public_code(r: Rule) -> Seq<char> {
    match r {
        Rule::Pattern { code, pattern } => if code@ == "regex"@ {
            "pattern match"@
        } else {
            code@
        },
        Rule::Length { min, max } => "length"@,
        Rule::Email => "email"@,
    }
}

/// The default human-readable message for a failed rule.
pub open spec fn spec_message(r: Rule) -> Seq<char> {
    "Given value is not a valid "@ + spec_public_code(r)
}

/// Whether `params` is the rule's parameter mapping with the value key
/// excluded: the bounds for a length rule, nothing for the others.
pub open spec fn spec_params_ok(params: Seq<(String, String)>, r: Rule) -> bool {
    match r {
        Rule::Length { min, max } => params.len() == 2 && params[0].0@ == "min"@
            && params[0].1@ == spec_decimal(min as nat) && params[1].0@ == "max"@
            && params[1].1@ == spec_decimal(max as nat),
        _ => params.len() == 0,
    }
}

/// Why one field was rejected: the first failing rule's public code, a
/// default message, the offending value echoed back, and the rule's
/// parameters without the value itself.
#[derive(Debug, Clone, PartialEq, Eq)]
pub struct Invalidation {
    pub code: String,
    pub message: String,
    pub value: String,
    pub rules: Vec<(String, String)>,
}

impl Invalidation {
    pub fn new(code: String, message: String, value: String, rules: Vec<(String, String)>) -> (r:
        Invalidation)
        ensures
            r.code == code,
            r.message == message,
            r.value == value,
            r.rules == rules,
    {
        Invalidation { code, message, value, rules }
    }
}

/// Whether `inv` is exactly the invalidation that the failed rule `r`
/// produces for the offending value `v`.
pub open spec fn inv_matches(inv: Invalidation, r: Rule, v: Seq<char>) -> bool {
    inv.code@ == spec_public_code(r) && inv.message@ == spec_message(r) && inv.value@ == v
        && spec_params_ok(inv.rules@, r)
}

/// The default message string for a rule's public code.
fn default_message(public_code: &str) -> (r: String)
    ensures
        r@ == "Given value is not a valid "@ + public_code@,
{
    String::from_str("Given value is not a valid ").concat(public_code)
}

/// Evaluates one declared rule against one field value: `None` on
/// acceptance, otherwise the structured violation.
pub fn evaluate(rule: &Rule, value: &str) -> (r: Option<Invalidation>)
    ensures
        (r is None) <==> rule_holds(*rule, value@),
        r matches Some(inv) ==> inv_matches(inv, *rule, value@),
{
    match rule {
        Rule::Pattern { code, pattern } => {
            if pattern.is_match(value) {
                None
            } else {
                let public = if *code == String::from_str("regex") {
                    String::from_str("pattern match")
                } else {
                    code.clone()
                };
                let message = default_message(public.as_str());
                Some(Invalidation::new(public, message, value.to_owned(), Vec::new()))
            }
        },
        Rule::Length { min, max } => {
            let len = value.unicode_len();
            if *min <= len as u64 && len as u64 <= *max {
                None
            } else {
                let mut params: Vec<(String, String)> = Vec::new();
                params.push((String::from_str("min"), u64_to_string(*min)));
                params.push((String::from_str("max"), u64_to_string(*max)));
                let message = default_message("length");
                Some(Invalidation::new(
                    String::from_str("length"),
                    message,
                    value.to_owned(),
                    params,
                ))
            }
        },
        Rule::Email => {
            if check_email(value) {
                None
            } else {
                let message = default_message("email");
                Some(Invalidation::new(
                    String::from_str("email"),
                    message,
                    value.to_owned(),
                    Vec::new(),
                ))
            }
        },
    }
}

} // verus!
