//! The user records and their declared rule tables: an explicit,
//! inspectable mapping from field name to ordered rules, built once at
//! startup with its patterns compiled, and injected into validation.

use crate::pattern::{pattern_compiles, CompiledPattern};
use crate::rules::Rule;
use crate::validation::{FieldSchema, Validate};
use vstd::prelude::*;

verus! {

/// A stored user record, as read back from storage.
#[derive(Debug, Clone, PartialEq, Eq)]
pub struct UserAll {
    pub id: String,
    pub username: String,
    pub password: String,
    pub email: String,
}

/// The registration request: the stored record without the generated
/// identifier.
#[derive(Debug, Clone, PartialEq, Eq)]
pub struct UserRegistration {
    pub username: String,
    pub password: String,
    pub email: String,
}

/// The username rule: the whole value matches this pattern.
pub open spec fn spec_username_pattern() -> Seq<char> {
    "^[a-zA-Z0-9_]{1,32}$"@
}

/// The identifier rule: the value is a version-4 UUID.
pub open spec fn spec_uuid_pattern() -> Seq<char> {
    "^[0-9a-fA-F]{8}-[0-9a-fA-F]{4}-4[0-9a-fA-F]{3}-[89abAB][0-9a-fA-F]{3}-[0-9a-fA-F]{12}$"@
}

/// Whether `fs` declares exactly one pattern rule for the field `name`.
pub open spec fn spec_pattern_field(
    fs: FieldSchema,
    name: Seq<char>,
    code: Seq<char>,
    pattern: Seq<char>,
) -> bool {
    fs.name@ == name && fs.rules@.len() == 1 && (fs.rules@[0] matches Rule::Pattern {
        code: c,
        pattern: p,
    } && c@ == code && p.spec_pattern() == pattern)
}

/// Whether `fs` is the password field with its length rule.
pub open spec fn spec_password_field(fs: FieldSchema) -> bool {
    fs.name@ == "password"@ && fs.rules@.len() == 1 && (fs.rules@[0] matches Rule::Length {
        min,
        max,
    } && min == 5 && max == 1024)
}

/// Whether `fs` is the email field with its e-mail rule.
pub open spec fn spec_email_field(fs: FieldSchema) -> bool {
    fs.name@ == "email"@ && fs.rules@.len() == 1 && fs.rules@[0] is Email
}

/// The declared rule table of `UserRegistration`: username pattern,
/// password length between 5 and 1024, syntactically valid e-mail.
pub open spec fn spec_registration_schema(s: Seq<FieldSchema>) -> bool {
    s.len() == 3 && spec_pattern_field(s[0], "username"@, "username"@, spec_username_pattern())
        && spec_password_field(s[1]) && spec_email_field(s[2])
}

/// The declared rule table of `UserAll`: the identifier's UUID pattern,
/// then the registration rules.
pub open spec fn spec_user_all_schema(s: Seq<FieldSchema>) -> bool {
    s.len() == 4 && spec_pattern_field(s[0], "id"@, "uuid"@, spec_uuid_pattern())
        && spec_pattern_field(s[1], "username"@, "username"@, spec_username_pattern())
        && spec_password_field(s[2]) && spec_email_field(s[3])
}

/// One pattern field declaration, with its pattern compiled.
fn pattern_field(name: &str, code: &str, pattern: &str) -> (r: Option<FieldSchema>)
    ensures
        (r is Some) == pattern_compiles(pattern@),
        r matches Some(fs) ==> spec_pattern_field(fs, name@, code@, pattern@),
{
    let compiled = match CompiledPattern::compile(pattern) {
        Some(p) => p,
        None => {
            return None;
        },
    };
    let mut rules: Vec<Rule> = Vec::new();
    rules.push(Rule::Pattern { code: String::from_str(code), pattern: compiled });
    Some(FieldSchema { name: String::from_str(name), rules })
}

/// The password field declaration.
fn password_field() -> (r: FieldSchema)
    ensures
        spec_password_field(r),
{
    let mut rules: Vec<Rule> = Vec::new();
    rules.push(Rule::Length { min: 5, max: 1024 });
    FieldSchema { name: String::from_str("password"), rules }
}

/// The email field declaration.
fn email_field() -> (r: FieldSchema)
    ensures
        spec_email_field(r),
{
    let mut rules: Vec<Rule> = Vec::new();
    rules.push(Rule::Email);
    FieldSchema { name: String::from_str("email"), rules }
}

/// Builds the registration rule table, compiling its pattern once; `None`
/// exactly when the pattern does not compile, a startup-time configuration
/// failure.
pub fn user_registration_rules() -> (r: Option<Vec<FieldSchema>>)
    ensures
        (r is Some) == pattern_compiles(spec_username_pattern()),
        r matches Some(s) ==> spec_registration_schema(s@),
{
    let username = match pattern_field("username", "username", "^[a-zA-Z0-9_]{1,32}$") {
        Some(fs) => fs,
        None => {
            return None;
        },
    };
    let mut s: Vec<FieldSchema> = Vec::new();
    s.push(username);
    s.push(password_field());
    s.push(email_field());
    Some(s)
}

/// Builds the stored record's rule table, compiling its patterns once;
/// `None` exactly when one of its patterns does not compile.
pub fn user_all_rules() -> (r: Option<Vec<FieldSchema>>)
    ensures
        (r is Some) == (pattern_compiles(spec_uuid_pattern()) && pattern_compiles(
            spec_username_pattern(),
        )),
        r matches Some(s) ==> spec_user_all_schema(s@),
{
    let id = match pattern_field(
        "id",
        "uuid",
        "^[0-9a-fA-F]{8}-[0-9a-fA-F]{4}-4[0-9a-fA-F]{3}-[89abAB][0-9a-fA-F]{3}-[0-9a-fA-F]{12}$",
    ) {
        Some(fs) => fs,
        None => {
            return None;
        },
    };
    let username = match pattern_field("username", "username", "^[a-zA-Z0-9_]{1,32}$") {
        Some(fs) => fs,
        None => {
            return None;
        },
    };
    let mut s: Vec<FieldSchema> = Vec::new();
    s.push(id);
    s.push(username);
    s.push(password_field());
    s.push(email_field());
    Some(s)
}

/// The registration rule table declares pairwise distinct field names, so
/// a violation report for it never carries a field twice.
pub proof fn lemma_registration_names_unique(s: Seq<FieldSchema>)
    requires
        spec_registration_schema(s),
    ensures
        crate::validation::schema_names_unique(s),
{
    reveal_strlit("username");
    reveal_strlit("password");
    reveal_strlit("email");
    assert("username"@[0] != "password"@[0]);
    assert("username"@[0] != "email"@[0]);
    assert("password"@[0] != "email"@[0]);
}

/// The stored record's rule table declares pairwise distinct field names.
pub proof fn lemma_user_all_names_unique(s: Seq<FieldSchema>)
    requires
        spec_user_all_schema(s),
    ensures
        crate::validation::schema_names_unique(s),
{
    reveal_strlit("id");
    reveal_strlit("username");
    reveal_strlit("password");
    reveal_strlit("email");
    assert("id"@.len() != "username"@.len());
    assert("id"@.len() != "password"@.len());
    assert("id"@.len() != "email"@.len());
    assert("username"@[0] != "password"@[0]);
    assert("username"@[0] != "email"@[0]);
    assert("password"@[0] != "email"@[0]);
}

impl Validate for UserRegistration {
    open spec fn schema_ok(s: Seq<FieldSchema>) -> bool {
        spec_registration_schema(s)
    }

    open spec fn spec_fields(&self) -> Seq<Seq<char>> {
        seq![self.username@, self.password@, self.email@]
    }

    proof fn lemma_schema_len(&self, s: Seq<FieldSchema>) {
    }

    fn field_values(&self) -> (r: Vec<String>) {
        let mut r: Vec<String> = Vec::new();
        r.push(self.username.clone());
        r.push(self.password.clone());
        r.push(self.email.clone());
        proof {
            assert(r.deep_view() =~= self.spec_fields());
        }
        r
    }
}

impl Validate for UserAll {
    open spec fn schema_ok(s: Seq<FieldSchema>) -> bool {
        spec_user_all_schema(s)
    }

    open spec fn spec_fields(&self) -> Seq<Seq<char>> {
        seq![self.id@, self.username@, self.password@, self.email@]
    }

    proof fn lemma_schema_len(&self, s: Seq<FieldSchema>) {
    }

    fn field_values(&self) -> (r: Vec<String>) {
        let mut r: Vec<String> = Vec::new();
        r.push(self.id.clone());
        r.push(self.username.clone());
        r.push(self.password.clone());
        r.push(self.email.clone());
        proof {
            assert(r.deep_view() =~= self.spec_fields());
        }
        r
    }
}

impl From<UserAll> for UserRegistration {
    /// Drops the generated identifier and keeps the registration fields.
    fn from(value: UserAll) -> (r: UserRegistration) {
        UserRegistration {
            username: value.username,
            password: value.password,
            email: value.email,
        }
    }
}

impl vstd::std_specs::convert::FromSpecImpl<UserAll> for UserRegistration {
    open spec fn obeys_from_spec() -> bool {
        true
    }

    open spec fn from_spec(t: UserAll) -> UserRegistration {
        UserRegistration { username: t.username, password: t.password, email: t.email }
    }
}

} // verus!
