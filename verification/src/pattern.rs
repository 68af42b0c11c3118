//! Compiled match patterns. A pattern is compiled once, at process start,
//! and the compiled form is reused for every call; the compilation and the
//! matching are done by the `regex` crate behind trusted wrappers.

use vstd::prelude::*;

verus! {

#[verifier::external_type_specification]
#[verifier::external_body]
pub struct ExRegex(regex::Regex);

/// Whether `pattern` is a pattern that compiles. Names the success of
/// `regex::Regex::new`, which depends on the pattern alone.
pub uninterp spec fn pattern_compiles(pattern: Seq<char>) -> bool;

/// Whether the pattern matches somewhere in `text`; the library's declared
/// patterns are anchored, so for them a match constrains the whole value.
/// Names the result of `regex::Regex::is_match`, which is a function of the
/// compiled pattern and the haystack alone.
pub uninterp spec fn regex_match(pattern: Seq<char>, text: Seq<char>) -> bool;

/// A pattern together with its compiled automaton. Only `compile` builds a
/// value of this type, so the automaton always stems from `pattern`.
pub struct CompiledPattern {
    pattern: String,
    regex: regex::Regex,
}

impl CompiledPattern {
    /// The pattern this automaton was compiled from.
    pub closed spec fn spec_pattern(&self) -> Seq<char> {
        self.pattern@
    }

    /// Relies on `regex::Regex::new`: compilation succeeds or fails by the
    /// pattern alone, and on success the returned automaton is the compiled
    /// form of `pattern`, which is kept beside it.
    #[verifier::external_body]
    pub fn compile(pattern: &str) -> (r: Option<CompiledPattern>)
        ensures
            (r is Some) == pattern_compiles(pattern@),
            r matches Some(p) ==> p.spec_pattern() == pattern@,
    {
        match regex::Regex::new(pattern) {
            Ok(regex) => Some(CompiledPattern { pattern: pattern.to_owned(), regex }),
            Err(_) => None,
        }
    }

    /// Relies on `regex::Regex::is_match`: whether `text` matches depends on
    /// the pattern the automaton was compiled from and on `text` alone.
    #[verifier::external_body]
    pub fn is_match(&self, text: &str) -> (r: bool)
        ensures
            r == regex_match(self.spec_pattern(), text@),
    {
        self.regex.is_match(text)
    }
}

} // verus!
