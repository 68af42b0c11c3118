//! The procedure registry: a process-wide mapping from procedure name to a
//! typed handler, built once at startup and read-only afterwards. A
//! duplicate name is a startup-time configuration error, never a runtime
//! one.

use vstd::prelude::*;

verus! {

/// The registered procedures of this process, a closed set: the transport
/// resolves a name to one of these and the dispatcher invokes the matching
/// typed handler.
#[derive(Debug, Clone, Copy, PartialEq, Eq)]
pub enum ProcedureId {
    /// Registers a new user and returns the generated identifier.
    RegisterUser,
}

/// A startup-time configuration error while building the registry.
#[derive(Debug, Clone, Copy, PartialEq, Eq)]
pub enum RegistryError {
    /// The name is already registered.
    DuplicateName,
}

/// Compares two strings character by character.
pub fn str_eq(a: &str, b: &str) -> (r: bool)
    ensures
        r == (a@ == b@),
{
    let la = a.unicode_len();
    let lb = b.unicode_len();
    if la != lb {
        return false;
    }
    let mut i: usize = 0;
    while i < la
        invariant
            la == a@.len(),
            la == b@.len(),
            i <= la,
            forall|k: int| 0 <= k < i ==> a@[k] == b@[k],
        decreases la - i,
    {
        if a.get_char(i) != b.get_char(i) {
            return false;
        }
        i += 1;
    }
    proof {
        assert(a@ =~= b@);
    }
    true
}

/// The first registration for `name`, if any.
pub open spec fn spec_resolve(
    entries: Seq<(String, ProcedureId)>,
    name: Seq<char>,
) -> Option<ProcedureId>
    decreases entries.len(),
{
    if entries.len() == 0 {
        None
    } else if entries[0].0@ == name {
        Some(entries[0].1)
    } else {
        spec_resolve(entries.drop_first(), name)
    }
}

/// Whether some entry is registered under `name`.
pub open spec fn spec_registered(entries: Seq<(String, ProcedureId)>, name: Seq<char>) -> bool {
    exists|i: int| 0 <= i < entries.len() && #[trigger] entries[i].0@ == name
}

/// If the first `i` entries do not carry `name` and entry `i` does, then
/// resolution yields entry `i`.
proof fn lemma_resolve_at(entries: Seq<(String, ProcedureId)>, name: Seq<char>, i: int)
    requires
        0 <= i < entries.len(),
        forall|k: int| 0 <= k < i ==> #[trigger] entries[k].0@ != name,
        entries[i].0@ == name,
    ensures
        spec_resolve(entries, name) == Some(entries[i].1),
    decreases i,
{
    if i > 0 {
        let rest = entries.drop_first();
        assert(forall|k: int| 0 <= k < i - 1 ==> #[trigger] rest[k].0@ == entries[k + 1].0@);
        assert(rest[i - 1] == entries[i]);
        lemma_resolve_at(rest, name, i - 1);
    }
}

/// If no entry carries `name`, resolution yields nothing.
proof fn lemma_resolve_none(entries: Seq<(String, ProcedureId)>, name: Seq<char>)
    requires
        forall|k: int| 0 <= k < entries.len() ==> #[trigger] entries[k].0@ != name,
    ensures
        spec_resolve(entries, name) is None,
    decreases entries.len(),
{
    if entries.len() > 0 {
        let rest = entries.drop_first();
        assert(forall|k: int| 0 <= k < rest.len() ==> #[trigger] rest[k].0@ == entries[k + 1].0@);
        lemma_resolve_none(rest, name);
    }
}

/// The registry: procedure names with their typed handlers' identities.
pub struct Registry {
    entries: Vec<(String, ProcedureId)>,
}

impl View for Registry {
    type V = Seq<(String, ProcedureId)>;

    closed spec fn view(&self) -> Seq<(String, ProcedureId)> {
        self.entries@
    }
}

impl Registry {
    /// An empty registry.
    pub fn new() -> (r: Registry)
        ensures
            r@.len() == 0,
    {
        Registry { entries: Vec::new() }
    }

    /// Registers a handler under `name`. A duplicate name is refused and
    /// leaves the registry unchanged; it is a configuration error to be
    /// treated as fatal at startup.
    pub fn register(&mut self, name: String, procedure: ProcedureId) -> (r: Result<
        (),
        RegistryError,
    >)
        ensures
            spec_registered(old(self)@, name@) ==> r is Err && final(self)@ == old(self)@,
            !spec_registered(old(self)@, name@) ==> r is Ok && final(self)@ == old(self)@.push(
                (name, procedure),
            ),
    {
        let n = self.entries.len();
        let mut i: usize = 0;
        while i < n
            invariant
                n == self.entries@.len(),
                i <= n,
                forall|k: int| 0 <= k < i ==> #[trigger] self.entries@[k].0@ != name@,
            decreases n - i,
        {
            if str_eq(self.entries[i].0.as_str(), name.as_str()) {
                return Err(RegistryError::DuplicateName);
            }
            i += 1;
        }
        self.entries.push((name, procedure));
        Ok(())
    }

    /// Resolves a procedure name to its handler's identity; an unregistered
    /// name resolves to nothing.
    pub fn resolve(&self, name: &str) -> (r: Option<ProcedureId>)
        ensures
            r == spec_resolve(self@, name@),
    {
        let n = self.entries.len();
        let mut i: usize = 0;
        while i < n
            invariant
                n == self.entries@.len(),
                i <= n,
                forall|k: int| 0 <= k < i ==> #[trigger] self.entries@[k].0@ != name@,
            decreases n - i,
        {
            if str_eq(self.entries[i].0.as_str(), name) {
                proof {
                    lemma_resolve_at(self.entries@, name@, i as int);
                }
                return Some(self.entries[i].1);
            }
            i += 1;
        }
        proof {
            lemma_resolve_none(self.entries@, name@);
        }
        None
    }
}

} // verus!
