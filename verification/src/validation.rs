//! Object validation: every declared field of a request type is checked
//! against all of its declared rules, in declaration order, and at most one
//! `Invalidation` is recorded per field — the first failing rule wins — while
//! no field is skipped because an earlier one failed.

use crate::rules::{evaluate, inv_matches, rule_holds, Invalidation, Rule};
use vstd::prelude::*;

verus! {

/// One declared field of a request type: its name and the ordered list of
/// rules that its value must satisfy.
pub struct FieldSchema {
    pub name: String,
    pub rules: Vec<Rule>,
}

/// Whether a field value satisfies every rule in `rules`.
pub open spec fn field_passes(rules: Seq<Rule>, v: Seq<char>) -> bool {
    forall|k: int| 0 <= k < rules.len() ==> rule_holds(rules[k], v)
}

/// The index of the first rule in `rules` that `v` violates (`rules.len()`
/// when every rule holds).
pub open spec fn first_fail(rules: Seq<Rule>, v: Seq<char>) -> int
    decreases rules.len(),
{
    if rules.len() == 0 {
        0
    } else if !rule_holds(rules[0], v) {
        0
    } else {
        1 + first_fail(rules.drop_first(), v)
    }
}

/// Whether `inv` is the invalidation of the first rule of `fs` that `v`
/// violates.
pub open spec fn field_violation_ok(fs: FieldSchema, v: Seq<char>, inv: Invalidation) -> bool {
    inv_matches(inv, fs.rules@[first_fail(fs.rules@, v)], v)
}

/// The indices of the fields whose value violates at least one of their
/// rules, in ascending field-declaration order.
pub open spec fn failing_fields(schema: Seq<FieldSchema>, vals: Seq<Seq<char>>) -> Seq<int>
    decreases schema.len(),
{
    if schema.len() == 0 {
        Seq::empty()
    } else {
        let n = schema.len() - 1;
        let init = failing_fields(schema.take(n), vals.take(n));
        if field_passes(schema[n].rules@, vals[n]) {
            init
        } else {
            init.push(n)
        }
    }
}

/// Whether every field of the object satisfies all of its rules.
pub open spec fn object_passes(schema: Seq<FieldSchema>, vals: Seq<Seq<char>>) -> bool {
    forall|i: int| 0 <= i < schema.len() ==> field_passes(schema[i].rules@, vals[i])
}

/// Whether `out` is exactly the violation report for the object: one entry
/// per failing field, in field-declaration order, keyed by the field's name
/// and carrying its first failing rule's invalidation.
pub open spec fn violations_match(
    schema: Seq<FieldSchema>,
    vals: Seq<Seq<char>>,
    out: Seq<(String, Invalidation)>,
) -> bool {
    let f = failing_fields(schema, vals);
    out.len() == f.len() && forall|j: int|
        0 <= j < f.len() ==> out[j].0@ == schema[#[trigger] f[j]].name@ && field_violation_ok(
            schema[f[j]],
            vals[f[j]],
            out[j].1,
        )
}

/// If rules 0 .. j of a field pass and rule j fails, then j is the first
/// failing rule.
proof fn lemma_first_fail_at(rules: Seq<Rule>, v: Seq<char>, j: int)
    requires
        0 <= j < rules.len(),
        !rule_holds(rules[j], v),
        forall|k: int| 0 <= k < j ==> rule_holds(rules[k], v),
    ensures
        first_fail(rules, v) == j,
    decreases j,
{
    if j > 0 {
        assert(rule_holds(rules[0], v));
        let rest = rules.drop_first();
        assert(forall|k: int| 0 <= k < j - 1 ==> rest[k] == rules[k + 1]);
        assert(rest[j - 1] == rules[j]);
        lemma_first_fail_at(rest, v, j - 1);
    }
}

/// Extending the validated prefix by one field appends that field's index to
/// the failing set exactly when the field fails.
proof fn lemma_failing_fields_step(schema: Seq<FieldSchema>, vals: Seq<Seq<char>>, i: int)
    requires
        0 <= i < schema.len(),
        vals.len() == schema.len(),
    ensures
        failing_fields(schema.take(i + 1), vals.take(i + 1)) == if field_passes(
            schema[i].rules@,
            vals[i],
        ) {
            failing_fields(schema.take(i), vals.take(i))
        } else {
            failing_fields(schema.take(i), vals.take(i)).push(i)
        },
{
    let s1 = schema.take(i + 1);
    let v1 = vals.take(i + 1);
    assert(s1.len() == i + 1);
    assert(s1.take(i) =~= schema.take(i));
    assert(v1.take(i) =~= vals.take(i));
    assert(s1[i] == schema[i]);
    assert(v1[i] == vals[i]);
}

/// Every entry of the failing set is the index of a declared field.
proof fn lemma_failing_fields_in_range(schema: Seq<FieldSchema>, vals: Seq<Seq<char>>)
    ensures
        forall|j: int|
            0 <= j < failing_fields(schema, vals).len() ==> 0 <= #[trigger] failing_fields(
                schema,
                vals,
            )[j] < schema.len(),
    decreases schema.len(),
{
    if schema.len() > 0 {
        let n = schema.len() - 1;
        let init = failing_fields(schema.take(n), vals.take(n));
        lemma_failing_fields_in_range(schema.take(n), vals.take(n));
        assert(schema.take(n).len() == n);
        let f = failing_fields(schema, vals);
        if field_passes(schema[n].rules@, vals[n]) {
            assert(f == init);
        } else {
            assert(f == init.push(n));
            assert(forall|j: int| 0 <= j < init.len() ==> f[j] == #[trigger] init[j]);
            assert(f[init.len() as int] == n);
        }
    }
}

/// The failing set is empty exactly when every field passes.
proof fn lemma_failing_fields_empty(schema: Seq<FieldSchema>, vals: Seq<Seq<char>>)
    requires
        vals.len() == schema.len(),
    ensures
        failing_fields(schema, vals).len() == 0 <==> object_passes(schema, vals),
    decreases schema.len(),
{
    if schema.len() > 0 {
        let n = schema.len() - 1;
        lemma_failing_fields_empty(schema.take(n), vals.take(n));
        assert(forall|i: int|
            0 <= i < n ==> schema.take(n)[i] == schema[i] && vals.take(n)[i] == vals[i]);
        if failing_fields(schema, vals).len() == 0 {
            assert(object_passes(schema.take(n), vals.take(n)));
            assert(forall|i: int| #![trigger schema[i]]
                0 <= i < schema.len() ==> field_passes(schema[i].rules@, vals[i])) by {
                assert(forall|i: int|
                    0 <= i < n ==> field_passes(schema.take(n)[i].rules@, vals.take(n)[i]));
            }
        } else {
            assert(!object_passes(schema, vals)) by {
                if failing_fields(schema.take(n), vals.take(n)).len() > 0 {
                    assert(!object_passes(schema.take(n), vals.take(n)));
                }
            }
        }
    }
}

/// Runs a field's rules in declaration order and reports the first
/// violation, if any: later failing rules are not reported.
pub fn first_violation(rules: &Vec<Rule>, value: &str) -> (r: Option<Invalidation>)
    ensures
        (r is None) <==> field_passes(rules@, value@),
        r matches Some(inv) ==> inv_matches(inv, rules@[first_fail(rules@, value@)], value@),
{
    let mut j: usize = 0;
    while j < rules.len()
        invariant
            j <= rules@.len(),
            forall|k: int| 0 <= k < j ==> rule_holds(rules@[k], value@),
        decreases rules@.len() - j,
    {
        match evaluate(&rules[j], value) {
            None => {
                j += 1;
            },
            Some(inv) => {
                proof {
                    lemma_first_fail_at(rules@, value@, j as int);
                }
                return Some(inv);
            },
        }
    }
    None
}

/// Validates every declared field against all of its rules: the result holds
/// one entry per failing field, keyed by field name, in declaration order,
/// each carrying the field's first failing rule's invalidation; it is empty
/// exactly when the whole object passes.
pub fn validate_object(schema: &Vec<FieldSchema>, values: &Vec<String>) -> (r: Vec<
    (String, Invalidation),
>)
    requires
        values@.len() == schema@.len(),
    ensures
        violations_match(schema@, values.deep_view(), r@),
        r@.len() == 0 <==> object_passes(schema@, values.deep_view()),
{
    let ghost vals = values.deep_view();
    proof {
        assert(vals.len() == values@.len());
        assert(forall|i: int| 0 <= i < vals.len() ==> vals[i] == values@[i]@);
    }
    let mut out: Vec<(String, Invalidation)> = Vec::new();
    let mut i: usize = 0;
    while i < schema.len()
        invariant
            i <= schema@.len(),
            values@.len() == schema@.len(),
            vals == values.deep_view(),
            vals.len() == values@.len(),
            forall|k: int| 0 <= k < vals.len() ==> vals[k] == values@[k]@,
            violations_match(schema@.take(i as int), vals.take(i as int), out@),
        decreases schema@.len() - i,
    {
        let fs = &schema[i];
        let value = &values[i];
        let found = first_violation(&fs.rules, value.as_str());
        let ghost old_out = out@;
        let ghost old_f = failing_fields(schema@.take(i as int), vals.take(i as int));
        proof {
            lemma_failing_fields_step(schema@, vals, i as int);
            lemma_failing_fields_in_range(schema@.take(i as int), vals.take(i as int));
            assert(schema@.take(i as int).len() == i);
            assert(forall|j2: int| 0 <= j2 < old_f.len() ==> 0 <= #[trigger] old_f[j2] < i);
            assert(forall|k: int|
                0 <= k < i ==> schema@.take(i as int + 1)[k] == #[trigger] schema@.take(
                    i as int,
                )[k]);
            assert(forall|k: int|
                0 <= k < i ==> vals.take(i as int + 1)[k] == #[trigger] vals.take(i as int)[k]);
        }
        match found {
            None => {
                assert(field_passes(fs.rules@, vals[i as int]));
                assert(failing_fields(schema@.take(i as int + 1), vals.take(i as int + 1))
                    == old_f);
            },
            Some(inv) => {
                out.push((fs.name.clone(), inv));
                proof {
                    let f1 = failing_fields(
                        schema@.take(i as int + 1),
                        vals.take(i as int + 1),
                    );
                    assert(f1 == old_f.push(i as int));
                    assert(forall|j2: int| 0 <= j2 < old_f.len() ==> f1[j2] == #[trigger] old_f[j2]);
                    assert(f1[old_f.len() as int] == i as int);
                    assert(schema@.take(i as int + 1)[i as int] == schema@[i as int]);
                    assert(vals.take(i as int + 1)[i as int] == vals[i as int]);
                    assert(out@[old_f.len() as int].0@ == schema@[i as int].name@);
                    assert(field_violation_ok(schema@[i as int], vals[i as int], inv));
                }
            },
        }
        i += 1;
    }
    proof {
        assert(schema@.take(schema@.len() as int) =~= schema@);
        assert(vals.take(schema@.len() as int) =~= vals);
        lemma_failing_fields_empty(schema@, vals);
    }
    out
}

/// Whether the declared field names of a request type are pairwise
/// distinct.
pub open spec fn schema_names_unique(schema: Seq<FieldSchema>) -> bool {
    forall|i: int, j: int|
        0 <= i < j < schema.len() ==> (#[trigger] schema[i].name@) != (#[trigger] schema[j].name@)
}

/// The failing set is strictly increasing: each field is reported at most
/// once, in declaration order.
proof fn lemma_failing_fields_increasing(schema: Seq<FieldSchema>, vals: Seq<Seq<char>>)
    ensures
        forall|i: int, j: int|
            0 <= i < j < failing_fields(schema, vals).len() ==> #[trigger] failing_fields(
                schema,
                vals,
            )[i] < #[trigger] failing_fields(schema, vals)[j],
    decreases schema.len(),
{
    if schema.len() > 0 {
        let n = schema.len() - 1;
        let init = failing_fields(schema.take(n), vals.take(n));
        lemma_failing_fields_increasing(schema.take(n), vals.take(n));
        lemma_failing_fields_in_range(schema.take(n), vals.take(n));
        assert(schema.take(n).len() == n);
        let f = failing_fields(schema, vals);
        if field_passes(schema[n].rules@, vals[n]) {
            assert(f == init);
        } else {
            assert(f == init.push(n));
            assert(forall|j: int| 0 <= j < init.len() ==> f[j] == #[trigger] init[j]);
            assert(f[init.len() as int] == n);
        }
    }
}

/// No violation is dropped and no field appears more than once: with
/// pairwise distinct declared field names, the report's keys are pairwise
/// distinct.
pub proof fn lemma_no_duplicate_fields(
    schema: Seq<FieldSchema>,
    vals: Seq<Seq<char>>,
    out: Seq<(String, Invalidation)>,
)
    requires
        vals.len() == schema.len(),
        schema_names_unique(schema),
        violations_match(schema, vals, out),
    ensures
        forall|i: int, j: int| 0 <= i < j < out.len() ==> out[i].0@ != out[j].0@,
{
    lemma_failing_fields_increasing(schema, vals);
    lemma_failing_fields_in_range(schema, vals);
    let f = failing_fields(schema, vals);
    assert forall|i: int, j: int| 0 <= i < j < out.len() implies out[i].0@ != out[j].0@ by {
        assert(f[i] < f[j]);
        assert(0 <= f[i] < schema.len());
        assert(0 <= f[j] < schema.len());
        assert(out[i].0@ == schema[f[i]].name@);
        assert(out[j].0@ == schema[f[j]].name@);
        assert(schema[f[i]].name@ != schema[f[j]].name@);
    }
}

/// A request type with a declared rule table: it can say which rule tables
/// are its own and hand out its field values in declaration order.
pub trait Validate: Sized {
    /// Whether `s` is this request type's declared rule table.
    spec fn schema_ok(s: Seq<FieldSchema>) -> bool;

    /// The field values of this instance, in field-declaration order.
    spec fn spec_fields(&self) -> Seq<Seq<char>>;

    /// A declared rule table has exactly one entry per field.
    proof fn lemma_schema_len(&self, s: Seq<FieldSchema>)
        requires
            Self::schema_ok(s),
        ensures
            s.len() == self.spec_fields().len(),
    ;

    /// Hands out the field values, in declaration order.
    fn field_values(&self) -> (r: Vec<String>)
        ensures
            r.deep_view() == self.spec_fields(),
    ;
}

/// Validates a whole request instance against its declared rule table:
/// `Ok` exactly when every field satisfies all of its rules, otherwise the
/// full per-field violation report.
pub fn validate_with<T: Validate>(value: &T, rules: &Vec<FieldSchema>) -> (r: Result<
    (),
    Vec<(String, Invalidation)>,
>)
    requires
        T::schema_ok(rules@),
    ensures
        (r is Ok) <==> object_passes(rules@, value.spec_fields()),
        r matches Err(v) ==> violations_match(rules@, value.spec_fields(), v@) && v@.len() > 0,
{
    proof {
        value.lemma_schema_len(rules@);
    }
    let values = value.field_values();
    let out = validate_object(rules, &values);
    if out.len() == 0 {
        Ok(())
    } else {
        Err(out)
    }
}

/// A request instance together with the fact that `new` checked it: `new`
/// hands one back only for an instance that passed validation against its
/// declared rule table.
#[derive(Debug, Clone)]
pub struct Validated<T>(pub T);

impl<T: Validate> Validated<T> {
    /// Validates `value` and wraps it; on failure the full violation report
    /// is returned instead.
    pub fn new(value: T, rules: &Vec<FieldSchema>) -> (r: Result<
        Validated<T>,
        Vec<(String, Invalidation)>,
    >)
        requires
            T::schema_ok(rules@),
        ensures
            (r is Ok) <==> object_passes(rules@, value.spec_fields()),
            r matches Ok(w) ==> w.0 == value,
            r matches Err(v) ==> violations_match(rules@, value.spec_fields(), v@) && v@.len()
                > 0,
    {
        match validate_with(&value, rules) {
            Ok(()) => Ok(Validated(value)),
            Err(v) => Err(v),
        }
    }
}

/// Aggregation: when every field violates at least one of its rules, the
/// report has exactly one entry per field, in declaration order, keyed by
/// the field's name and carrying its first failing rule's invalidation.
pub proof fn lemma_aggregation(
    schema: Seq<FieldSchema>,
    vals: Seq<Seq<char>>,
    out: Seq<(String, Invalidation)>,
)
    requires
        vals.len() == schema.len(),
        forall|i: int| 0 <= i < schema.len() ==> !field_passes(#[trigger] schema[i].rules@, vals[i]),
        violations_match(schema, vals, out),
    ensures
        out.len() == schema.len(),
        forall|i: int|
            0 <= i < schema.len() ==> out[i].0@ == (#[trigger] schema[i]).name@
                && field_violation_ok(schema[i], vals[i], out[i].1),
{
    lemma_failing_all(schema, vals);
    let f = failing_fields(schema, vals);
    assert forall|i: int|
        0 <= i < schema.len() implies out[i].0@ == (#[trigger] schema[i]).name@
        && field_violation_ok(schema[i], vals[i], out[i].1) by {
        assert(f[i] == i);
        assert(out[i].0@ == schema[f[i]].name@ && field_violation_ok(
            schema[f[i]],
            vals[f[i]],
            out[i].1,
        ));
    }
}

/// When every field fails, the failing set is exactly the field indices in
/// order.
proof fn lemma_failing_all(schema: Seq<FieldSchema>, vals: Seq<Seq<char>>)
    requires
        vals.len() == schema.len(),
        forall|i: int| 0 <= i < schema.len() ==> !field_passes(#[trigger] schema[i].rules@, vals[i]),
    ensures
        failing_fields(schema, vals) =~= Seq::new(schema.len(), |i: int| i),
    decreases schema.len(),
{
    if schema.len() > 0 {
        let n = schema.len() - 1;
        assert(forall|i: int|
            0 <= i < n ==> schema.take(n)[i] == #[trigger] schema[i] && vals.take(n)[i]
                == vals[i]);
        lemma_failing_all(schema.take(n), vals.take(n));
        assert(schema.take(n).len() == n);
        assert(!field_passes(schema[n].rules@, vals[n]));
    }
}

/// First-rule-wins: a field value that violates a later rule besides the
/// first rule it violates is reported under that first rule alone.
pub proof fn lemma_first_rule_wins(
    fs: FieldSchema,
    v: Seq<char>,
    i: int,
    j: int,
    inv: Invalidation,
)
    requires
        0 <= i < j < fs.rules@.len(),
        forall|k: int| 0 <= k < i ==> rule_holds(#[trigger] fs.rules@[k], v),
        !rule_holds(fs.rules@[i], v),
        !rule_holds(fs.rules@[j], v),
        field_violation_ok(fs, v, inv),
    ensures
        inv_matches(inv, fs.rules@[i], v),
{
    lemma_first_fail_at(fs.rules@, v, i);
}

} // verus!
