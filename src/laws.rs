//! Properties that every generated comparison has.
use vstd::prelude::*;
use crate::args_parsing::{FieldArgs, FieldWithArgs};
use crate::base_types::{BaseType, ComparisonKind, Strategy, Term, strategy_of};
use crate::abs_diff_eq::{
    AbsDiffEqParser, ComparisonBody, Implementation, implements, kept, term_of, terms_of,
    terms_upto,
};
use crate::semantics::{FieldBehaviour, Instance, body_holds, term_holds};

verus! {

/// A kept field among the first `i` has its term among their terms.
proof fn lemma_kept_field_has_term(
    fs: Seq<FieldWithArgs>,
    placeholder: bool,
    p: String,
    kind: ComparisonKind,
    i: int,
    k: int,
)
    requires
        0 <= k < i <= fs.len(),
        fs.len() <= usize::MAX,
        kept(fs[k]),
    ensures
        exists|j: int|
            0 <= j < terms_upto(fs, placeholder, p, kind, i).len() && term_of(
                fs[k],
                k as usize,
                placeholder,
                p,
                kind,
            ) == Some(#[trigger] terms_upto(fs, placeholder, p, kind, i)[j]),
    decreases i,
{
    let prev = terms_upto(fs, placeholder, p, kind, i - 1);
    if k < i - 1 {
        lemma_kept_field_has_term(fs, placeholder, p, kind, i - 1, k);
        let j = choose|j: int|
            0 <= j < prev.len() && term_of(fs[k], k as usize, placeholder, p, kind) == Some(
                #[trigger] prev[j],
            );
        assert(terms_upto(fs, placeholder, p, kind, i)[j] == prev[j]);
    } else {
        let j = prev.len() as int;
        assert(terms_upto(fs, placeholder, p, kind, i)[j] == term_of(
            fs[k],
            k as usize,
            placeholder,
            p,
            kind,
        ).unwrap());
    }
}

/// Fields that are all skipped give no terms.
proof fn lemma_skipped_fields_give_no_terms(
    fs: Seq<FieldWithArgs>,
    placeholder: bool,
    p: String,
    kind: ComparisonKind,
    i: int,
)
    requires
        0 <= i <= fs.len(),
        forall|k: int| 0 <= k < fs.len() ==> !kept(#[trigger] fs[k]),
    ensures
        terms_upto(fs, placeholder, p, kind, i).len() == 0,
    decreases i,
{
    if i > 0 {
        lemma_skipped_fields_give_no_terms(fs, placeholder, p, kind, i - 1);
        assert(!kept(fs[i - 1]));
    }
}

/// The fields of a record description.
pub open spec fn record_fields(t: BaseType) -> Seq<FieldWithArgs> {
    match t {
        BaseType::Struct { fields_with_args, .. } => fields_with_args@,
        BaseType::Enum { .. } => Seq::empty(),
    }
}

/// The fields of variant `v` of a union description.
pub open spec fn variant_fields(t: BaseType, v: int) -> Seq<FieldWithArgs> {
    match t {
        BaseType::Struct { .. } => Seq::empty(),
        BaseType::Enum { variants_with_args, .. } => variants_with_args@[v].fields_with_args@,
    }
}

/// The number of variants of a union description.
pub open spec fn variant_count(t: BaseType) -> int {
    match t {
        BaseType::Struct { .. } => 0,
        BaseType::Enum { variants_with_args, .. } => variants_with_args@.len() as int,
    }
}

/// The terms of the arm of variant `v` in a union's generated body.
pub open spec fn arm_terms(body: ComparisonBody, v: int) -> Seq<Term> {
    match body {
        ComparisonBody::Fields(_) => Seq::empty(),
        ComparisonBody::Variants(arms) => arms@[v].terms@,
    }
}

/// The terms of a record's generated body.
pub open spec fn body_terms(body: ComparisonBody) -> Seq<Term> {
    match body {
        ComparisonBody::Fields(terms) => terms@,
        ComparisonBody::Variants(_) => Seq::empty(),
    }
}

/// A record whose fields are all skipped compares equal, absolutely and
/// relatively, whatever the two values and the tolerance.
pub proof fn lemma_all_skipped_compare_equal<V>(
    a: AbsDiffEqParser,
    kind: ComparisonKind,
    i: Implementation,
    own: Instance<V>,
    other: Instance<V>,
    b: spec_fn(int, int) -> FieldBehaviour<V>,
)
    requires
        implements(i, a, kind),
        a.base_type is Struct,
        forall|k: int|
            0 <= k < record_fields(a.base_type).len() ==> !kept(
                #[trigger] record_fields(a.base_type)[k],
            ),
    ensures
        body_holds(i.body, own, other, b),
{
    let fs = record_fields(a.base_type);
    lemma_skipped_fields_give_no_terms(fs, false, a.epsilon_parent, kind, fs.len() as int);
}

/// In a record, a field marked `equal` whose two values differ makes the
/// whole comparison false, whatever the other fields and the tolerance.
pub proof fn lemma_equal_field_decides<V>(
    a: AbsDiffEqParser,
    kind: ComparisonKind,
    i: Implementation,
    k: int,
    own: Instance<V>,
    other: Instance<V>,
    b: spec_fn(int, int) -> FieldBehaviour<V>,
)
    requires
        implements(i, a, kind),
        a.base_type is Struct,
        record_fields(a.base_type).len() <= usize::MAX,
        0 <= k < record_fields(a.base_type).len(),
        kept(record_fields(a.base_type)[k]),
        record_fields(a.base_type)[k].args.set_equal == Some(true),
        own.fields[k] != other.fields[k],
    ensures
        !body_holds(i.body, own, other, b),
{
    let fs = record_fields(a.base_type);
    let terms = body_terms(i.body);
    lemma_kept_field_has_term(fs, false, a.epsilon_parent, kind, fs.len() as int, k);
    let j = choose|j: int|
        0 <= j < terms.len() && term_of(fs[k], k as usize, false, a.epsilon_parent, kind) == Some(
            #[trigger] terms[j],
        );
    assert(!term_holds(terms[j], own.fields[k], other.fields[k], b(0, k)));
}

/// In a record, a field marked `into_iter` (and neither `equal` nor mapped)
/// whose two sequences differ in length makes the whole comparison false,
/// whatever the tolerance.
pub proof fn lemma_iterated_lengths_must_match<V>(
    a: AbsDiffEqParser,
    kind: ComparisonKind,
    i: Implementation,
    k: int,
    own: Instance<V>,
    other: Instance<V>,
    b: spec_fn(int, int) -> FieldBehaviour<V>,
)
    requires
        implements(i, a, kind),
        a.base_type is Struct,
        record_fields(a.base_type).len() <= usize::MAX,
        0 <= k < record_fields(a.base_type).len(),
        kept(record_fields(a.base_type)[k]),
        record_fields(a.base_type)[k].args.use_iterator == Some(true),
        record_fields(a.base_type)[k].args.set_equal != Some(true),
        record_fields(a.base_type)[k].args.mapping is None,
        (b(0, k).items)(own.fields[k]).len() != (b(0, k).items)(other.fields[k]).len(),
    ensures
        !body_holds(i.body, own, other, b),
{
    let fs = record_fields(a.base_type);
    let terms = body_terms(i.body);
    lemma_kept_field_has_term(fs, false, a.epsilon_parent, kind, fs.len() as int, k);
    let j = choose|j: int|
        0 <= j < terms.len() && term_of(fs[k], k as usize, false, a.epsilon_parent, kind) == Some(
            #[trigger] terms[j],
        );
    assert(strategy_of(terms[j].plan) == Strategy::Iterative);
    assert(!term_holds(terms[j], own.fields[k], other.fields[k], b(0, k)));
}

/// In a union, a field marked `equal` whose two values differ makes the
/// comparison of two values of its variant false, whatever the other fields
/// and the tolerance.
pub proof fn lemma_equal_variant_field_decides<V>(
    a: AbsDiffEqParser,
    kind: ComparisonKind,
    i: Implementation,
    k: int,
    own: Instance<V>,
    other: Instance<V>,
    b: spec_fn(int, int) -> FieldBehaviour<V>,
)
    requires
        implements(i, a, kind),
        a.base_type is Enum,
        0 <= own.variant < variant_count(a.base_type),
        own.variant == other.variant,
        variant_fields(a.base_type, own.variant).len() <= usize::MAX,
        0 <= k < variant_fields(a.base_type, own.variant).len(),
        kept(variant_fields(a.base_type, own.variant)[k]),
        variant_fields(a.base_type, own.variant)[k].args.set_equal == Some(true),
        own.fields[k] != other.fields[k],
    ensures
        !body_holds(i.body, own, other, b),
{
    let v = own.variant;
    let fs = variant_fields(a.base_type, v);
    let terms = arm_terms(i.body, v);
    lemma_kept_field_has_term(fs, true, a.epsilon_parent, kind, fs.len() as int, k);
    let j = choose|j: int|
        0 <= j < terms.len() && term_of(fs[k], k as usize, true, a.epsilon_parent, kind) == Some(
            #[trigger] terms[j],
        );
    assert(!term_holds(terms[j], own.fields[k], other.fields[k], b(v, k)));
}

/// In a union, a field marked `into_iter` (and neither `equal` nor mapped)
/// whose two sequences differ in length makes the comparison of two values
/// of its variant false, whatever the tolerance.
pub proof fn lemma_iterated_variant_lengths_must_match<V>(
    a: AbsDiffEqParser,
    kind: ComparisonKind,
    i: Implementation,
    k: int,
    own: Instance<V>,
    other: Instance<V>,
    b: spec_fn(int, int) -> FieldBehaviour<V>,
)
    requires
        implements(i, a, kind),
        a.base_type is Enum,
        0 <= own.variant < variant_count(a.base_type),
        own.variant == other.variant,
        variant_fields(a.base_type, own.variant).len() <= usize::MAX,
        0 <= k < variant_fields(a.base_type, own.variant).len(),
        kept(variant_fields(a.base_type, own.variant)[k]),
        variant_fields(a.base_type, own.variant)[k].args.use_iterator == Some(true),
        variant_fields(a.base_type, own.variant)[k].args.set_equal != Some(true),
        variant_fields(a.base_type, own.variant)[k].args.mapping is None,
        (b(own.variant, k).items)(own.fields[k]).len() != (b(own.variant, k).items)(
            other.fields[k],
        ).len(),
    ensures
        !body_holds(i.body, own, other, b),
{
    let v = own.variant;
    let fs = variant_fields(a.base_type, v);
    let terms = arm_terms(i.body, v);
    lemma_kept_field_has_term(fs, true, a.epsilon_parent, kind, fs.len() as int, k);
    let j = choose|j: int|
        0 <= j < terms.len() && term_of(fs[k], k as usize, true, a.epsilon_parent, kind) == Some(
            #[trigger] terms[j],
        );
    assert(strategy_of(terms[j].plan) == Strategy::Iterative);
    assert(!term_holds(terms[j], own.fields[k], other.fields[k], b(v, k)));
}

/// Two values of a union from different variants never compare equal,
/// whatever the tolerance.
pub proof fn lemma_different_variants_differ<V>(
    a: AbsDiffEqParser,
    kind: ComparisonKind,
    i: Implementation,
    own: Instance<V>,
    other: Instance<V>,
    b: spec_fn(int, int) -> FieldBehaviour<V>,
)
    requires
        implements(i, a, kind),
        a.base_type is Enum,
        own.variant != other.variant,
    ensures
        !body_holds(i.body, own, other, b),
{
}

/// The field `f` with its `map` directive taken away.
pub open spec fn without_map(f: FieldWithArgs) -> FieldWithArgs {
    FieldWithArgs { args: FieldArgs { mapping: None, ..f.args }, ..f }
}

/// The term `t` of a field is host equality of the two values, and it
/// evaluates as the term of the same field without its `map` does: the
/// mapping is never used.
pub open spec fn equality_ignoring_map<V>(
    t: Term,
    f: FieldWithArgs,
    n: usize,
    placeholder: bool,
    p: String,
    kind: ComparisonKind,
) -> bool {
    &&& t.slot == n
    &&& term_of(without_map(f), n, placeholder, p, kind) matches Some(u)
    &&& forall|x: V, y: V, bb: FieldBehaviour<V>|
        #[trigger] term_holds(t, x, y, bb) == (x == y) && term_holds(u, x, y, bb) == (x == y)
}

/// In a record, the term of a field marked both `equal` and `map` is host
/// equality of the two values, the same as without the `map`: the mapping
/// plays no part.
pub proof fn lemma_equal_wins_over_map<V>(
    a: AbsDiffEqParser,
    kind: ComparisonKind,
    i: Implementation,
    k: int,
)
    requires
        implements(i, a, kind),
        a.base_type is Struct,
        record_fields(a.base_type).len() <= usize::MAX,
        0 <= k < record_fields(a.base_type).len(),
        kept(record_fields(a.base_type)[k]),
        record_fields(a.base_type)[k].args.set_equal == Some(true),
        record_fields(a.base_type)[k].args.mapping is Some,
    ensures
        exists|j: int|
            0 <= j < body_terms(i.body).len() && equality_ignoring_map::<V>(
                #[trigger] body_terms(i.body)[j],
                record_fields(a.base_type)[k],
                k as usize,
                false,
                a.epsilon_parent,
                kind,
            ),
{
    let fs = record_fields(a.base_type);
    let terms = body_terms(i.body);
    lemma_kept_field_has_term(fs, false, a.epsilon_parent, kind, fs.len() as int, k);
    let j = choose|j: int|
        0 <= j < terms.len() && term_of(fs[k], k as usize, false, a.epsilon_parent, kind) == Some(
            #[trigger] terms[j],
        );
    let u = term_of(without_map(fs[k]), k as usize, false, a.epsilon_parent, kind).unwrap();
    assert(strategy_of(terms[j].plan) == Strategy::Equality);
    assert(strategy_of(u.plan) == Strategy::Equality);
    assert(equality_ignoring_map::<V>(terms[j], fs[k], k as usize, false, a.epsilon_parent, kind));
}

/// In a union, the term of a field marked both `equal` and `map` is host
/// equality of the two values, the same as without the `map`: the mapping
/// plays no part.
pub proof fn lemma_equal_wins_over_map_in_variant<V>(
    a: AbsDiffEqParser,
    kind: ComparisonKind,
    i: Implementation,
    v: int,
    k: int,
)
    requires
        implements(i, a, kind),
        a.base_type is Enum,
        0 <= v < variant_count(a.base_type),
        variant_fields(a.base_type, v).len() <= usize::MAX,
        0 <= k < variant_fields(a.base_type, v).len(),
        kept(variant_fields(a.base_type, v)[k]),
        variant_fields(a.base_type, v)[k].args.set_equal == Some(true),
        variant_fields(a.base_type, v)[k].args.mapping is Some,
    ensures
        exists|j: int|
            0 <= j < arm_terms(i.body, v).len() && equality_ignoring_map::<V>(
                #[trigger] arm_terms(i.body, v)[j],
                variant_fields(a.base_type, v)[k],
                k as usize,
                true,
                a.epsilon_parent,
                kind,
            ),
{
    let fs = variant_fields(a.base_type, v);
    let terms = arm_terms(i.body, v);
    lemma_kept_field_has_term(fs, true, a.epsilon_parent, kind, fs.len() as int, k);
    let j = choose|j: int|
        0 <= j < terms.len() && term_of(fs[k], k as usize, true, a.epsilon_parent, kind) == Some(
            #[trigger] terms[j],
        );
    let u = term_of(without_map(fs[k]), k as usize, true, a.epsilon_parent, kind).unwrap();
    assert(strategy_of(terms[j].plan) == Strategy::Equality);
    assert(strategy_of(u.plan) == Strategy::Equality);
    assert(equality_ignoring_map::<V>(terms[j], fs[k], k as usize, true, a.epsilon_parent, kind));
}

} // verus!
