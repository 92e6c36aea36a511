//! What a generated comparison evaluates to.
//!
//! The values of all fields are drawn from one universe `V`. What the user's
//! types do at run time is given per field by a [`FieldBehaviour`]: the
//! tolerance comparisons with the field's effective tolerance, the field's
//! `map` transform and the items that `into_iter` yields. Host equality is
//! equality in `V`.
use vstd::prelude::*;
use crate::base_types::{ComparisonKind, Strategy, Term, strategy_of};
use crate::abs_diff_eq::ComparisonBody;

verus! {

/// What the generated code observes of one field's values.
#[verifier::reject_recursive_types(V)]
pub struct FieldBehaviour<V> {
    /// `abs_diff_eq` of two values with the field's effective epsilon.
    pub abs_close: spec_fn(V, V) -> bool,
    /// `relative_eq` of two values with the field's effective epsilon and
    /// maximum relative difference.
    pub rel_close: spec_fn(V, V) -> bool,
    /// The field's `map` transform.
    pub map: spec_fn(V) -> Option<V>,
    /// The items of a value, in the order `into_iter` yields them.
    pub items: spec_fn(V) -> Seq<V>,
}

/// A value of the compared type: the index of its variant (for a union) and
/// its fields in declaration order.
pub struct Instance<V> {
    pub variant: int,
    pub fields: Seq<V>,
}

/// The tolerance comparison of kind `kind`.
pub open spec fn close<V>(kind: ComparisonKind, b: FieldBehaviour<V>, x: V, y: V) -> bool {
    match kind {
        ComparisonKind::Absolute => (b.abs_close)(x, y),
        ComparisonKind::Relative => (b.rel_close)(x, y),
    }
}

/// The two sequences have the same length and are pairwise close.
pub open spec fn items_close<V>(kind: ComparisonKind, b: FieldBehaviour<V>, xs: Seq<V>, ys: Seq<V>) -> bool {
    &&& xs.len() == ys.len()
    &&& forall|i: int| 0 <= i < xs.len() ==> close(kind, b, #[trigger] xs[i], ys[i])
}

/// What the term `t` evaluates to on the field values `own` and `other`.
pub open spec fn term_holds<V>(t: Term, own: V, other: V, b: FieldBehaviour<V>) -> bool {
    match strategy_of(t.plan) {
        Strategy::Equality => own == other,
        Strategy::Mapped => match ((b.map)(own), (b.map)(other)) {
            (Some(x), Some(y)) => close(t.kind, b, x, y),
            _ => false,
        },
        Strategy::Iterative => items_close(t.kind, b, (b.items)(own), (b.items)(other)),
        Strategy::Direct => close(t.kind, b, own, other),
    }
}

/// The conjunction of `terms` on two sequences of field values; `true` when
/// there are no terms. `b(s)` is the behaviour of the field in slot `s`.
pub open spec fn terms_hold<V>(
    terms: Seq<Term>,
    own: Seq<V>,
    other: Seq<V>,
    b: spec_fn(int) -> FieldBehaviour<V>,
) -> bool {
    forall|j: int|
        0 <= j < terms.len() ==> term_holds(
            #[trigger] terms[j],
            own[terms[j].slot as int],
            other[terms[j].slot as int],
            b(terms[j].slot as int),
        )
}

/// What a generated procedure with body `body` returns for `own` and `other`.
/// `b(v, s)` is the behaviour of the field in slot `s` of variant `v` (of the
/// record, for `v == 0`).
pub open spec fn body_holds<V>(
    body: ComparisonBody,
    own: Instance<V>,
    other: Instance<V>,
    b: spec_fn(int, int) -> FieldBehaviour<V>,
) -> bool {
    match body {
        ComparisonBody::Fields(terms) => terms_hold(
            terms@,
            own.fields,
            other.fields,
            |s: int| b(0, s),
        ),
        ComparisonBody::Variants(arms) => {
            &&& own.variant == other.variant
            &&& 0 <= own.variant < arms@.len()
            &&& terms_hold(
                arms@[own.variant].terms@,
                own.fields,
                other.fields,
                |s: int| b(own.variant, s),
            )
        },
    }
}

} // verus!
