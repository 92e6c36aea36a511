//! The relative comparison.
use vstd::prelude::*;
use crate::args_parsing::{EnumVariant, FieldWithArgs};
use crate::base_types::{Arm, ComparisonKind, Term};
use crate::abs_diff_eq::{AbsDiffEqParser, Implementation, arms_of, implements, term_of, terms_of};

verus! {

impl AbsDiffEqParser {
    /// The relative comparison's term for the field in slot `n` of a variant,
    /// bound to `x<n>` and `y<n>`; none for a skipped field.
    pub fn get_rel_eq_single_field(&self, n: usize, field_with_args: &FieldWithArgs) -> (r: Option<
        Term,
    >)
        ensures
            r == term_of(*field_with_args, n, true, self.epsilon_parent, ComparisonKind::Relative),
    {
        self.field_term(n, field_with_args, true, ComparisonKind::Relative)
    }

    /// The relative comparison's terms for the fields of a record.
    pub fn get_rel_eq_struct_fields(&self, fields_with_args: &Vec<FieldWithArgs>) -> (r: Vec<Term>)
        ensures
            r@ == terms_of(fields_with_args@, false, self.epsilon_parent, ComparisonKind::Relative),
    {
        self.field_terms(fields_with_args, false, ComparisonKind::Relative)
    }

    /// The relative comparison's match arms for the variants of a union.
    pub fn get_rel_eq_variants(&self, variants_with_args: &Vec<EnumVariant>) -> (r: Vec<Arm>)
        ensures
            arms_of(r@, variants_with_args@, self.epsilon_parent, ComparisonKind::Relative),
    {
        self.variant_arms(variants_with_args, ComparisonKind::Relative)
    }

    /// The impl of `RelativeEq` for the described type.
    pub fn implement_derive_rel_diff_eq(&self) -> (r: Implementation)
        ensures
            implements(r, *self, ComparisonKind::Relative),
    {
        self.implement(ComparisonKind::Relative)
    }
}

} // verus!
