//! Synthesis of tolerance-based comparisons for records and tagged unions.
//!
//! A type is described by a [`base_types::BaseType`]: its fields (or its
//! variants and their fields), its generic type parameters and the
//! `approx` directives attached to it. From that description the library
//! resolves the tolerance type, plans the comparison of every field and
//! assembles the bodies of an absolute (`AbsDiffEq`) and a relative
//! (`RelativeEq`) comparison, together with the bounds that the generated
//! impls need. Rendering the result as Rust tokens is left to the caller.
//!
//! The module `semantics` gives the meaning of the assembled comparisons,
//! and the module `laws` proves the properties that every generated
//! comparison has.
#![allow(unused_parens)]

use vstd::prelude::*;

pub mod text;
pub mod args_parsing;
pub mod base_types;
pub mod abs_diff_eq;
pub mod rel_diff_eq;
pub mod semantics;
pub mod laws;

pub use abs_diff_eq::{AbsDiffEqParser, Implementation};
pub use args_parsing::DescriptorError;
pub use base_types::BaseType;

verus! {

/// The `AbsDiffEq` impl of a described type.
pub fn derive_abs_diff_eq(base_type: BaseType) -> (r: Result<Implementation, DescriptorError>)
    ensures
        abs_diff_eq::struct_args_of_type(base_type) is Some <==> r is Ok,
        r is Err ==> args_parsing::unknown_type_directive(
            abs_diff_eq::attrs_of(base_type),
            r->Err_0,
        ),
        r matches Ok(i) ==> exists|p: AbsDiffEqParser|
            p.wf() && p.base_type == base_type && abs_diff_eq::implements(
                i,
                p,
                base_types::ComparisonKind::Absolute,
            ),
{
    let parser = AbsDiffEqParser::parse(base_type)?;
    Ok(parser.implement_derive_abs_diff_eq())
}

/// The impls that `RelativeEq` needs for a described type: the `AbsDiffEq`
/// impl (which `RelativeEq` builds on) and the `RelativeEq` impl, both for
/// the same resolved tolerance type.
pub fn derive_rel_diff_eq(base_type: BaseType) -> (r: Result<
    (Implementation, Implementation),
    DescriptorError,
>)
    ensures
        abs_diff_eq::struct_args_of_type(base_type) is Some <==> r is Ok,
        r is Err ==> args_parsing::unknown_type_directive(
            abs_diff_eq::attrs_of(base_type),
            r->Err_0,
        ),
        r matches Ok(pair) ==> exists|p: AbsDiffEqParser|
            {
                &&& p.wf()
                &&& p.base_type == base_type
                &&& abs_diff_eq::implements(pair.0, p, base_types::ComparisonKind::Absolute)
                &&& abs_diff_eq::implements(pair.1, p, base_types::ComparisonKind::Relative)
            },
{
    let parser = AbsDiffEqParser::parse(base_type)?;
    let absolute = parser.implement_derive_abs_diff_eq();
    let relative = parser.implement_derive_rel_diff_eq();
    Ok((absolute, relative))
}

} // verus!
