//! The type descriptor and the plan of one field's comparison.
use vstd::prelude::*;
use crate::text::clone_text;
use crate::args_parsing::{
    DescriptorError, EnumVariant, FieldArgs, FieldWithArgs, RawDirective, RawField, RawVariant,
    field_args_of, patched, unknown_directive,
};

verus! {

/// The name under which the generated code refers to the tolerance crate.
pub struct ApproxName;

impl ApproxName {
    /// The crate path that the generated impls name.
    pub fn name(&self) -> (r: String)
        ensures
            r@ == "approx"@,
    {
        "approx".to_owned()
    }
}

/// A type to derive the comparisons for: a record or a tagged union, with
/// the names of its generic type parameters and its type-level directives.
pub enum BaseType {
    Struct {
        ident: String,
        generics: Vec<String>,
        attrs: Vec<RawDirective>,
        fields_with_args: Vec<FieldWithArgs>,
    },
    Enum {
        ident: String,
        generics: Vec<String>,
        attrs: Vec<RawDirective>,
        variants_with_args: Vec<EnumVariant>,
    },
}

/// The declared field `f`, with its directives read, if they are all known.
pub open spec fn field_with_args_of(f: RawField) -> Option<FieldWithArgs> {
    match field_args_of(f.attrs@) {
        Some(a) => Some(FieldWithArgs { ident: f.ident, ty: f.ty, args: a }),
        None => None,
    }
}

/// The field `f` of a variant whose own directives are `defaults`.
pub open spec fn variant_field_of(f: RawField, defaults: FieldArgs) -> Option<FieldWithArgs> {
    match field_with_args_of(f) {
        Some(fa) => Some(FieldWithArgs { args: patched(fa.args, defaults), ..fa }),
        None => None,
    }
}

/// Every field of `fs` is named, or none is.
pub open spec fn consistently_named(fs: Seq<RawField>) -> bool {
    (forall|i: int| 0 <= i < fs.len() ==> (#[trigger] fs[i]).ident is Some) || (forall|i: int|
        0 <= i < fs.len() ==> (#[trigger] fs[i]).ident is None)
}

/// The variant `v` with its directives read, if they are all known.
pub open spec fn variant_reads(v: RawVariant, r: EnumVariant) -> bool {
    &&& field_args_of(v.attrs@) matches Some(d)
    &&& r.ident == v.ident
    &&& r.discriminant == v.discriminant
    &&& r.fields_with_args@.len() == v.fields@.len()
    &&& forall|i: int|
        0 <= i < v.fields@.len() ==> variant_field_of(v.fields@[i], d) == Some(
            #[trigger] r.fields_with_args@[i],
        )
}

/// All directives of the variant `v` and of its fields are known.
pub open spec fn variant_readable(v: RawVariant) -> bool {
    &&& field_args_of(v.attrs@) is Some
    &&& forall|i: int| 0 <= i < v.fields@.len() ==> field_with_args_of(#[trigger] v.fields@[i]) is Some
}

fn read_fields(fields: &Vec<RawField>, defaults: Option<&FieldArgs>) -> (r: Result<
    Vec<FieldWithArgs>,
    DescriptorError,
>)
    ensures
        match r {
            Ok(v) => {
                &&& v@.len() == fields@.len()
                &&& forall|i: int|
                    0 <= i < fields@.len() ==> match defaults {
                        Some(d) => variant_field_of(fields@[i], *d),
                        None => field_with_args_of(fields@[i]),
                    } == Some(#[trigger] v@[i])
            },
            Err(e) => exists|i: int|
                0 <= i < fields@.len() && field_with_args_of(#[trigger] fields@[i]) is None
                    && unknown_directive(fields@[i].attrs@, e),
        },
        (forall|i: int| 0 <= i < fields@.len() ==> field_with_args_of(#[trigger] fields@[i]) is Some)
            ==> r is Ok,
{
    let mut out: Vec<FieldWithArgs> = Vec::new();
    let mut i: usize = 0;
    while i < fields.len()
        invariant
            i <= fields@.len(),
            out@.len() == i,
            forall|j: int|
                0 <= j < i ==> match defaults {
                    Some(d) => variant_field_of(fields@[j], *d),
                    None => field_with_args_of(fields@[j]),
                } == Some(#[trigger] out@[j]),
        decreases fields@.len() - i,
    {
        let mut f = match FieldWithArgs::from_field(&fields[i]) {
            Ok(f) => f,
            Err(e) => {
                return Err(e);
            },
        };
        match defaults {
            Some(d) => f.args.patch_if_not_exists(d),
            None => {},
        }
        out.push(f);
        i = i + 1;
    }
    Ok(out)
}

fn has_mixed_names(fields: &Vec<RawField>) -> (r: bool)
    ensures
        r == !consistently_named(fields@),
{
    let mut any_named = false;
    let mut any_positional = false;
    let mut i: usize = 0;
    while i < fields.len()
        invariant
            i <= fields@.len(),
            any_named == exists|j: int| 0 <= j < i && (#[trigger] fields@[j]).ident is Some,
            any_positional == exists|j: int| 0 <= j < i && (#[trigger] fields@[j]).ident is None,
        decreases fields@.len() - i,
    {
        if fields[i].ident.is_some() {
            any_named = true;
        } else {
            any_positional = true;
        }
        i = i + 1;
    }
    any_named && any_positional
}

/// Which operand of the comparison a value belongs to.
#[derive(Clone, Copy, Debug, PartialEq, Eq, Structural)]
pub enum Side {
    /// `self`, or the left placeholder `x<slot>` of a match arm.
    Own,
    /// `other`, or the right placeholder `y<slot>` of a match arm.
    Other,
}

/// How a field is reached in the generated code.
pub enum FieldAccess {
    /// A named field of a record: `self.name` / `other.name`.
    Named(String),
    /// A positional field of a record: `self.0` / `other.0`.
    Index(usize),
    /// The field bound at this position by a match arm: `x0` / `y0`.
    Placeholder(usize),
}

/// One operand of a field comparison.
pub struct Operand {
    pub side: Side,
    pub access: FieldAccess,
    /// The type that the value is cast to before the comparison, if any.
    pub cast_to: Option<String>,
}

/// Where a tolerance value comes from.
pub enum ToleranceSource {
    /// The parameter of the generated procedure (`epsilon` or `max_relative`).
    Ambient,
    /// A literal given for this field alone.
    Static(String),
}

/// The tolerance value that one field's comparison uses.
pub struct ToleranceExpr {
    pub source: ToleranceSource,
    /// The type that the value is cast to, if any.
    pub cast_to: Option<String>,
    /// A transform applied to the (cast) value, if any.
    pub map: Option<String>,
}

/// How a field's comparison term is formed.
#[derive(Clone, Copy, Debug, PartialEq, Eq, Structural)]
pub enum Strategy {
    /// Host equality of the two values; the tolerance is not used.
    Equality,
    /// Both values are mapped; both results must be present and close.
    Mapped,
    /// Both values are sequences of equal length whose items are pairwise close.
    Iterative,
    /// The two values are close.
    Direct,
}

/// The plan of one field's comparison.
pub struct FieldFormatted {
    /// The type whose tolerance comparison is called.
    pub base_type: String,
    pub own_field: Operand,
    pub other_field: Operand,
    pub epsilon: ToleranceExpr,
    pub max_relative: ToleranceExpr,
    pub mapping: Option<String>,
    pub set_equal: bool,
    pub use_iterator: bool,
}

/// The strategy of a plan: `equal` wins over a mapping, which wins over
/// iteration, which wins over the direct comparison.
pub open spec fn strategy_of(p: FieldFormatted) -> Strategy {
    if p.set_equal {
        Strategy::Equality
    } else if p.mapping is Some {
        Strategy::Mapped
    } else if p.use_iterator {
        Strategy::Iterative
    } else {
        Strategy::Direct
    }
}

impl FieldFormatted {
    /// The strategy of this plan.
    pub fn strategy(&self) -> (r: Strategy)
        ensures
            r == strategy_of(*self),
    {
        if self.set_equal {
            Strategy::Equality
        } else if self.mapping.is_some() {
            Strategy::Mapped
        } else if self.use_iterator {
            Strategy::Iterative
        } else {
            Strategy::Direct
        }
    }
}

/// Which comparison a procedure performs.
#[derive(Clone, Copy, Debug, PartialEq, Eq, Structural)]
pub enum ComparisonKind {
    /// `AbsDiffEq::abs_diff_eq`, with an epsilon.
    Absolute,
    /// `RelativeEq::relative_eq`, with an epsilon and a maximum relative difference.
    Relative,
}

/// The comparison of one field inside a generated procedure.
pub struct Term {
    pub kind: ComparisonKind,
    /// The position of the field among the fields of its record or variant.
    pub slot: usize,
    pub plan: FieldFormatted,
}

/// How a variant's fields are written in a pattern.
#[derive(Clone, Copy, Debug, PartialEq, Eq, Structural)]
pub enum VariantShape {
    /// `Self::V { a: x0, b: x1 }`
    Named,
    /// `Self::V(x0, x1)`
    Positional,
    /// `Self::V`
    Unit,
}

/// The match arm of one variant: both operands are this variant, their fields
/// are bound to `x<slot>` and `y<slot>`, and the arm holds when all terms hold.
pub struct Arm {
    pub variant: String,
    pub shape: VariantShape,
    /// The names of the variant's fields, in order (`None` for positional ones).
    pub field_names: Vec<Option<String>>,
    pub terms: Vec<Term>,
}

/// A variant that can be read: its directives are known and its fields are
/// all named or all positional.
pub open spec fn variant_ok(v: RawVariant) -> bool {
    variant_readable(v) && consistently_named(v.fields@)
}

/// `e` is an error that the variant `v` gives: it mixes named and positional
/// fields and `e` names it, or `e` names an unknown directive of the variant
/// or of one of its fields.
pub open spec fn variant_error(v: RawVariant, e: DescriptorError) -> bool {
    ||| (e matches DescriptorError::MixedFields(n) && n == v.ident && !consistently_named(v.fields@))
    ||| (field_args_of(v.attrs@) is None && unknown_directive(v.attrs@, e))
    ||| exists|i: int|
        0 <= i < v.fields@.len() && field_with_args_of(#[trigger] v.fields@[i]) is None
            && unknown_directive(v.fields@[i].attrs@, e)
}

impl EnumVariant {
    /// Reads a declared variant: the variant's own directives become the
    /// defaults of each of its fields, and a field's own directives win.
    pub fn from_variant(v: &RawVariant) -> (r: Result<EnumVariant, DescriptorError>)
        ensures
            variant_ok(*v) <==> r is Ok,
            r matches Ok(e) ==> variant_reads(*v, e),
            r is Err ==> variant_error(*v, r->Err_0),
    {
        if has_mixed_names(&v.fields) {
            return Err(DescriptorError::MixedFields(v.ident.clone()));
        }
        let defaults = match FieldArgs::from_attrs(&v.attrs) {
            Ok(d) => d,
            Err(e) => {
                return Err(e);
            },
        };
        let fields_with_args = match read_fields(&v.fields, Some(&defaults)) {
            Ok(f) => f,
            Err(e) => {
                return Err(e);
            },
        };
        assert forall|i: int| 0 <= i < v.fields@.len() implies field_with_args_of(
            #[trigger] v.fields@[i],
        ) is Some by {
            assert(variant_field_of(v.fields@[i], defaults) == Some(fields_with_args@[i]));
        }
        let ident = v.ident.clone();
        let discriminant = clone_text(&v.discriminant);
        Ok(EnumVariant { ident, discriminant, fields_with_args })
    }
}

impl BaseType {
    /// A record with the given fields. A record without fields is refused.
    pub fn from_struct(
        ident: String,
        generics: Vec<String>,
        attrs: Vec<RawDirective>,
        fields: &Vec<RawField>,
    ) -> (r: Result<BaseType, DescriptorError>)
        ensures
            fields@.len() == 0 ==> r == Err::<BaseType, DescriptorError>(
                DescriptorError::NoFields(ident),
            ),
            fields@.len() > 0 && (forall|i: int|
                0 <= i < fields@.len() ==> field_with_args_of(#[trigger] fields@[i]) is Some)
                ==> r is Ok,
            r matches Ok(t) ==> {
                &&& t matches BaseType::Struct { ident: i, generics: g, attrs: a, fields_with_args: fw }
                &&& i == ident && g == generics && a == attrs
                &&& fw@.len() == fields@.len()
                &&& forall|k: int|
                    0 <= k < fields@.len() ==> field_with_args_of(fields@[k]) == Some(
                        #[trigger] fw@[k],
                    )
            },
            fields@.len() > 0 && r is Err ==> exists|i: int|
                0 <= i < fields@.len() && field_with_args_of(#[trigger] fields@[i]) is None
                    && unknown_directive(fields@[i].attrs@, r->Err_0),
    {
        if fields.len() == 0 {
            return Err(DescriptorError::NoFields(ident));
        }
        let fields_with_args = read_fields(fields, None)?;
        Ok(BaseType::Struct { ident, generics, attrs, fields_with_args })
    }

    /// A union with the given variants.
    pub fn from_enum(
        ident: String,
        generics: Vec<String>,
        attrs: Vec<RawDirective>,
        variants: &Vec<RawVariant>,
    ) -> (r: Result<BaseType, DescriptorError>)
        ensures
            (forall|i: int| 0 <= i < variants@.len() ==> variant_ok(#[trigger] variants@[i]))
                <==> r is Ok,
            r matches Ok(t) ==> {
                &&& t matches BaseType::Enum { ident: i, generics: g, attrs: a, variants_with_args: vs }
                &&& i == ident && g == generics && a == attrs
                &&& vs@.len() == variants@.len()
                &&& forall|k: int|
                    0 <= k < variants@.len() ==> variant_reads(variants@[k], #[trigger] vs@[k])
            },
            r is Err ==> exists|k: int|
                0 <= k < variants@.len() && !variant_ok(#[trigger] variants@[k]) && variant_error(
                    variants@[k],
                    r->Err_0,
                ),
    {
        let mut out: Vec<EnumVariant> = Vec::new();
        let mut i: usize = 0;
        while i < variants.len()
            invariant
                i <= variants@.len(),
                out@.len() == i,
                forall|j: int| 0 <= j < i ==> variant_ok(#[trigger] variants@[j]),
                forall|j: int| 0 <= j < i ==> variant_reads(variants@[j], #[trigger] out@[j]),
            decreases variants@.len() - i,
        {
            let v = match EnumVariant::from_variant(&variants[i]) {
                Ok(v) => v,
                Err(e) => {
                    return Err(e);
                },
            };
            out.push(v);
            i = i + 1;
        }
        Ok(BaseType::Enum { ident, generics, attrs, variants_with_args: out })
    }

    /// The type-level directives.
    pub fn attrs(&self) -> (r: &Vec<RawDirective>)
        ensures
            r == match self {
                BaseType::Struct { attrs, .. } => attrs,
                BaseType::Enum { attrs, .. } => attrs,
            },
    {
        match self {
            BaseType::Struct { attrs, .. } => attrs,
            BaseType::Enum { attrs, .. } => attrs,
        }
    }

    /// The names of the generic type parameters.
    pub fn generics(&self) -> (r: &Vec<String>)
        ensures
            r == match self {
                BaseType::Struct { generics, .. } => generics,
                BaseType::Enum { generics, .. } => generics,
            },
    {
        match self {
            BaseType::Struct { generics, .. } => generics,
            BaseType::Enum { generics, .. } => generics,
        }
    }

    /// The name of the type.
    pub fn ident(&self) -> (r: &String)
        ensures
            r == match self {
                BaseType::Struct { ident, .. } => ident,
                BaseType::Enum { ident, .. } => ident,
            },
    {
        match self {
            BaseType::Struct { ident, .. } => ident,
            BaseType::Enum { ident, .. } => ident,
        }
    }
}

} // verus!
