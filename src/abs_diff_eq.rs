//! Tolerance-type resolution, field planning and the absolute comparison.
use vstd::prelude::*;
use crate::text::{clone_text, text_eq};
use crate::args_parsing::{
    DescriptorError, EnumVariant, FieldWithArgs, RawDirective, StructArgs, TypeCast, struct_args_of,
    unknown_type_directive,
};
use crate::base_types::{
    Arm, BaseType, ComparisonKind, FieldAccess, FieldFormatted, Operand, Side, Term,
    ToleranceExpr, ToleranceSource, VariantShape,
};

verus! {

/// The associated tolerance type of a type: `<parent as AbsDiffEq>::Epsilon`.
pub struct EpsilonType {
    pub parent: String,
}

/// The default value of a tolerance parameter.
pub enum DefaultValue {
    /// The expression given at the type level.
    Given(String),
    /// `<T as AbsDiffEq>::default_epsilon()`
    DefaultEpsilonOf(String),
    /// `<T as RelativeEq>::default_max_relative()`
    DefaultMaxRelativeOf(String),
}

/// A bound that the generated impl adds to its where clause.
pub enum Bound {
    /// `T: AbsDiffEq` or `T: RelativeEq`.
    Tolerance(String, ComparisonKind),
    /// `T: PartialEq`.
    HostEq(String),
    /// `<T as AbsDiffEq>::Epsilon: Clone`.
    EpsilonClone(String),
}

/// The body of a generated comparison procedure.
pub enum ComparisonBody {
    /// A record: the conjunction of the terms; `true` if there are none.
    Fields(Vec<Term>),
    /// A union: one arm per variant, and `false` when the variants differ.
    Variants(Vec<Arm>),
}

/// A generated impl of `AbsDiffEq` or `RelativeEq`.
pub struct Implementation {
    pub kind: ComparisonKind,
    /// The type the impl is for.
    pub ident: String,
    /// The associated `Epsilon` type (used by the absolute impl).
    pub epsilon_type: EpsilonType,
    /// `default_epsilon()` of the absolute impl, `default_max_relative()` of
    /// the relative one.
    pub default_value: DefaultValue,
    /// Bounds added to the type's own where clause.
    pub bounds: Vec<Bound>,
    pub body: ComparisonBody,
}

/// The default epsilon: the one given at the type level, else the tolerance
/// type's own.
pub open spec fn default_epsilon_of(a: StructArgs, p: String) -> DefaultValue {
    match a.default_epsilon_value {
        Some(e) => DefaultValue::Given(e),
        None => DefaultValue::DefaultEpsilonOf(p),
    }
}

/// The default maximum relative difference: the one given at the type level,
/// else the tolerance type's own.
pub open spec fn default_max_relative_of(a: StructArgs, p: String) -> DefaultValue {
    match a.default_max_relative_value {
        Some(e) => DefaultValue::Given(e),
        None => DefaultValue::DefaultMaxRelativeOf(p),
    }
}

/// The bounds that an impl of kind `kind` adds: none unless the type is
/// generic-coupled, else that the tolerance type has the comparison and
/// host equality, and that its epsilon can be cloned.
pub open spec fn bounds_of(coupled: bool, p: String, kind: ComparisonKind) -> Seq<Bound> {
    if coupled {
        seq![Bound::Tolerance(p, kind), Bound::HostEq(p), Bound::EpsilonClone(p)]
    } else {
        Seq::empty()
    }
}

/// The body of the comparison of kind `kind` for the description `t`.
pub open spec fn body_is(b: ComparisonBody, t: BaseType, p: String, kind: ComparisonKind) -> bool {
    match (t, b) {
        (BaseType::Struct { fields_with_args, .. }, ComparisonBody::Fields(terms)) => terms@
            == terms_of(fields_with_args@, false, p, kind),
        (BaseType::Enum { variants_with_args, .. }, ComparisonBody::Variants(arms)) => arms_of(
            arms@,
            variants_with_args@,
            p,
            kind,
        ),
        _ => false,
    }
}

/// `i` is the impl of kind `kind` that the parser `a` generates.
pub open spec fn implements(i: Implementation, a: AbsDiffEqParser, kind: ComparisonKind) -> bool {
    let p = a.epsilon_parent;
    &&& i.kind == kind
    &&& i.ident == match a.base_type {
        BaseType::Struct { ident, .. } => ident,
        BaseType::Enum { ident, .. } => ident,
    }
    &&& i.epsilon_type == EpsilonType { parent: p }
    &&& i.default_value == match kind {
        ComparisonKind::Absolute => default_epsilon_of(a.struct_args, p),
        ComparisonKind::Relative => default_max_relative_of(a.struct_args, p),
    }
    &&& i.bounds@ == bounds_of(generic_coupled(a.base_type, p), p, kind)
    &&& body_is(i.body, a.base_type, p, kind)
}

/// A type description with its type-level directives read and its
/// tolerance type resolved.
pub struct AbsDiffEqParser {
    pub base_type: BaseType,
    pub struct_args: StructArgs,
    /// The resolved tolerance type.
    pub epsilon_parent: String,
}

/// The type-level directives of a description.
pub open spec fn attrs_of(t: BaseType) -> Seq<RawDirective> {
    match t {
        BaseType::Struct { attrs, .. } => attrs@,
        BaseType::Enum { attrs, .. } => attrs@,
    }
}

/// The type-level directives of a description, read; none if one is unknown.
pub open spec fn struct_args_of_type(t: BaseType) -> Option<StructArgs> {
    struct_args_of(attrs_of(t))
}

/// The generic type parameters of a description.
pub open spec fn generics_of(t: BaseType) -> Seq<String> {
    match t {
        BaseType::Struct { generics, .. } => generics@,
        BaseType::Enum { generics, .. } => generics@,
    }
}

/// A field takes part in the comparison unless it is marked `skip`.
pub open spec fn kept(f: FieldWithArgs) -> bool {
    f.args.skip != Some(true)
}

/// The type of the first kept field of `fs` from position `i` on.
pub open spec fn first_kept_from(fs: Seq<FieldWithArgs>, i: int) -> Option<String>
    decreases fs.len() - i,
{
    if i < 0 || i >= fs.len() {
        None
    } else if kept(fs[i]) {
        Some(fs[i].ty)
    } else {
        first_kept_from(fs, i + 1)
    }
}

/// The type of the first kept field of the variants `vs` from variant `k` on,
/// in declaration order.
pub open spec fn first_kept_in_variants(vs: Seq<EnumVariant>, k: int) -> Option<String>
    decreases vs.len() - k,
{
    if k < 0 || k >= vs.len() {
        None
    } else {
        match first_kept_from(vs[k].fields_with_args@, 0) {
            Some(t) => Some(t),
            None => first_kept_in_variants(vs, k + 1),
        }
    }
}

/// The type of the first kept field of a description.
pub open spec fn first_kept_type(t: BaseType) -> Option<String> {
    match t {
        BaseType::Struct { fields_with_args, .. } => first_kept_from(fields_with_args@, 0),
        BaseType::Enum { variants_with_args, .. } => first_kept_in_variants(
            variants_with_args@,
            0,
        ),
    }
}

/// `p` is the tolerance type of the description: the `epsilon_type` given,
/// else the type of the first kept field, else `f64`.
pub open spec fn resolves_parent(t: BaseType, a: StructArgs, p: String) -> bool {
    match a.epsilon_type {
        Some(e) => p == e,
        None => match first_kept_type(t) {
            Some(f) => p == f,
            None => p@ == "f64"@,
        },
    }
}

/// One of the generic type parameters is the tolerance type itself.
pub open spec fn generic_coupled(t: BaseType, p: String) -> bool {
    exists|i: int| 0 <= i < generics_of(t).len() && (#[trigger] generics_of(t)[i])@ == p@
}

fn first_kept_field_type(fs: &Vec<FieldWithArgs>) -> (r: Option<String>)
    ensures
        r == first_kept_from(fs@, 0),
{
    let mut i: usize = 0;
    while i < fs.len()
        invariant
            i <= fs@.len(),
            first_kept_from(fs@, 0) == first_kept_from(fs@, i as int),
        decreases fs@.len() - i,
    {
        if fs[i].args.skip != Some(true) {
            return Some(fs[i].ty.clone());
        }
        i = i + 1;
    }
    None
}

fn first_kept_variant_type(vs: &Vec<EnumVariant>) -> (r: Option<String>)
    ensures
        r == first_kept_in_variants(vs@, 0),
{
    let mut k: usize = 0;
    while k < vs.len()
        invariant
            k <= vs@.len(),
            first_kept_in_variants(vs@, 0) == first_kept_in_variants(vs@, k as int),
        decreases vs@.len() - k,
    {
        let f = first_kept_field_type(&vs[k].fields_with_args);
        if f.is_some() {
            return f;
        }
        k = k + 1;
    }
    None
}

fn resolve_epsilon_parent(t: &BaseType, a: &StructArgs) -> (r: String)
    ensures
        resolves_parent(*t, *a, r),
{
    match &a.epsilon_type {
        Some(e) => {
            return e.clone();
        },
        None => {},
    }
    let found = match t {
        BaseType::Struct { fields_with_args, .. } => first_kept_field_type(fields_with_args),
        BaseType::Enum { variants_with_args, .. } => first_kept_variant_type(variants_with_args),
    };
    match found {
        Some(f) => f,
        None => "f64".to_owned(),
    }
}

/// How the field at position `n` is reached: through `self`/`other`, or
/// through the placeholders of a match arm.
pub open spec fn access_of(f: FieldWithArgs, n: usize, placeholder: bool) -> FieldAccess {
    if placeholder {
        FieldAccess::Placeholder(n)
    } else {
        match f.ident {
            Some(id) => FieldAccess::Named(id),
            None => FieldAccess::Index(n),
        }
    }
}

/// A tolerance value: the static value if given, else the ambient one; cast
/// if `cast` says so; then mapped if `map` says so.
pub open spec fn tolerance_of(
    fixed: Option<String>,
    cast: Option<String>,
    map: Option<String>,
) -> ToleranceExpr {
    ToleranceExpr {
        source: match fixed {
            Some(e) => ToleranceSource::Static(e),
            None => ToleranceSource::Ambient,
        },
        cast_to: cast,
        map,
    }
}

/// The type whose comparison is called for field `f` under tolerance type `p`.
pub open spec fn base_type_of(f: FieldWithArgs, p: String) -> String {
    match f.args.cast_strategy {
        Some(TypeCast::CastValue) => f.ty,
        _ => p,
    }
}

/// The type the operands are cast to: the tolerance type under `cast_field`.
pub open spec fn operand_cast_of(f: FieldWithArgs, p: String) -> Option<String> {
    match f.args.cast_strategy {
        Some(TypeCast::CastField) => Some(p),
        _ => None,
    }
}

/// The type the tolerance values are cast to: the field's type under `cast_value`.
pub open spec fn tolerance_cast_of(f: FieldWithArgs) -> Option<String> {
    match f.args.cast_strategy {
        Some(TypeCast::CastValue) => Some(f.ty),
        _ => None,
    }
}

/// The plan of the field `f` at position `n` under tolerance type `p`; none
/// for a skipped field.
pub open spec fn plan_of(f: FieldWithArgs, n: usize, placeholder: bool, p: String) -> Option<
    FieldFormatted,
> {
    if !kept(f) {
        None
    } else {
        Some(
            FieldFormatted {
                base_type: base_type_of(f, p),
                own_field: Operand {
                    side: Side::Own,
                    access: access_of(f, n, placeholder),
                    cast_to: operand_cast_of(f, p),
                },
                other_field: Operand {
                    side: Side::Other,
                    access: access_of(f, n, placeholder),
                    cast_to: operand_cast_of(f, p),
                },
                epsilon: tolerance_of(
                    f.args.epsilon_static_value,
                    tolerance_cast_of(f),
                    f.args.epsilon_mapping,
                ),
                max_relative: tolerance_of(
                    f.args.max_relative_static_value,
                    tolerance_cast_of(f),
                    f.args.max_relative_mapping,
                ),
                mapping: f.args.mapping,
                set_equal: f.args.set_equal == Some(true),
                use_iterator: f.args.use_iterator == Some(true),
            },
        )
    }
}

/// The term of the field `f` at position `n`, if it is kept.
pub open spec fn term_of(
    f: FieldWithArgs,
    n: usize,
    placeholder: bool,
    p: String,
    kind: ComparisonKind,
) -> Option<Term> {
    match plan_of(f, n, placeholder, p) {
        Some(plan) => Some(Term { kind, slot: n, plan }),
        None => None,
    }
}

/// The terms of the first `i` fields of `fs`, in declaration order.
pub open spec fn terms_upto(
    fs: Seq<FieldWithArgs>,
    placeholder: bool,
    p: String,
    kind: ComparisonKind,
    i: int,
) -> Seq<Term>
    decreases i,
{
    if i <= 0 {
        Seq::empty()
    } else {
        let prev = terms_upto(fs, placeholder, p, kind, i - 1);
        match term_of(fs[i - 1], (i - 1) as usize, placeholder, p, kind) {
            Some(t) => prev.push(t),
            None => prev,
        }
    }
}

/// The terms of all fields of `fs`, in declaration order; skipped fields have none.
pub open spec fn terms_of(
    fs: Seq<FieldWithArgs>,
    placeholder: bool,
    p: String,
    kind: ComparisonKind,
) -> Seq<Term> {
    terms_upto(fs, placeholder, p, kind, fs.len() as int)
}

/// How the variant `v` is written in a pattern, judged by its first field.
pub open spec fn shape_of(v: EnumVariant) -> VariantShape {
    if v.fields_with_args@.len() == 0 {
        VariantShape::Unit
    } else if v.fields_with_args@[0].ident is Some {
        VariantShape::Named
    } else {
        VariantShape::Positional
    }
}

/// `a` is the match arm of variant `v`.
pub open spec fn is_arm_of(a: Arm, v: EnumVariant, p: String, kind: ComparisonKind) -> bool {
    &&& a.variant == v.ident
    &&& a.shape == shape_of(v)
    &&& a.field_names@.len() == v.fields_with_args@.len()
    &&& forall|i: int|
        0 <= i < a.field_names@.len() ==> #[trigger] a.field_names@[i]
            == v.fields_with_args@[i].ident
    &&& a.terms@ == terms_of(v.fields_with_args@, true, p, kind)
}

/// `arms` has one arm per variant of `vs`, in declaration order.
pub open spec fn arms_of(arms: Seq<Arm>, vs: Seq<EnumVariant>, p: String, kind: ComparisonKind) -> bool {
    &&& arms.len() == vs.len()
    &&& forall|i: int| 0 <= i < vs.len() ==> is_arm_of(#[trigger] arms[i], vs[i], p, kind)
}

fn access_for(f: &FieldWithArgs, n: usize, placeholder: bool) -> (r: FieldAccess)
    ensures
        r == access_of(*f, n, placeholder),
{
    if placeholder {
        FieldAccess::Placeholder(n)
    } else {
        match &f.ident {
            Some(id) => FieldAccess::Named(id.clone()),
            None => FieldAccess::Index(n),
        }
    }
}

fn tolerance_for(fixed: &Option<String>, cast: Option<String>, map: &Option<String>) -> (r:
    ToleranceExpr)
    ensures
        r == tolerance_of(*fixed, cast, *map),
{
    let source = match fixed {
        Some(e) => ToleranceSource::Static(e.clone()),
        None => ToleranceSource::Ambient,
    };
    ToleranceExpr { source, cast_to: cast, map: clone_text(map) }
}

impl AbsDiffEqParser {
    /// The parser is what `parse` made of its description.
    pub open spec fn wf(&self) -> bool {
        &&& struct_args_of(attrs_of(self.base_type)) == Some(self.struct_args)
        &&& resolves_parent(self.base_type, self.struct_args, self.epsilon_parent)
    }

    /// Reads the type-level directives of a description and resolves its
    /// tolerance type.
    pub fn parse(base_type: BaseType) -> (r: Result<Self, DescriptorError>)
        ensures
            struct_args_of(attrs_of(base_type)) is Some <==> r is Ok,
            r matches Ok(p) ==> p.wf() && p.base_type == base_type,
            r is Err ==> unknown_type_directive(attrs_of(base_type), r->Err_0),
    {
        let struct_args = StructArgs::from_attrs(base_type.attrs())?;
        let epsilon_parent = resolve_epsilon_parent(&base_type, &struct_args);
        Ok(AbsDiffEqParser { base_type, struct_args, epsilon_parent })
    }

    /// The tolerance type.
    pub fn get_epsilon_parent_type(&self) -> (r: String)
        ensures
            r == self.epsilon_parent,
            self.wf() ==> resolves_parent(self.base_type, self.struct_args, r),
    {
        self.epsilon_parent.clone()
    }

    /// Whether one of the type's generic parameters is its tolerance type.
    pub fn generics_involved(&self) -> (r: bool)
        ensures
            r == generic_coupled(self.base_type, self.epsilon_parent),
    {
        let generics = self.base_type.generics();
        let mut i: usize = 0;
        while i < generics.len()
            invariant
                i <= generics@.len(),
                generics@ == generics_of(self.base_type),
                forall|j: int| 0 <= j < i ==> (#[trigger] generics@[j])@ != self.epsilon_parent@,
            decreases generics@.len() - i,
        {
            if text_eq(generics[i].as_str(), self.epsilon_parent.as_str()) {
                return true;
            }
            i = i + 1;
        }
        false
    }

    /// Plans the comparison of the field at position `n`: none for a skipped
    /// field. With `placeholder` the field is reached through the bindings of
    /// a match arm, else through `self` and `other`.
    pub fn format_nth_field(
        &self,
        n: usize,
        field_with_args: &FieldWithArgs,
        placeholder: bool,
    ) -> (r: Option<FieldFormatted>)
        ensures
            r == plan_of(*field_with_args, n, placeholder, self.epsilon_parent),
    {
        let f = field_with_args;
        if f.args.skip == Some(true) {
            return None;
        }
        let parent = &self.epsilon_parent;
        let (base_type, operand_cast, tolerance_cast) = match f.args.cast_strategy {
            Some(TypeCast::CastField) => (parent.clone(), Some(parent.clone()), None),
            Some(TypeCast::CastValue) => (f.ty.clone(), None, Some(f.ty.clone())),
            None => (parent.clone(), None, None),
        };
        let own_field = Operand {
            side: Side::Own,
            access: access_for(f, n, placeholder),
            cast_to: clone_text(&operand_cast),
        };
        let other_field = Operand {
            side: Side::Other,
            access: access_for(f, n, placeholder),
            cast_to: operand_cast,
        };
        let epsilon = tolerance_for(
            &f.args.epsilon_static_value,
            clone_text(&tolerance_cast),
            &f.args.epsilon_mapping,
        );
        let max_relative = tolerance_for(
            &f.args.max_relative_static_value,
            tolerance_cast,
            &f.args.max_relative_mapping,
        );
        Some(
            FieldFormatted {
                base_type,
                own_field,
                other_field,
                epsilon,
                max_relative,
                mapping: clone_text(&f.args.mapping),
                set_equal: f.args.set_equal == Some(true),
                use_iterator: f.args.use_iterator == Some(true),
            },
        )
    }

    /// The term of one field of kind `kind`, reached through placeholders or
    /// through `self`/`other`; none for a skipped field.
    pub(crate) fn field_term(
        &self,
        n: usize,
        field_with_args: &FieldWithArgs,
        placeholder: bool,
        kind: ComparisonKind,
    ) -> (r: Option<Term>)
        ensures
            r == term_of(*field_with_args, n, placeholder, self.epsilon_parent, kind),
    {
        match self.format_nth_field(n, field_with_args, placeholder) {
            Some(plan) => Some(Term { kind, slot: n, plan }),
            None => None,
        }
    }

    /// The terms of the kept fields of `fields`, in declaration order.
    pub(crate) fn field_terms(
        &self,
        fields: &Vec<FieldWithArgs>,
        placeholder: bool,
        kind: ComparisonKind,
    ) -> (r: Vec<Term>)
        ensures
            r@ == terms_of(fields@, placeholder, self.epsilon_parent, kind),
    {
        let mut out: Vec<Term> = Vec::new();
        let mut i: usize = 0;
        while i < fields.len()
            invariant
                i <= fields@.len(),
                out@ == terms_upto(fields@, placeholder, self.epsilon_parent, kind, i as int),
            decreases fields@.len() - i,
        {
            match self.field_term(i, &fields[i], placeholder, kind) {
                Some(t) => out.push(t),
                None => {},
            }
            i = i + 1;
        }
        out
    }

    /// The match arm of one variant.
    pub(crate) fn variant_arm(&self, v: &EnumVariant, kind: ComparisonKind) -> (r: Arm)
        ensures
            is_arm_of(r, *v, self.epsilon_parent, kind),
    {
        let fs = &v.fields_with_args;
        let shape = if fs.len() == 0 {
            VariantShape::Unit
        } else if fs[0].ident.is_some() {
            VariantShape::Named
        } else {
            VariantShape::Positional
        };
        let mut field_names: Vec<Option<String>> = Vec::new();
        let mut i: usize = 0;
        while i < fs.len()
            invariant
                i <= fs@.len(),
                field_names@.len() == i,
                forall|j: int| 0 <= j < i ==> #[trigger] field_names@[j] == fs@[j].ident,
            decreases fs@.len() - i,
        {
            field_names.push(clone_text(&fs[i].ident));
            i = i + 1;
        }
        let terms = self.field_terms(fs, true, kind);
        Arm { variant: v.ident.clone(), shape, field_names, terms }
    }

    /// The match arms of all variants, in declaration order.
    pub(crate) fn variant_arms(&self, variants: &Vec<EnumVariant>, kind: ComparisonKind) -> (r: Vec<
        Arm,
    >)
        ensures
            arms_of(r@, variants@, self.epsilon_parent, kind),
    {
        let mut out: Vec<Arm> = Vec::new();
        let mut i: usize = 0;
        while i < variants.len()
            invariant
                i <= variants@.len(),
                out@.len() == i,
                forall|j: int|
                    0 <= j < i ==> is_arm_of(#[trigger] out@[j], variants@[j], self.epsilon_parent, kind),
            decreases variants@.len() - i,
        {
            out.push(self.variant_arm(&variants[i], kind));
            i = i + 1;
        }
        out
    }

    /// The associated `Epsilon` type of the generated impls.
    pub fn get_derived_epsilon_type(&self) -> (r: EpsilonType)
        ensures
            r == (EpsilonType { parent: self.epsilon_parent }),
    {
        EpsilonType { parent: self.epsilon_parent.clone() }
    }

    /// The associated `Epsilon` type and the default epsilon.
    pub fn get_epsilon_type_and_default_value(&self) -> (r: (EpsilonType, DefaultValue))
        ensures
            r.0 == (EpsilonType { parent: self.epsilon_parent }),
            r.1 == default_epsilon_of(self.struct_args, self.epsilon_parent),
    {
        let default_value = match &self.struct_args.default_epsilon_value {
            Some(e) => DefaultValue::Given(e.clone()),
            None => DefaultValue::DefaultEpsilonOf(self.epsilon_parent.clone()),
        };
        (self.get_derived_epsilon_type(), default_value)
    }

    /// The default maximum relative difference.
    pub fn get_max_relative_default_value(&self) -> (r: DefaultValue)
        ensures
            r == default_max_relative_of(self.struct_args, self.epsilon_parent),
    {
        match &self.struct_args.default_max_relative_value {
            Some(e) => DefaultValue::Given(e.clone()),
            None => DefaultValue::DefaultMaxRelativeOf(self.epsilon_parent.clone()),
        }
    }

    /// The bounds that the generated impl adds to the type's where clause:
    /// for `AbsDiffEq` if `abs_diff_eq`, else for `RelativeEq`.
    pub fn generate_where_clause(&self, abs_diff_eq: bool) -> (r: Vec<Bound>)
        ensures
            r@ == bounds_of(
                generic_coupled(self.base_type, self.epsilon_parent),
                self.epsilon_parent,
                if abs_diff_eq {
                    ComparisonKind::Absolute
                } else {
                    ComparisonKind::Relative
                },
            ),
    {
        let kind = if abs_diff_eq {
            ComparisonKind::Absolute
        } else {
            ComparisonKind::Relative
        };
        if self.generics_involved() {
            let p = &self.epsilon_parent;
            vec![Bound::Tolerance(p.clone(), kind), Bound::HostEq(p.clone()), Bound::EpsilonClone(p.clone())]
        } else {
            Vec::new()
        }
    }

    /// The impl of kind `kind`.
    pub(crate) fn implement(&self, kind: ComparisonKind) -> (r: Implementation)
        ensures
            implements(r, *self, kind),
    {
        let default_value = match kind {
            ComparisonKind::Absolute => self.get_epsilon_type_and_default_value().1,
            ComparisonKind::Relative => self.get_max_relative_default_value(),
        };
        let bounds = self.generate_where_clause(kind == ComparisonKind::Absolute);
        let body = match &self.base_type {
            BaseType::Struct { fields_with_args, .. } => ComparisonBody::Fields(
                self.field_terms(fields_with_args, false, kind),
            ),
            BaseType::Enum { variants_with_args, .. } => ComparisonBody::Variants(
                self.variant_arms(variants_with_args, kind),
            ),
        };
        Implementation {
            kind,
            ident: self.base_type.ident().clone(),
            epsilon_type: self.get_derived_epsilon_type(),
            default_value,
            bounds,
            body,
        }
    }

    /// The impl of `AbsDiffEq` for the described type.
    pub fn implement_derive_abs_diff_eq(&self) -> (r: Implementation)
        ensures
            implements(r, *self, ComparisonKind::Absolute),
    {
        self.implement(ComparisonKind::Absolute)
    }

    /// The absolute comparison's terms for the fields of a record.
    pub fn get_abs_diff_eq_struct_fields(&self, fields_with_args: &Vec<FieldWithArgs>) -> (r: Vec<
        Term,
    >)
        ensures
            r@ == terms_of(fields_with_args@, false, self.epsilon_parent, ComparisonKind::Absolute),
    {
        self.field_terms(fields_with_args, false, ComparisonKind::Absolute)
    }

    /// The absolute comparison's match arms for the variants of a union.
    pub fn get_abs_diff_eq_enum_variants(&self, variants_with_args: &Vec<EnumVariant>) -> (r: Vec<
        Arm,
    >)
        ensures
            arms_of(r@, variants_with_args@, self.epsilon_parent, ComparisonKind::Absolute),
    {
        self.variant_arms(variants_with_args, ComparisonKind::Absolute)
    }

    /// The absolute comparison's term for the field in slot `n` of a variant,
    /// bound to `x<n>` and `y<n>`; none for a skipped field.
    pub fn get_abs_diff_eq_single_field(&self, n: usize, field_with_args: &FieldWithArgs) -> (r:
        Option<Term>)
        ensures
            r == term_of(*field_with_args, n, true, self.epsilon_parent, ComparisonKind::Absolute),
    {
        self.field_term(n, field_with_args, true, ComparisonKind::Absolute)
    }
}

} // verus!
