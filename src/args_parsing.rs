//! The directive model: what `#[approx(...)]` says about a field or a type.
//!
//! Type and expression text is held as `String`: the library compares type
//! names and carries expressions through to the generated code unchanged.
use vstd::prelude::*;
use crate::text::{clone_text, text_eq};

verus! {

/// How a field's value and the tolerance are reconciled when their types differ.
#[derive(Clone, Copy, Debug, PartialEq, Eq, Structural)]
pub enum TypeCast {
    /// Both operands are cast to the tolerance type.
    CastField,
    /// The tolerance values are cast to the field's own type.
    CastValue,
}

/// A directive as the front end tokenised it: `keyword` or `keyword = value`.
pub struct RawDirective {
    pub keyword: String,
    pub value: Option<String>,
}

/// Why a type description could not be turned into comparisons.
#[derive(Debug)]
pub enum DescriptorError {
    /// A field directive without a value that is not one of the known words.
    UnknownValue(String),
    /// A `keyword = value` directive whose keyword is not known.
    UnknownKeyword(String),
    /// A record with no fields: it has nothing to compare.
    NoFields(String),
    /// A variant that mixes named and positional fields; it names the variant.
    MixedFields(String),
}

/// A field as it is declared: its name (none for a positional field), its
/// type and its merged directives.
pub struct FieldWithArgs {
    pub ident: Option<String>,
    pub ty: String,
    pub args: FieldArgs,
}

/// A variant of a union, with its fields. The directives of each field
/// already hold the variant's own directives as defaults.
pub struct EnumVariant {
    pub ident: String,
    pub discriminant: Option<String>,
    pub fields_with_args: Vec<FieldWithArgs>,
}

/// A field as the front end hands it over, with its directives not yet read.
pub struct RawField {
    pub ident: Option<String>,
    pub ty: String,
    pub attrs: Vec<RawDirective>,
}

/// A variant as the front end hands it over.
pub struct RawVariant {
    pub ident: String,
    pub discriminant: Option<String>,
    pub attrs: Vec<RawDirective>,
    pub fields: Vec<RawField>,
}

impl FieldWithArgs {
    /// Reads the directives of a declared field.
    pub fn from_field(field: &RawField) -> (r: Result<Self, DescriptorError>)
        ensures
            match field_args_of(field.attrs@) {
                Some(a) => r matches Ok(f) && f.ident == field.ident && f.ty == field.ty && f.args
                    == a,
                None => r is Err && unknown_directive(field.attrs@, r->Err_0),
            },
    {
        let args = FieldArgs::from_attrs(&field.attrs)?;
        let ident = clone_text(&field.ident);
        let ty = field.ty.clone();
        Ok(FieldWithArgs { ident, ty, args })
    }
}

/// Every directive that a field can carry. `None` means "not given".
pub struct FieldArgs {
    pub skip: Option<bool>,
    pub set_equal: Option<bool>,
    pub cast_strategy: Option<TypeCast>,
    pub epsilon_static_value: Option<String>,
    pub max_relative_static_value: Option<String>,
    pub mapping: Option<String>,
    pub epsilon_mapping: Option<String>,
    pub max_relative_mapping: Option<String>,
    pub use_iterator: Option<bool>,
}

/// The first of two optional settings that is given.
pub open spec fn first_given<T>(a: Option<T>, b: Option<T>) -> Option<T> {
    if a is Some {
        a
    } else {
        b
    }
}

/// `a` with every setting that it leaves open taken from `b`.
pub open spec fn patched(a: FieldArgs, b: FieldArgs) -> FieldArgs {
    FieldArgs {
        skip: first_given(a.skip, b.skip),
        set_equal: first_given(a.set_equal, b.set_equal),
        cast_strategy: first_given(a.cast_strategy, b.cast_strategy),
        epsilon_static_value: first_given(a.epsilon_static_value, b.epsilon_static_value),
        max_relative_static_value: first_given(
            a.max_relative_static_value,
            b.max_relative_static_value,
        ),
        mapping: first_given(a.mapping, b.mapping),
        epsilon_mapping: first_given(a.epsilon_mapping, b.epsilon_mapping),
        max_relative_mapping: first_given(a.max_relative_mapping, b.max_relative_mapping),
        use_iterator: first_given(a.use_iterator, b.use_iterator),
    }
}

/// No directive given.
pub open spec fn no_field_args() -> FieldArgs {
    FieldArgs {
        skip: None,
        set_equal: None,
        cast_strategy: None,
        epsilon_static_value: None,
        max_relative_static_value: None,
        mapping: None,
        epsilon_mapping: None,
        max_relative_mapping: None,
        use_iterator: None,
    }
}

fn first_given_text(a: &Option<String>, b: &Option<String>) -> (r: Option<String>)
    ensures
        r == first_given(*a, *b),
{
    if a.is_some() {
        clone_text(a)
    } else {
        clone_text(b)
    }
}

impl FieldArgs {
    /// Fills every setting that `self` leaves open from `other`; what `self`
    /// gives wins.
    pub fn patch_if_not_exists(&mut self, other: &Self)
        ensures
            *final(self) == patched(*old(self), *other),
    {
        let skip = if self.skip.is_some() { self.skip } else { other.skip };
        let set_equal = if self.set_equal.is_some() { self.set_equal } else { other.set_equal };
        let cast_strategy = if self.cast_strategy.is_some() {
            self.cast_strategy
        } else {
            other.cast_strategy
        };
        let use_iterator = if self.use_iterator.is_some() {
            self.use_iterator
        } else {
            other.use_iterator
        };
        let epsilon_static_value = first_given_text(
            &self.epsilon_static_value,
            &other.epsilon_static_value,
        );
        let max_relative_static_value = first_given_text(
            &self.max_relative_static_value,
            &other.max_relative_static_value,
        );
        let mapping = first_given_text(&self.mapping, &other.mapping);
        let epsilon_mapping = first_given_text(&self.epsilon_mapping, &other.epsilon_mapping);
        let max_relative_mapping = first_given_text(
            &self.max_relative_mapping,
            &other.max_relative_mapping,
        );
        *self =
        FieldArgs {
            skip,
            set_equal,
            cast_strategy,
            epsilon_static_value,
            max_relative_static_value,
            mapping,
            epsilon_mapping,
            max_relative_mapping,
            use_iterator,
        };
    }
}

/// A field directive without a value: `#[approx(word)]`.
#[derive(Clone, Copy, Debug, PartialEq, Eq, Structural)]
pub enum FieldValueArg {
    Skip,
    CastStrategy(TypeCast),
    Equal,
    Iter,
}

/// The meaning of a field directive word, if it is one.
pub open spec fn field_value_arg_of(word: Seq<char>) -> Option<FieldValueArg> {
    if word == "skip"@ {
        Some(FieldValueArg::Skip)
    } else if word == "cast_field"@ {
        Some(FieldValueArg::CastStrategy(TypeCast::CastField))
    } else if word == "cast_value"@ {
        Some(FieldValueArg::CastStrategy(TypeCast::CastValue))
    } else if word == "equal"@ {
        Some(FieldValueArg::Equal)
    } else if word == "into_iter"@ {
        Some(FieldValueArg::Iter)
    } else {
        None
    }
}

impl FieldValueArg {
    /// Reads a field directive word.
    pub fn from_ident(ident: &str) -> (r: Result<Self, DescriptorError>)
        ensures
            match field_value_arg_of(ident@) {
                Some(v) => r == Ok::<Self, DescriptorError>(v),
                None => r matches Err(DescriptorError::UnknownValue(w)) && w@ == ident@,
            },
    {
        if text_eq(ident, "skip") {
            Ok(FieldValueArg::Skip)
        } else if text_eq(ident, "cast_field") {
            Ok(FieldValueArg::CastStrategy(TypeCast::CastField))
        } else if text_eq(ident, "cast_value") {
            Ok(FieldValueArg::CastStrategy(TypeCast::CastValue))
        } else if text_eq(ident, "equal") {
            Ok(FieldValueArg::Equal)
        } else if text_eq(ident, "into_iter") {
            Ok(FieldValueArg::Iter)
        } else {
            Err(DescriptorError::UnknownValue(ident.to_owned()))
        }
    }
}

/// A field directive with a value: `#[approx(keyword = value)]`.
pub enum FieldKeyValueArg {
    EpsilonStatic(Option<String>),
    MaxRelativeStatic(Option<String>),
    Mapping(Option<String>),
    EpsilonMapping(Option<String>),
    MaxRelativeMapping(Option<String>),
}

/// The meaning of a field directive `keyword = value`, if the keyword is known.
pub open spec fn field_key_value_arg_of(keyword: Seq<char>, value: String) -> Option<
    FieldKeyValueArg,
> {
    if keyword == "static_epsilon"@ {
        Some(FieldKeyValueArg::EpsilonStatic(Some(value)))
    } else if keyword == "static_max_relative"@ {
        Some(FieldKeyValueArg::MaxRelativeStatic(Some(value)))
    } else if keyword == "map"@ {
        Some(FieldKeyValueArg::Mapping(Some(value)))
    } else if keyword == "epsilon_map"@ {
        Some(FieldKeyValueArg::EpsilonMapping(Some(value)))
    } else if keyword == "max_relative_map"@ {
        Some(FieldKeyValueArg::MaxRelativeMapping(Some(value)))
    } else {
        None
    }
}

impl FieldKeyValueArg {
    /// Reads a field directive `keyword = value`.
    pub fn parse_value(keyword: &str, value: &String) -> (r: Result<Self, DescriptorError>)
        ensures
            match field_key_value_arg_of(keyword@, *value) {
                Some(v) => r == Ok::<Self, DescriptorError>(v),
                None => r matches Err(DescriptorError::UnknownKeyword(w)) && w@ == keyword@,
            },
    {
        let v = value.clone();
        if text_eq(keyword, "static_epsilon") {
            Ok(FieldKeyValueArg::EpsilonStatic(Some(v)))
        } else if text_eq(keyword, "static_max_relative") {
            Ok(FieldKeyValueArg::MaxRelativeStatic(Some(v)))
        } else if text_eq(keyword, "map") {
            Ok(FieldKeyValueArg::Mapping(Some(v)))
        } else if text_eq(keyword, "epsilon_map") {
            Ok(FieldKeyValueArg::EpsilonMapping(Some(v)))
        } else if text_eq(keyword, "max_relative_map") {
            Ok(FieldKeyValueArg::MaxRelativeMapping(Some(v)))
        } else {
            Err(DescriptorError::UnknownKeyword(keyword.to_owned()))
        }
    }
}

/// A field directive of either form.
pub enum FieldArgGeneric {
    Value(FieldValueArg),
    KeyValue(FieldKeyValueArg),
}

/// The meaning of one field directive, if it is a known one.
pub open spec fn field_arg_of(d: RawDirective) -> Option<FieldArgGeneric> {
    match d.value {
        Some(v) => match field_key_value_arg_of(d.keyword@, v) {
            Some(a) => Some(FieldArgGeneric::KeyValue(a)),
            None => None,
        },
        None => match field_value_arg_of(d.keyword@) {
            Some(a) => Some(FieldArgGeneric::Value(a)),
            None => None,
        },
    }
}

/// The error names a directive of `ds` that is not known, by its keyword.
pub open spec fn unknown_directive(ds: Seq<RawDirective>, e: DescriptorError) -> bool {
    exists|i: int|
        0 <= i < ds.len() && field_arg_of(#[trigger] ds[i]) is None && match e {
            DescriptorError::UnknownValue(w) => ds[i].value is None && w@ == ds[i].keyword@,
            DescriptorError::UnknownKeyword(w) => ds[i].value is Some && w@ == ds[i].keyword@,
            _ => false,
        }
}

impl FieldArgGeneric {
    /// Reads one field directive.
    pub fn parse(d: &RawDirective) -> (r: Result<Self, DescriptorError>)
        ensures
            match field_arg_of(*d) {
                Some(a) => r == Ok::<Self, DescriptorError>(a),
                None => r is Err && unknown_directive(seq![*d], r->Err_0),
            },
    {
        let ghost ds = seq![*d];
        assert(ds[0] == *d);
        match &d.value {
            Some(v) => {
                let a = FieldKeyValueArg::parse_value(d.keyword.as_str(), v)?;
                Ok(FieldArgGeneric::KeyValue(a))
            },
            None => {
                let a = FieldValueArg::from_ident(d.keyword.as_str())?;
                Ok(FieldArgGeneric::Value(a))
            },
        }
    }
}

/// The settings `a` after the directive `g`: a later directive overrides an
/// earlier one of the same kind.
pub open spec fn with_field_arg(a: FieldArgs, g: FieldArgGeneric) -> FieldArgs {
    match g {
        FieldArgGeneric::Value(FieldValueArg::Skip) => FieldArgs { skip: Some(true), ..a },
        FieldArgGeneric::Value(FieldValueArg::CastStrategy(c)) => FieldArgs {
            cast_strategy: Some(c),
            ..a
        },
        FieldArgGeneric::Value(FieldValueArg::Equal) => FieldArgs { set_equal: Some(true), ..a },
        FieldArgGeneric::Value(FieldValueArg::Iter) => FieldArgs { use_iterator: Some(true), ..a },
        FieldArgGeneric::KeyValue(FieldKeyValueArg::EpsilonStatic(e)) => FieldArgs {
            epsilon_static_value: e,
            ..a
        },
        FieldArgGeneric::KeyValue(FieldKeyValueArg::MaxRelativeStatic(e)) => FieldArgs {
            max_relative_static_value: e,
            ..a
        },
        FieldArgGeneric::KeyValue(FieldKeyValueArg::Mapping(e)) => FieldArgs { mapping: e, ..a },
        FieldArgGeneric::KeyValue(FieldKeyValueArg::EpsilonMapping(e)) => FieldArgs {
            epsilon_mapping: e,
            ..a
        },
        FieldArgGeneric::KeyValue(FieldKeyValueArg::MaxRelativeMapping(e)) => FieldArgs {
            max_relative_mapping: e,
            ..a
        },
    }
}

/// The settings that the first `n` directives of `ds` give, or `None` if one
/// of them is not known.
pub open spec fn field_args_upto(ds: Seq<RawDirective>, n: int) -> Option<FieldArgs>
    decreases n,
{
    if n <= 0 {
        Some(no_field_args())
    } else {
        match (field_args_upto(ds, n - 1), field_arg_of(ds[n - 1])) {
            (Some(a), Some(g)) => Some(with_field_arg(a, g)),
            _ => None,
        }
    }
}

/// The settings that the directives `ds` give, read in order.
pub open spec fn field_args_of(ds: Seq<RawDirective>) -> Option<FieldArgs> {
    field_args_upto(ds, ds.len() as int)
}

proof fn lemma_field_args_stay_unknown(ds: Seq<RawDirective>, i: int, n: int)
    requires
        0 <= i < n <= ds.len(),
        field_arg_of(ds[i]) is None,
    ensures
        field_args_upto(ds, n) is None,
    decreases n,
{
    if n > i + 1 {
        lemma_field_args_stay_unknown(ds, i, n - 1);
    }
}

impl FieldArgs {
    /// Reads the directives of a field, in order.
    pub fn from_attrs(attributes: &Vec<RawDirective>) -> (r: Result<Self, DescriptorError>)
        ensures
            match field_args_of(attributes@) {
                Some(a) => r == Ok::<Self, DescriptorError>(a),
                None => r is Err && unknown_directive(attributes@, r->Err_0),
            },
    {
        let mut acc = FieldArgs {
            skip: None,
            set_equal: None,
            cast_strategy: None,
            epsilon_static_value: None,
            max_relative_static_value: None,
            mapping: None,
            epsilon_mapping: None,
            max_relative_mapping: None,
            use_iterator: None,
        };
        let mut i: usize = 0;
        while i < attributes.len()
            invariant
                i <= attributes@.len(),
                field_args_upto(attributes@, i as int) == Some(acc),
            decreases attributes@.len() - i,
        {
            let g = match FieldArgGeneric::parse(&attributes[i]) {
                Ok(g) => g,
                Err(e) => {
                    proof {
                        lemma_field_args_stay_unknown(
                            attributes@,
                            i as int,
                            attributes@.len() as int,
                        );
                    }
                    return Err(e);
                },
            };
            match g {
                FieldArgGeneric::Value(FieldValueArg::Skip) => acc.skip = Some(true),
                FieldArgGeneric::Value(FieldValueArg::CastStrategy(c)) => acc.cast_strategy = Some(c),
                FieldArgGeneric::Value(FieldValueArg::Equal) => acc.set_equal = Some(true),
                FieldArgGeneric::Value(FieldValueArg::Iter) => acc.use_iterator = Some(true),
                FieldArgGeneric::KeyValue(FieldKeyValueArg::EpsilonStatic(e)) => acc.epsilon_static_value = e,
                FieldArgGeneric::KeyValue(FieldKeyValueArg::MaxRelativeStatic(e)) => acc.max_relative_static_value = e,
                FieldArgGeneric::KeyValue(FieldKeyValueArg::Mapping(e)) => acc.mapping = e,
                FieldArgGeneric::KeyValue(FieldKeyValueArg::EpsilonMapping(e)) => acc.epsilon_mapping = e,
                FieldArgGeneric::KeyValue(FieldKeyValueArg::MaxRelativeMapping(e)) => acc.max_relative_mapping = e,
            }
            i = i + 1;
        }
        Ok(acc)
    }
}

/// A type directive without a value. No such word is defined at the type
/// level, so every one is refused; the variant stands for the form alone.
#[derive(Clone, Copy, Debug, PartialEq, Eq, Structural)]
pub enum StructValueArg {
    Word,
}

impl StructValueArg {
    /// Reads a type directive word: none is known, so the word is refused.
    pub fn from_ident(ident: &str) -> (r: Result<Self, DescriptorError>)
        ensures
            r matches Err(DescriptorError::UnknownValue(w)) && w@ == ident@,
    {
        Err(DescriptorError::UnknownValue(ident.to_owned()))
    }
}

/// A type directive with a value: `#[approx(keyword = value)]` on the type.
pub enum StructKeyValueArg {
    EpsilonType(String),
    DefaultEpsilon(String),
    DefaultMaxRelative(String),
}

/// The meaning of a type directive `keyword = value`, if the keyword is known.
pub open spec fn struct_key_value_arg_of(keyword: Seq<char>, value: String) -> Option<
    StructKeyValueArg,
> {
    if keyword == "epsilon_type"@ {
        Some(StructKeyValueArg::EpsilonType(value))
    } else if keyword == "default_epsilon"@ {
        Some(StructKeyValueArg::DefaultEpsilon(value))
    } else if keyword == "default_max_relative"@ {
        Some(StructKeyValueArg::DefaultMaxRelative(value))
    } else {
        None
    }
}

impl StructKeyValueArg {
    /// Reads a type directive `keyword = value`.
    pub fn parse_value(keyword: &str, value: &String) -> (r: Result<Self, DescriptorError>)
        ensures
            match struct_key_value_arg_of(keyword@, *value) {
                Some(v) => r == Ok::<Self, DescriptorError>(v),
                None => r matches Err(DescriptorError::UnknownKeyword(w)) && w@ == keyword@,
            },
    {
        let v = value.clone();
        if text_eq(keyword, "epsilon_type") {
            Ok(StructKeyValueArg::EpsilonType(v))
        } else if text_eq(keyword, "default_epsilon") {
            Ok(StructKeyValueArg::DefaultEpsilon(v))
        } else if text_eq(keyword, "default_max_relative") {
            Ok(StructKeyValueArg::DefaultMaxRelative(v))
        } else {
            Err(DescriptorError::UnknownKeyword(keyword.to_owned()))
        }
    }
}

/// A type directive of either form.
pub enum StructArgGeneric {
    Value(StructValueArg),
    KeyValue(StructKeyValueArg),
}

/// The meaning of one type directive, if it is a known one.
pub open spec fn struct_arg_of(d: RawDirective) -> Option<StructArgGeneric> {
    match d.value {
        Some(v) => match struct_key_value_arg_of(d.keyword@, v) {
            Some(a) => Some(StructArgGeneric::KeyValue(a)),
            None => None,
        },
        None => None,
    }
}

impl StructArgGeneric {
    /// Reads one type directive.
    pub fn parse(d: &RawDirective) -> (r: Result<Self, DescriptorError>)
        ensures
            match struct_arg_of(*d) {
                Some(a) => r == Ok::<Self, DescriptorError>(a),
                None => r is Err && unknown_type_directive(seq![*d], r->Err_0),
            },
    {
        let ghost ds = seq![*d];
        assert(ds[0] == *d);
        match &d.value {
            Some(v) => {
                let a = StructKeyValueArg::parse_value(d.keyword.as_str(), v)?;
                Ok(StructArgGeneric::KeyValue(a))
            },
            None => {
                let a = StructValueArg::from_ident(d.keyword.as_str())?;
                Ok(StructArgGeneric::Value(a))
            },
        }
    }
}

/// The directives of a type.
pub struct StructArgs {
    pub epsilon_type: Option<String>,
    pub default_epsilon_value: Option<String>,
    pub default_max_relative_value: Option<String>,
}

/// The settings `a` after the type directive `g`.
pub open spec fn with_struct_arg(a: StructArgs, g: StructArgGeneric) -> StructArgs {
    match g {
        StructArgGeneric::Value(_) => a,
        StructArgGeneric::KeyValue(StructKeyValueArg::EpsilonType(t)) => StructArgs {
            epsilon_type: Some(t),
            ..a
        },
        StructArgGeneric::KeyValue(StructKeyValueArg::DefaultEpsilon(e)) => StructArgs {
            default_epsilon_value: Some(e),
            ..a
        },
        StructArgGeneric::KeyValue(StructKeyValueArg::DefaultMaxRelative(e)) => StructArgs {
            default_max_relative_value: Some(e),
            ..a
        },
    }
}

/// The type settings that the first `n` directives of `ds` give, or `None` if
/// one of them is not known.
pub open spec fn struct_args_upto(ds: Seq<RawDirective>, n: int) -> Option<StructArgs>
    decreases n,
{
    if n <= 0 {
        Some(StructArgs { epsilon_type: None, default_epsilon_value: None, default_max_relative_value: None })
    } else {
        match (struct_args_upto(ds, n - 1), struct_arg_of(ds[n - 1])) {
            (Some(a), Some(g)) => Some(with_struct_arg(a, g)),
            _ => None,
        }
    }
}

/// The type settings that the directives `ds` give, read in order.
pub open spec fn struct_args_of(ds: Seq<RawDirective>) -> Option<StructArgs> {
    struct_args_upto(ds, ds.len() as int)
}

/// The error names a type directive of `ds` that is not known, by its keyword.
pub open spec fn unknown_type_directive(ds: Seq<RawDirective>, e: DescriptorError) -> bool {
    exists|i: int|
        0 <= i < ds.len() && struct_arg_of(#[trigger] ds[i]) is None && match e {
            DescriptorError::UnknownValue(w) => ds[i].value is None && w@ == ds[i].keyword@,
            DescriptorError::UnknownKeyword(w) => ds[i].value is Some && w@ == ds[i].keyword@,
            _ => false,
        }
}

proof fn lemma_struct_args_stay_unknown(ds: Seq<RawDirective>, i: int, n: int)
    requires
        0 <= i < n <= ds.len(),
        struct_arg_of(ds[i]) is None,
    ensures
        struct_args_upto(ds, n) is None,
    decreases n,
{
    if n > i + 1 {
        lemma_struct_args_stay_unknown(ds, i, n - 1);
    }
}

impl StructArgs {
    /// Reads the directives of a type, in order.
    pub fn from_attrs(attributes: &Vec<RawDirective>) -> (r: Result<Self, DescriptorError>)
        ensures
            match struct_args_of(attributes@) {
                Some(a) => r == Ok::<Self, DescriptorError>(a),
                None => r is Err && unknown_type_directive(attributes@, r->Err_0),
            },
    {
        let mut acc = StructArgs {
            epsilon_type: None,
            default_epsilon_value: None,
            default_max_relative_value: None,
        };
        let mut i: usize = 0;
        while i < attributes.len()
            invariant
                i <= attributes@.len(),
                struct_args_upto(attributes@, i as int) == Some(acc),
            decreases attributes@.len() - i,
        {
            let g = match StructArgGeneric::parse(&attributes[i]) {
                Ok(g) => g,
                Err(e) => {
                    proof {
                        lemma_struct_args_stay_unknown(
                            attributes@,
                            i as int,
                            attributes@.len() as int,
                        );
                    }
                    return Err(e);
                },
            };
            match g {
                StructArgGeneric::Value(_) => {},
                StructArgGeneric::KeyValue(StructKeyValueArg::EpsilonType(t)) => acc.epsilon_type = Some(t),
                StructArgGeneric::KeyValue(StructKeyValueArg::DefaultEpsilon(e)) => acc.default_epsilon_value = Some(e),
                StructArgGeneric::KeyValue(StructKeyValueArg::DefaultMaxRelative(e)) => acc.default_max_relative_value = Some(e),
            }
            i = i + 1;
        }
        Ok(acc)
    }
}

} // verus!
