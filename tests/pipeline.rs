use approx_derive::abs_diff_eq::{
    AbsDiffEqParser, Bound, ComparisonBody, DefaultValue, EpsilonType, Implementation,
};
use approx_derive::args_parsing::{
    DescriptorError, FieldArgGeneric, FieldArgs, FieldKeyValueArg, FieldValueArg, RawDirective,
    RawField, RawVariant, StructArgs, StructValueArg, TypeCast,
};
use approx_derive::base_types::{
    ApproxName, BaseType, ComparisonKind, FieldAccess, Side, Strategy, Term, ToleranceSource,
    VariantShape,
};
use approx_derive::{derive_abs_diff_eq, derive_rel_diff_eq};

fn word(k: &str) -> RawDirective {
    RawDirective { keyword: k.to_string(), value: None }
}

fn kv(k: &str, v: &str) -> RawDirective {
    RawDirective { keyword: k.to_string(), value: Some(v.to_string()) }
}

fn named(name: &str, ty: &str, attrs: Vec<RawDirective>) -> RawField {
    RawField { ident: Some(name.to_string()), ty: ty.to_string(), attrs }
}

fn positional(ty: &str, attrs: Vec<RawDirective>) -> RawField {
    RawField { ident: None, ty: ty.to_string(), attrs }
}

fn record(fields: Vec<RawField>) -> BaseType {
    BaseType::from_struct("Rec".to_string(), vec![], vec![], &fields).ok().unwrap()
}

fn record_with(generics: Vec<&str>, attrs: Vec<RawDirective>, fields: Vec<RawField>) -> BaseType {
    let generics = generics.into_iter().map(|g| g.to_string()).collect();
    BaseType::from_struct("Rec".to_string(), generics, attrs, &fields).ok().unwrap()
}

fn parser(t: BaseType) -> AbsDiffEqParser {
    AbsDiffEqParser::parse(t).ok().unwrap()
}

fn terms(i: &Implementation) -> &Vec<Term> {
    match &i.body {
        ComparisonBody::Fields(t) => t,
        ComparisonBody::Variants(_) => panic!("expected a record body"),
    }
}

#[test]
fn field_words_are_read() {
    assert!(matches!(FieldValueArg::from_ident("skip"), Ok(FieldValueArg::Skip)));
    assert!(matches!(FieldValueArg::from_ident("equal"), Ok(FieldValueArg::Equal)));
    assert!(matches!(FieldValueArg::from_ident("into_iter"), Ok(FieldValueArg::Iter)));
    assert!(matches!(
        FieldValueArg::from_ident("cast_field"),
        Ok(FieldValueArg::CastStrategy(TypeCast::CastField))
    ));
    assert!(matches!(
        FieldValueArg::from_ident("cast_value"),
        Ok(FieldValueArg::CastStrategy(TypeCast::CastValue))
    ));
    match FieldValueArg::from_ident("skipp") {
        Err(DescriptorError::UnknownValue(w)) => assert_eq!(w, "skipp"),
        _ => panic!("an unknown word must be refused"),
    }
}

#[test]
fn field_keywords_are_read() {
    let v = "1.0e-3".to_string();
    match FieldKeyValueArg::parse_value("static_epsilon", &v) {
        Ok(FieldKeyValueArg::EpsilonStatic(Some(e))) => assert_eq!(e, "1.0e-3"),
        _ => panic!(),
    }
    assert!(matches!(
        FieldKeyValueArg::parse_value("map", &v),
        Ok(FieldKeyValueArg::Mapping(Some(_)))
    ));
    assert!(matches!(
        FieldKeyValueArg::parse_value("max_relative_map", &v),
        Ok(FieldKeyValueArg::MaxRelativeMapping(Some(_)))
    ));
    match FieldKeyValueArg::parse_value("mapping", &v) {
        Err(DescriptorError::UnknownKeyword(w)) => assert_eq!(w, "mapping"),
        _ => panic!("an unknown keyword must be refused"),
    }
    assert!(matches!(
        FieldArgGeneric::parse(&kv("epsilon_map", "f")),
        Ok(FieldArgGeneric::KeyValue(FieldKeyValueArg::EpsilonMapping(Some(_))))
    ));
    assert!(matches!(
        FieldArgGeneric::parse(&word("equal")),
        Ok(FieldArgGeneric::Value(FieldValueArg::Equal))
    ));
}

#[test]
fn later_field_directive_overrides_earlier() {
    let a = FieldArgs::from_attrs(&vec![
        kv("static_epsilon", "1"),
        word("cast_field"),
        kv("static_epsilon", "2"),
        word("cast_value"),
    ])
    .ok()
    .unwrap();
    assert_eq!(a.epsilon_static_value.as_deref(), Some("2"));
    assert_eq!(a.cast_strategy, Some(TypeCast::CastValue));
    assert_eq!(a.skip, None);
    assert!(matches!(
        FieldArgs::from_attrs(&vec![word("skip"), word("bogus")]),
        Err(DescriptorError::UnknownValue(_))
    ));
}

#[test]
fn patch_keeps_own_settings() {
    let mut own = FieldArgs::from_attrs(&vec![word("equal"), kv("map", "f")]).ok().unwrap();
    let defaults =
        FieldArgs::from_attrs(&vec![word("skip"), kv("map", "g"), word("into_iter")]).ok().unwrap();
    own.patch_if_not_exists(&defaults);
    assert_eq!(own.set_equal, Some(true));
    assert_eq!(own.skip, Some(true));
    assert_eq!(own.mapping.as_deref(), Some("f"));
    assert_eq!(own.use_iterator, Some(true));
    assert_eq!(own.cast_strategy, None);
}

#[test]
fn type_directives_are_read() {
    match StructValueArg::from_ident("anything") {
        Err(DescriptorError::UnknownValue(w)) => assert_eq!(w, "anything"),
        _ => panic!("no bare word is known at the type level"),
    }
    let a = StructArgs::from_attrs(&vec![
        kv("epsilon_type", "f32"),
        kv("default_epsilon", "0.5"),
        kv("default_max_relative", "0.25"),
    ])
    .ok()
    .unwrap();
    assert_eq!(a.epsilon_type.as_deref(), Some("f32"));
    assert_eq!(a.default_epsilon_value.as_deref(), Some("0.5"));
    assert_eq!(a.default_max_relative_value.as_deref(), Some("0.25"));
    match StructArgs::from_attrs(&vec![kv("epsilon", "f32")]) {
        Err(DescriptorError::UnknownKeyword(w)) => assert_eq!(w, "epsilon"),
        _ => panic!(),
    }
    match StructArgs::from_attrs(&vec![kv("epsilon_type", "f32"), word("whatever")]) {
        Err(DescriptorError::UnknownValue(w)) => assert_eq!(w, "whatever"),
        _ => panic!("a bare word at the type level must be refused"),
    }
}

#[test]
fn record_without_fields_is_refused() {
    match BaseType::from_struct("Empty".to_string(), vec![], vec![], &vec![]) {
        Err(DescriptorError::NoFields(n)) => assert_eq!(n, "Empty"),
        _ => panic!("a record without fields must be refused"),
    }
}

#[test]
fn variant_mixing_named_and_positional_is_refused() {
    let v = RawVariant {
        ident: "Odd".to_string(),
        discriminant: None,
        attrs: vec![],
        fields: vec![named("a", "f64", vec![]), positional("f64", vec![])],
    };
    match BaseType::from_enum("U".to_string(), vec![], vec![], &vec![v]) {
        Err(DescriptorError::MixedFields(n)) => assert_eq!(n, "Odd"),
        _ => panic!(),
    }
}

#[test]
fn unknown_type_directive_is_refused() {
    let t = record_with(vec![], vec![kv("epsilon_kind", "f32")], vec![named("a", "f64", vec![])]);
    assert!(matches!(AbsDiffEqParser::parse(t), Err(DescriptorError::UnknownKeyword(_))));
}

#[test]
fn tolerance_type_is_first_kept_field() {
    let p = parser(record(vec![
        named("id", "usize", vec![word("skip")]),
        named("v", "f32", vec![]),
        named("w", "f64", vec![]),
    ]));
    assert_eq!(p.get_epsilon_parent_type(), "f32");
}

#[test]
fn tolerance_type_given_wins() {
    let p = parser(record_with(
        vec![],
        vec![kv("epsilon_type", "f64")],
        vec![named("v", "f32", vec![])],
    ));
    assert_eq!(p.get_epsilon_parent_type(), "f64");
    let e: EpsilonType = p.get_derived_epsilon_type();
    assert_eq!(e.parent, "f64");
}

#[test]
fn tolerance_type_defaults_to_f64() {
    let p = parser(record(vec![named("id", "usize", vec![word("skip")])]));
    assert_eq!(p.get_epsilon_parent_type(), "f64");
}

#[test]
fn tolerance_type_of_union_looks_through_variants() {
    let vs = vec![
        RawVariant { ident: "Unit".to_string(), discriminant: None, attrs: vec![], fields: vec![] },
        RawVariant {
            ident: "Skipped".to_string(),
            discriminant: None,
            attrs: vec![word("skip")],
            fields: vec![positional("u8", vec![])],
        },
        RawVariant {
            ident: "Pair".to_string(),
            discriminant: None,
            attrs: vec![],
            fields: vec![positional("f32", vec![]), positional("f64", vec![])],
        },
    ];
    let t = BaseType::from_enum("U".to_string(), vec![], vec![], &vs).ok().unwrap();
    assert_eq!(parser(t).get_epsilon_parent_type(), "f32");
}

#[test]
fn default_values_follow_type_directives() {
    let p = parser(record(vec![named("v", "f32", vec![])]));
    let (e, d) = p.get_epsilon_type_and_default_value();
    assert_eq!(e.parent, "f32");
    assert!(matches!(d, DefaultValue::DefaultEpsilonOf(t) if t == "f32"));
    assert!(matches!(p.get_max_relative_default_value(), DefaultValue::DefaultMaxRelativeOf(t) if t == "f32"));
    let q = parser(record_with(
        vec![],
        vec![kv("default_epsilon", "0.5"), kv("default_max_relative", "0.25")],
        vec![named("v", "f32", vec![])],
    ));
    assert!(matches!(q.get_epsilon_type_and_default_value().1, DefaultValue::Given(e) if e == "0.5"));
    assert!(matches!(q.get_max_relative_default_value(), DefaultValue::Given(e) if e == "0.25"));
}

#[test]
fn generic_coupled_type_gets_bounds() {
    let p = parser(record_with(vec!["T"], vec![], vec![named("v", "T", vec![])]));
    assert!(p.generics_involved());
    let b = p.generate_where_clause(false);
    assert_eq!(b.len(), 3);
    assert!(matches!(&b[0], Bound::Tolerance(t, ComparisonKind::Relative) if t == "T"));
    assert!(matches!(&b[1], Bound::HostEq(t) if t == "T"));
    assert!(matches!(&b[2], Bound::EpsilonClone(t) if t == "T"));
    let q = parser(record_with(vec!["T"], vec![], vec![named("v", "f64", vec![])]));
    assert!(!q.generics_involved());
    assert!(q.generate_where_clause(true).is_empty());
}

#[test]
fn all_skipped_record_has_no_terms() {
    let t = record(vec![
        named("a", "f64", vec![word("skip")]),
        named("b", "f32", vec![word("skip")]),
    ]);
    let i = derive_abs_diff_eq(t).ok().unwrap();
    assert!(terms(&i).is_empty());
    let t = record(vec![positional("f64", vec![word("skip")])]);
    let (abs, rel) = derive_rel_diff_eq(t).ok().unwrap();
    assert_eq!(abs.kind, ComparisonKind::Absolute);
    assert_eq!(rel.kind, ComparisonKind::Relative);
    assert!(terms(&abs).is_empty());
    assert!(terms(&rel).is_empty());
}

#[test]
fn equal_field_is_host_equality() {
    let t = record(vec![named("name", "String", vec![word("equal")]), named("v", "f64", vec![])]);
    let i = derive_abs_diff_eq(t).ok().unwrap();
    let ts = terms(&i);
    assert_eq!(ts.len(), 2);
    assert_eq!(ts[0].plan.strategy(), Strategy::Equality);
    assert_eq!(ts[1].plan.strategy(), Strategy::Direct);
    assert_eq!(ts[1].slot, 1);
}

#[test]
fn equal_wins_over_map_and_map_over_iteration() {
    let t = record(vec![
        named("a", "f64", vec![kv("map", "f"), word("equal")]),
        named("b", "Vec<f64>", vec![word("into_iter"), kv("map", "g")]),
        named("c", "Vec<f64>", vec![word("into_iter")]),
    ]);
    let i = derive_abs_diff_eq(t).ok().unwrap();
    let ts = terms(&i);
    assert_eq!(ts[0].plan.strategy(), Strategy::Equality);
    assert_eq!(ts[1].plan.strategy(), Strategy::Mapped);
    assert_eq!(ts[1].plan.mapping.as_deref(), Some("g"));
    assert_eq!(ts[2].plan.strategy(), Strategy::Iterative);
}

#[test]
fn cast_field_and_cast_value_differ() {
    let p = parser(record(vec![
        named("v1", "f32", vec![]),
        named("v2", "f64", vec![word("cast_field")]),
        named("v3", "f64", vec![word("cast_value")]),
    ]));
    let ts = p.get_abs_diff_eq_struct_fields(match &p.base_type {
        BaseType::Struct { fields_with_args, .. } => fields_with_args,
        BaseType::Enum { .. } => panic!(),
    });
    // cast_field: the values are cast to the tolerance type
    assert_eq!(ts[1].plan.base_type, "f32");
    assert_eq!(ts[1].plan.own_field.cast_to.as_deref(), Some("f32"));
    assert_eq!(ts[1].plan.other_field.cast_to.as_deref(), Some("f32"));
    assert_eq!(ts[1].plan.epsilon.cast_to, None);
    // cast_value: the tolerance is cast to the field's type
    assert_eq!(ts[2].plan.base_type, "f64");
    assert_eq!(ts[2].plan.own_field.cast_to, None);
    assert_eq!(ts[2].plan.epsilon.cast_to.as_deref(), Some("f64"));
    assert_eq!(ts[2].plan.max_relative.cast_to.as_deref(), Some("f64"));
    // no cast: compared at the tolerance type, values as they are
    assert_eq!(ts[0].plan.base_type, "f32");
    assert_eq!(ts[0].plan.own_field.cast_to, None);
}

#[test]
fn static_and_mapped_tolerances() {
    let p = parser(record(vec![named(
        "v",
        "f64",
        vec![kv("static_epsilon", "0.1"), kv("max_relative_map", "h")],
    )]));
    let f = match &p.base_type {
        BaseType::Struct { fields_with_args, .. } => &fields_with_args[0],
        BaseType::Enum { .. } => panic!(),
    };
    let plan = p.format_nth_field(0, f, false).unwrap();
    assert!(matches!(&plan.epsilon.source, ToleranceSource::Static(e) if e == "0.1"));
    assert_eq!(plan.epsilon.map, None);
    assert!(matches!(plan.max_relative.source, ToleranceSource::Ambient));
    assert_eq!(plan.max_relative.map.as_deref(), Some("h"));
    assert!(matches!(&plan.own_field.access, FieldAccess::Named(n) if n == "v"));
    assert_eq!(plan.own_field.side, Side::Own);
    assert_eq!(plan.other_field.side, Side::Other);
}

#[test]
fn skipped_field_has_no_plan() {
    let p = parser(record(vec![positional("f64", vec![]), positional("u8", vec![word("skip")])]));
    let fs = match &p.base_type {
        BaseType::Struct { fields_with_args, .. } => fields_with_args,
        BaseType::Enum { .. } => panic!(),
    };
    assert!(p.format_nth_field(1, &fs[1], false).is_none());
    let plan = p.format_nth_field(0, &fs[0], false).unwrap();
    assert!(matches!(plan.own_field.access, FieldAccess::Index(0)));
    assert!(p.get_abs_diff_eq_single_field(1, &fs[1]).is_none());
    let t = p.get_rel_eq_single_field(0, &fs[0]).unwrap();
    assert_eq!(t.kind, ComparisonKind::Relative);
    assert!(matches!(t.plan.own_field.access, FieldAccess::Placeholder(0)));
}

#[test]
fn union_has_one_arm_per_variant() {
    let vs = vec![
        RawVariant {
            ident: "Point".to_string(),
            discriminant: None,
            attrs: vec![],
            fields: vec![named("x", "f64", vec![]), named("y", "f64", vec![word("skip")])],
        },
        RawVariant {
            ident: "Pair".to_string(),
            discriminant: None,
            attrs: vec![word("equal")],
            fields: vec![positional("f64", vec![]), positional("f64", vec![])],
        },
        RawVariant { ident: "Nothing".to_string(), discriminant: None, attrs: vec![], fields: vec![] },
    ];
    let t = BaseType::from_enum("Shape".to_string(), vec![], vec![], &vs).ok().unwrap();
    let (abs, i) = derive_rel_diff_eq(t).ok().unwrap();
    assert_eq!(abs.ident, "Shape");
    assert_eq!(abs.kind, ComparisonKind::Absolute);
    assert!(matches!(&abs.body, ComparisonBody::Variants(a) if a.len() == 3));
    assert_eq!(i.ident, "Shape");
    let arms = match &i.body {
        ComparisonBody::Variants(a) => a,
        ComparisonBody::Fields(_) => panic!(),
    };
    assert_eq!(arms.len(), 3);
    assert_eq!(arms[0].variant, "Point");
    assert_eq!(arms[0].shape, VariantShape::Named);
    assert_eq!(arms[0].field_names.len(), 2);
    assert_eq!(arms[0].terms.len(), 1);
    assert_eq!(arms[1].shape, VariantShape::Positional);
    assert_eq!(arms[1].terms.len(), 2);
    assert_eq!(arms[1].terms[1].plan.strategy(), Strategy::Equality);
    assert_eq!(arms[2].shape, VariantShape::Unit);
    assert!(arms[2].terms.is_empty());
}

#[test]
fn relative_derive_gives_both_impls_for_one_tolerance_type() {
    let t = record_with(
        vec![],
        vec![kv("default_epsilon", "0.5"), kv("default_max_relative", "0.25")],
        vec![named("v", "f32", vec![]), named("w", "f64", vec![word("cast_value")])],
    );
    let (abs, rel) = derive_rel_diff_eq(t).ok().unwrap();
    assert_eq!(abs.epsilon_type.parent, "f32");
    assert_eq!(rel.epsilon_type.parent, "f32");
    assert!(matches!(&abs.default_value, DefaultValue::Given(e) if e == "0.5"));
    assert!(matches!(&rel.default_value, DefaultValue::Given(e) if e == "0.25"));
    assert_eq!(terms(&abs).len(), 2);
    assert_eq!(terms(&rel).len(), 2);
    assert_eq!(terms(&abs)[1].kind, ComparisonKind::Absolute);
    assert_eq!(terms(&rel)[1].kind, ComparisonKind::Relative);
}

#[test]
fn union_errors_name_the_variant_or_directive() {
    let bad_variant_word = RawVariant {
        ident: "A".to_string(),
        discriminant: None,
        attrs: vec![word("bogus")],
        fields: vec![],
    };
    match BaseType::from_enum("U".to_string(), vec![], vec![], &vec![bad_variant_word]) {
        Err(DescriptorError::UnknownValue(w)) => assert_eq!(w, "bogus"),
        _ => panic!(),
    }
    let bad_field_keyword = RawVariant {
        ident: "B".to_string(),
        discriminant: None,
        attrs: vec![],
        fields: vec![positional("f64", vec![kv("mapp", "f")])],
    };
    match BaseType::from_enum("U".to_string(), vec![], vec![], &vec![bad_field_keyword]) {
        Err(DescriptorError::UnknownKeyword(w)) => assert_eq!(w, "mapp"),
        _ => panic!(),
    }
}

#[test]
fn approx_name_is_the_crate_path() {
    assert_eq!(ApproxName.name(), "approx");
}
