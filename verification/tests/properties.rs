use aspartial::attributes::SerdeEnumTagParams;
use aspartial::config::{ConfigsForAsPartial, ModeConfig, NameConfig};
use aspartial::convert::to_partial;
use aspartial::decode::{decode, try_decode};
use aspartial::errors::DecodeError;
use aspartial::partial_schema::do_derive_as_partial;
use aspartial::partial_value::PartialValue;
use aspartial::schema::{DefaultRule, Field, Schema, Ty, TypeDef, Variant};
use aspartial::value::Value;
use aspartial::AsPartial;

fn s(x: &str) -> String {
    x.to_string()
}

fn config(name: &str) -> ConfigsForAsPartial {
    ConfigsForAsPartial {
        mode: ModeConfig::Name(NameConfig { ident: s(name) }),
        attrs: Vec::new(),
    }
}

fn field(name: &str, ty: Ty, rule: DefaultRule) -> Field {
    Field {
        name: s(name),
        rename: None,
        ty,
        rule,
    }
}

fn obj(entries: Vec<(&str, Value)>) -> Value {
    Value::Obj(entries.into_iter().map(|(k, v)| (s(k), v)).collect())
}

fn slot(pv: &PartialValue, name: &str) -> Option<PartialValue> {
    match pv {
        PartialValue::Record(slots) => {
            for (n, v) in slots {
                if n == name {
                    return v.clone();
                }
            }
            panic!("no slot named {}", name);
        }
        _ => panic!("not a record"),
    }
}

#[test]
fn test_empty_object_defaults_recursively() {
    // A defaulted field of record type receives the record's intrinsic
    // default with every nested slot present, converted recursively.
    let inner = TypeDef {
        config: config("PartialInner"),
        schema: Schema::RecordSchema(vec![
            field("x", Ty::IntTy, DefaultRule::NoDefault),
            field("y", Ty::BoolTy, DefaultRule::NoDefault),
        ]),
    };
    let def = TypeDef {
        config: config("PartialOuter"),
        schema: Schema::RecordSchema(vec![
            field("plain", Ty::StrTy, DefaultRule::NoDefault),
            field(
                "nested",
                Ty::NamedTy(Box::new(inner)),
                DefaultRule::ImplicitDefault,
            ),
        ]),
    };
    let pty = do_derive_as_partial(&def).unwrap();
    let parsed = decode(&pty, &obj(vec![])).unwrap();
    assert_eq!(slot(&parsed, "plain"), None);
    assert_eq!(
        slot(&parsed, "nested"),
        Some(PartialValue::Record(vec![
            (s("x"), Some(PartialValue::Int(0))),
            (s("y"), Some(PartialValue::Bool(false))),
        ]))
    );
}

#[test]
fn test_explicit_default_converted_recursively() {
    // A stored full default value of record type is converted through the
    // partial-conversion rule: it becomes a fully-present partial record.
    let inner = TypeDef {
        config: config("PartialPoint"),
        schema: Schema::RecordSchema(vec![field("a", Ty::IntTy, DefaultRule::NoDefault)]),
    };
    let def = TypeDef {
        config: config("PartialHolder"),
        schema: Schema::RecordSchema(vec![field(
            "point",
            Ty::NamedTy(Box::new(inner)),
            DefaultRule::ExplicitDefault(obj(vec![("a", Value::Int(5))])),
        )]),
    };
    let pty = do_derive_as_partial(&def).unwrap();
    let parsed = decode(&pty, &obj(vec![])).unwrap();
    assert_eq!(
        slot(&parsed, "point"),
        Some(PartialValue::Record(vec![(
            s("a"),
            Some(PartialValue::Int(5))
        )]))
    );
}

#[test]
fn test_present_field_equals_direct_decode() {
    let inner = TypeDef {
        config: config("PartialInner"),
        schema: Schema::RecordSchema(vec![field("x", Ty::IntTy, DefaultRule::NoDefault)]),
    };
    let inner_ty = Ty::NamedTy(Box::new(inner));
    let def = TypeDef {
        config: config("PartialOuter"),
        schema: Schema::RecordSchema(vec![Field {
            name: s("nested"),
            rename: None,
            ty: inner_ty,
            rule: DefaultRule::NoDefault,
        }]),
    };
    let pty = do_derive_as_partial(&def).unwrap();
    let nested_raw = obj(vec![("x", Value::Int(11))]);
    let raw = obj(vec![("nested", obj(vec![("x", Value::Int(11))]))]);
    let parsed = decode(&pty, &raw).unwrap();

    // The slot holds exactly what the nested value decodes to directly.
    let nested_pty = match &pty {
        aspartial::partial_schema::PartialTy::RecordPt(rec) => &rec.fields[0].ty,
        _ => panic!("expected a record partial schema"),
    };
    let direct = try_decode(nested_pty, &nested_raw).unwrap();
    assert_eq!(slot(&parsed, "nested"), Some(direct));
}

#[test]
fn test_untagged_value_fills_two_slots() {
    // A value that fits two variants' payload shapes fills both slots.
    let make_inner = |name: &str| TypeDef {
        config: config(name),
        schema: Schema::RecordSchema(vec![field("x", Ty::IntTy, DefaultRule::NoDefault)]),
    };
    let def = TypeDef {
        config: config("PartialEither"),
        schema: Schema::SumSchema {
            variants: vec![
                Variant {
                    name: s("First"),
                    rename: None,
                    payload: Ty::NamedTy(Box::new(make_inner("PartialFirstPayload"))),
                },
                Variant {
                    name: s("Second"),
                    rename: None,
                    payload: Ty::NamedTy(Box::new(make_inner("PartialSecondPayload"))),
                },
            ],
            tagging: SerdeEnumTagParams::Untagged,
            rename_all: None,
        },
    };
    let pty = do_derive_as_partial(&def).unwrap();
    let raw = obj(vec![("x", Value::Int(1))]);
    let parsed = decode(&pty, &raw).unwrap();
    let expected =
        PartialValue::Record(vec![(s("x"), Some(PartialValue::Int(1)))]);
    assert_eq!(slot(&parsed, "first"), Some(expected.clone()));
    assert_eq!(slot(&parsed, "second"), Some(expected));
}

#[test]
fn test_partial_conversion_idempotent() {
    // Converting an already-partial value through the partial-conversion rule
    // yields the same value, unchanged.
    let pv = PartialValue::Record(vec![
        (s("a"), Some(PartialValue::Int(3))),
        (s("b"), None),
        (
            s("c"),
            Some(PartialValue::List(vec![PartialValue::Str(s("v"))])),
        ),
    ]);
    assert_eq!(pv.clone().to_partial(), pv);
}

#[test]
fn test_value_embeds_as_fully_present_partial() {
    let v = obj(vec![
        ("a", Value::Int(1)),
        ("b", obj(vec![("c", Value::Bool(true))])),
    ]);
    let pv = v.to_partial();
    assert_eq!(
        pv,
        PartialValue::Record(vec![
            (s("a"), Some(PartialValue::Int(1))),
            (
                s("b"),
                Some(PartialValue::Record(vec![(
                    s("c"),
                    Some(PartialValue::Bool(true))
                )]))
            ),
        ])
    );
}

#[test]
fn test_nesting_depth_preserved() {
    // Three levels of nesting decode to three levels of nesting: nothing is
    // flattened on the way.
    let level0 = TypeDef {
        config: config("PartialLevel0"),
        schema: Schema::RecordSchema(vec![field("a", Ty::IntTy, DefaultRule::NoDefault)]),
    };
    let level1 = TypeDef {
        config: config("PartialLevel1"),
        schema: Schema::RecordSchema(vec![field(
            "a",
            Ty::NamedTy(Box::new(level0)),
            DefaultRule::NoDefault,
        )]),
    };
    let level2 = TypeDef {
        config: config("PartialLevel2"),
        schema: Schema::RecordSchema(vec![field(
            "a",
            Ty::NamedTy(Box::new(level1)),
            DefaultRule::NoDefault,
        )]),
    };
    let pty = do_derive_as_partial(&level2).unwrap();
    let raw = obj(vec![("a", obj(vec![("a", obj(vec![("a", Value::Int(7))]))]))]);
    let parsed = decode(&pty, &raw).unwrap();
    let expected = PartialValue::Record(vec![(
        s("a"),
        Some(PartialValue::Record(vec![(
            s("a"),
            Some(PartialValue::Record(vec![(
                s("a"),
                Some(PartialValue::Int(7)),
            )])),
        )])),
    )]);
    assert_eq!(parsed, expected);
}

#[test]
fn test_outer_shape_mismatch() {
    let def = TypeDef {
        config: config("PartialThing"),
        schema: Schema::RecordSchema(vec![field("a", Ty::IntTy, DefaultRule::NoDefault)]),
    };
    let pty = do_derive_as_partial(&def).unwrap();
    assert_eq!(
        decode(&pty, &Value::Int(3)),
        Err(DecodeError::OuterShapeMismatch)
    );
    assert_eq!(
        decode(&pty, &Value::Arr(vec![])),
        Err(DecodeError::OuterShapeMismatch)
    );
}

#[test]
fn test_malformed_field_swallowed() {
    // A field whose value fails to decode leaves only that slot absent;
    // siblings decode independently. A malformed defaulted field falls back
    // to its default.
    let def = TypeDef {
        config: config("PartialThing"),
        schema: Schema::RecordSchema(vec![
            field("a", Ty::IntTy, DefaultRule::NoDefault),
            field("b", Ty::StrTy, DefaultRule::NoDefault),
            field(
                "c",
                Ty::IntTy,
                DefaultRule::ExplicitDefault(Value::Int(42)),
            ),
        ]),
    };
    let pty = do_derive_as_partial(&def).unwrap();
    let raw = obj(vec![
        ("a", Value::Str(s("not an int"))),
        ("b", Value::Str(s("fine"))),
        ("c", Value::Bool(true)),
    ]);
    let parsed = decode(&pty, &raw).unwrap();
    assert_eq!(slot(&parsed, "a"), None);
    assert_eq!(slot(&parsed, "b"), Some(PartialValue::Str(s("fine"))));
    assert_eq!(slot(&parsed, "c"), Some(PartialValue::Int(42)));
}

#[test]
fn test_option_and_list_decode() {
    let def = TypeDef {
        config: config("PartialThing"),
        schema: Schema::RecordSchema(vec![
            field(
                "maybe",
                Ty::OptionTy(Box::new(Ty::IntTy)),
                DefaultRule::NoDefault,
            ),
            field(
                "many",
                Ty::ListTy(Box::new(Ty::IntTy)),
                DefaultRule::NoDefault,
            ),
        ]),
    };
    let pty = do_derive_as_partial(&def).unwrap();
    let raw = obj(vec![
        ("maybe", Value::Null),
        ("many", Value::Arr(vec![Value::Int(1), Value::Int(2)])),
    ]);
    let parsed = decode(&pty, &raw).unwrap();
    assert_eq!(slot(&parsed, "maybe"), Some(PartialValue::Null));
    assert_eq!(
        slot(&parsed, "many"),
        Some(PartialValue::List(vec![
            PartialValue::Int(1),
            PartialValue::Int(2)
        ]))
    );

    // A list with one malformed element fails as a whole, leaving the slot
    // absent.
    let raw = obj(vec![(
        "many",
        Value::Arr(vec![Value::Int(1), Value::Str(s("oops"))]),
    )]);
    let parsed = decode(&pty, &raw).unwrap();
    assert_eq!(slot(&parsed, "many"), None);
}

#[test]
fn test_to_partial_strict_on_full_values() {
    // The partial-conversion rule accepts exactly the full values: a record
    // value missing a field does not convert, a complete one converts with
    // every slot present.
    let def = TypeDef {
        config: config("PartialThing"),
        schema: Schema::RecordSchema(vec![
            field("a", Ty::IntTy, DefaultRule::NoDefault),
            field("b", Ty::StrTy, DefaultRule::NoDefault),
        ]),
    };
    let pty = do_derive_as_partial(&def).unwrap();
    assert_eq!(to_partial(&pty, &obj(vec![("a", Value::Int(1))])), None);
    assert_eq!(
        to_partial(
            &pty,
            &obj(vec![("a", Value::Int(1)), ("b", Value::Str(s("x")))])
        ),
        Some(PartialValue::Record(vec![
            (s("a"), Some(PartialValue::Int(1))),
            (s("b"), Some(PartialValue::Str(s("x")))),
        ]))
    );
}

#[test]
fn test_primitive_to_partial_is_identity() {
    assert_eq!(7u32.to_partial(), 7u32);
    assert_eq!(true.to_partial(), true);
    assert_eq!(s("abc").to_partial(), s("abc"));
    assert_eq!(Some(5u64).to_partial(), Some(5u64));
    assert_eq!(
        vec![s("a"), s("b")].to_partial(),
        vec![s("a"), s("b")]
    );
}
