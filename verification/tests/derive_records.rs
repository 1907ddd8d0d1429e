use aspartial::config::{ConfigsForAsPartial, ModeConfig, NameConfig, PartialIsInnerConfig};
use aspartial::decode::decode;
use aspartial::partial_schema::do_derive_as_partial;
use aspartial::partial_value::PartialValue;
use aspartial::schema::{DefaultRule, Field, Schema, Ty, TypeDef, Variant};
use aspartial::value::Value;

fn s(x: &str) -> String {
    x.to_string()
}

fn named_config(name: &str) -> ConfigsForAsPartial {
    ConfigsForAsPartial {
        mode: ModeConfig::Name(NameConfig { ident: s(name) }),
        attrs: Vec::new(),
    }
}

fn newtype_config() -> ConfigsForAsPartial {
    ConfigsForAsPartial {
        mode: ModeConfig::PartialIsInner(PartialIsInnerConfig {}),
        attrs: Vec::new(),
    }
}

fn field(name: &str, ty: Ty, rule: DefaultRule) -> Field {
    Field {
        name: s(name),
        rename: None,
        ty,
        rule,
    }
}

fn obj(entries: Vec<(&str, Value)>) -> Value {
    Value::Obj(entries.into_iter().map(|(k, v)| (s(k), v)).collect())
}

fn slot(pv: &PartialValue, name: &str) -> Option<PartialValue> {
    match pv {
        PartialValue::Record(slots) => {
            for (n, v) in slots {
                if n == name {
                    return v.clone();
                }
            }
            panic!("no slot named {}", name);
        }
        _ => panic!("not a record"),
    }
}

fn some_struct_def() -> TypeDef {
    // struct SomeStruct { #[serde(default = "default_number")] a: u32, b: String }
    // where default_number() == 7
    TypeDef {
        config: named_config("PartialSomeStruct"),
        schema: Schema::RecordSchema(vec![
            field("a", Ty::IntTy, DefaultRule::ExplicitDefault(Value::Int(7))),
            field("b", Ty::StrTy, DefaultRule::NoDefault),
        ]),
    }
}

#[test]
fn test_derive_simple() {
    let def = some_struct_def();
    let pty = do_derive_as_partial(&def).unwrap();

    let raw = obj(vec![("a", Value::Int(123)), ("b", Value::Str(s("lala")))]);
    let parsed = decode(&pty, &raw).unwrap();
    assert_eq!(slot(&parsed, "a"), Some(PartialValue::Int(123)));
    assert_eq!(slot(&parsed, "b"), Some(PartialValue::Str(s("lala"))));

    let raw = obj(vec![("a", Value::Int(123))]);
    let parsed = decode(&pty, &raw).unwrap();
    assert_eq!(slot(&parsed, "a"), Some(PartialValue::Int(123)));
    assert_eq!(slot(&parsed, "b"), None);

    let raw = obj(vec![("b", Value::Str(s("lala")))]);
    let parsed = decode(&pty, &raw).unwrap();
    assert_eq!(slot(&parsed, "a"), Some(PartialValue::Int(7)));
    assert_eq!(slot(&parsed, "b"), Some(PartialValue::Str(s("lala"))));
}

#[test]
fn test_derive_struct() {
    // struct SomeStruct {
    //     normal_string_field: String,
    //     #[serde(default = "_seven")] defaults_to_7: u32,
    //     #[serde(default)] defaults_to_default: bool,
    // }
    let def = TypeDef {
        config: named_config("PartialSomeStruct"),
        schema: Schema::RecordSchema(vec![
            field("normal_string_field", Ty::StrTy, DefaultRule::NoDefault),
            field(
                "defaults_to_7",
                Ty::IntTy,
                DefaultRule::ExplicitDefault(Value::Int(7)),
            ),
            field("defaults_to_default", Ty::BoolTy, DefaultRule::ImplicitDefault),
        ]),
    };
    let pty = do_derive_as_partial(&def).unwrap();

    let raw = obj(vec![]);
    let parsed = decode(&pty, &raw).unwrap();
    assert_eq!(slot(&parsed, "normal_string_field"), None);
    assert_eq!(slot(&parsed, "defaults_to_7"), Some(PartialValue::Int(7)));
    assert_eq!(
        slot(&parsed, "defaults_to_default"),
        Some(PartialValue::Bool(false))
    );
}

#[test]
fn test_generic_structs() {
    // struct Something { b: String }
    let something = TypeDef {
        config: named_config("PartialSomething"),
        schema: Schema::RecordSchema(vec![field("b", Ty::StrTy, DefaultRule::NoDefault)]),
    };
    // struct MyGeneric<R> { generic_field: R, string_field: Option<String> },
    // instantiated with R = Something
    let my_generic = TypeDef {
        config: named_config("PartialMyGeneric"),
        schema: Schema::RecordSchema(vec![
            field(
                "generic_field",
                Ty::NamedTy(Box::new(something)),
                DefaultRule::NoDefault,
            ),
            field(
                "string_field",
                Ty::OptionTy(Box::new(Ty::StrTy)),
                DefaultRule::NoDefault,
            ),
        ]),
    };
    let pty = do_derive_as_partial(&my_generic).unwrap();

    let raw = obj(vec![
        (
            "generic_field",
            obj(vec![("a", Value::Int(123)), ("b", Value::Str(s("lele")))]),
        ),
        ("string_field", Value::Str(s("lalala"))),
    ]);
    let parsed = decode(&pty, &raw).unwrap();
    assert_eq!(
        slot(&parsed, "generic_field"),
        Some(PartialValue::Record(vec![(
            s("b"),
            Some(PartialValue::Str(s("lele")))
        )]))
    );
}

#[test]
fn test_newtype_derive() {
    // struct InnerStruct { a: u32, b: String }
    let inner = TypeDef {
        config: named_config("PartialInnerStruct"),
        schema: Schema::RecordSchema(vec![
            field("a", Ty::IntTy, DefaultRule::NoDefault),
            field("b", Ty::StrTy, DefaultRule::NoDefault),
        ]),
    };
    // struct MidStruct(InnerStruct); with pass-through configuration
    let mid = TypeDef {
        config: newtype_config(),
        schema: Schema::RecordSchema(vec![field(
            "0",
            Ty::NamedTy(Box::new(inner)),
            DefaultRule::NoDefault,
        )]),
    };
    // struct OuterStruct { mid: MidStruct }
    let outer = TypeDef {
        config: named_config("PartialOuterStruct"),
        schema: Schema::RecordSchema(vec![field(
            "mid",
            Ty::NamedTy(Box::new(mid)),
            DefaultRule::NoDefault,
        )]),
    };
    let pty = do_derive_as_partial(&outer).unwrap();

    let raw_outer = obj(vec![("mid", obj(vec![("a", Value::Int(123))]))]);
    let parsed = decode(&pty, &raw_outer).unwrap();
    let expected = PartialValue::Record(vec![(
        s("mid"),
        Some(PartialValue::Record(vec![
            (s("a"), Some(PartialValue::Int(123))),
            (s("b"), None),
        ])),
    )]);
    assert_eq!(parsed, expected);
}

#[test]
fn test_newtype_is_alias_of_inner() {
    // A pass-through wrapper's partial schema equals the inner field's own
    // partial schema: no wrapping layer is introduced.
    let inner = TypeDef {
        config: named_config("PartialInnerStruct"),
        schema: Schema::RecordSchema(vec![
            field("a", Ty::IntTy, DefaultRule::NoDefault),
            field("b", Ty::StrTy, DefaultRule::NoDefault),
        ]),
    };
    let inner_again = TypeDef {
        config: named_config("PartialInnerStruct"),
        schema: Schema::RecordSchema(vec![
            field("a", Ty::IntTy, DefaultRule::NoDefault),
            field("b", Ty::StrTy, DefaultRule::NoDefault),
        ]),
    };
    let mid = TypeDef {
        config: newtype_config(),
        schema: Schema::RecordSchema(vec![field(
            "0",
            Ty::NamedTy(Box::new(inner)),
            DefaultRule::NoDefault,
        )]),
    };
    let wrapper_pty = do_derive_as_partial(&mid).unwrap();
    let inner_pty = do_derive_as_partial(&inner_again).unwrap();
    assert_eq!(wrapper_pty, inner_pty);

    let raw = obj(vec![("a", Value::Int(123))]);
    let through_wrapper = decode(&wrapper_pty, &raw).unwrap();
    let through_inner = decode(&inner_pty, &raw).unwrap();
    assert_eq!(through_wrapper, through_inner);
    assert_eq!(
        through_wrapper,
        PartialValue::Record(vec![
            (s("a"), Some(PartialValue::Int(123))),
            (s("b"), None),
        ])
    );
}

#[test]
fn test_field_rename_takes_precedence() {
    let def = TypeDef {
        config: named_config("PartialRenamed"),
        schema: Schema::RecordSchema(vec![Field {
            name: s("value"),
            rename: Some(s("wire_value")),
            ty: Ty::IntTy,
            rule: DefaultRule::NoDefault,
        }]),
    };
    let pty = do_derive_as_partial(&def).unwrap();

    let raw = obj(vec![("wire_value", Value::Int(5))]);
    let parsed = decode(&pty, &raw).unwrap();
    assert_eq!(slot(&parsed, "value"), Some(PartialValue::Int(5)));

    let raw = obj(vec![("value", Value::Int(5))]);
    let parsed = decode(&pty, &raw).unwrap();
    assert_eq!(slot(&parsed, "value"), None);
}

#[test]
fn test_variant_helpers_used_by_derivation() {
    let v = Variant {
        name: s("Variant1"),
        rename: None,
        payload: Ty::IntTy,
    };
    assert_eq!(v.partial_field_name(), s("variant1"));
    assert_eq!(v.tag(&None), s("Variant1"));
    let renamed = Variant {
        name: s("Variant1"),
        rename: Some(s("bla")),
        payload: Ty::IntTy,
    };
    assert_eq!(renamed.tag(&None), s("bla"));
}
