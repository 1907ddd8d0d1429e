use aspartial::attributes::{
    Attr, Marker, RenameStyle, SerdeDefaultAttrParams, SerdeEnumTagParams,
    SerdeInnerRenameParams, SerdeOuterRenameParams,
};
use aspartial::config::{Config, ConfigsForAsPartial, ModeConfig, PartialIsInnerConfig, NameConfig};
use aspartial::errors::DefinitionError;
use aspartial::partial_schema::do_derive_as_partial;
use aspartial::schema::{DefaultRule, Field, Schema, Ty, TypeDef, Variant};
use aspartial::value::Value;

fn s(x: &str) -> String {
    x.to_string()
}

fn kv(k: &str, v: &str) -> Marker {
    Marker::KeyValue(s(k), s(v))
}

fn word(w: &str) -> Marker {
    Marker::Word(s(w))
}

fn serde_attr(markers: Vec<Marker>) -> Attr {
    Attr {
        path: s("serde"),
        inner: false,
        args: Some(markers),
    }
}

fn aspartial_attr(markers: Vec<Marker>) -> Attr {
    Attr {
        path: s("aspartial"),
        inner: false,
        args: Some(markers),
    }
}

#[test]
fn test_resolve_tagging_conventions() {
    assert_eq!(
        SerdeEnumTagParams::parse(&vec![word("untagged")]),
        Ok(SerdeEnumTagParams::Untagged)
    );
    assert_eq!(
        SerdeEnumTagParams::parse(&vec![kv("tag", "t")]),
        Ok(SerdeEnumTagParams::InternallyTagged { tag_key: s("t") })
    );
    assert_eq!(
        SerdeEnumTagParams::parse(&vec![kv("tag", "t"), kv("content", "c")]),
        Ok(SerdeEnumTagParams::AdjacentlyTagged {
            tag_key: s("t"),
            content_key: s("c")
        })
    );
    assert_eq!(
        SerdeEnumTagParams::parse(&vec![kv("content", "c"), kv("tag", "t")]),
        Ok(SerdeEnumTagParams::AdjacentlyTagged {
            tag_key: s("t"),
            content_key: s("c")
        })
    );
    assert_eq!(
        SerdeEnumTagParams::parse(&vec![]),
        Err(DefinitionError::ExpectedTagParams)
    );
    assert_eq!(
        SerdeEnumTagParams::parse(&vec![kv("rename", "x")]),
        Err(DefinitionError::ExpectedTagKey)
    );
    assert_eq!(
        SerdeEnumTagParams::parse(&vec![kv("content", "c")]),
        Err(DefinitionError::ExpectedTagKey)
    );
    assert_eq!(
        SerdeEnumTagParams::parse(&vec![kv("tag", "t"), kv("tag", "t2")]),
        Err(DefinitionError::ExpectedContentKey)
    );
    assert_eq!(
        SerdeEnumTagParams::parse(&vec![kv("tag", "t"), kv("content", "c"), kv("x", "y")]),
        Err(DefinitionError::TooManyTagParams)
    );
    assert_eq!(
        SerdeEnumTagParams::parse(&vec![word("something")]),
        Err(DefinitionError::ExpectedKeyValueParam)
    );
}

#[test]
fn test_tagging_from_attributes() {
    // No marker at all: externally tagged by default.
    assert_eq!(
        SerdeEnumTagParams::from_attributes(&vec![]),
        SerdeEnumTagParams::ExternallyTagged
    );
    // An attribute of another framework is skipped.
    let other = Attr {
        path: s("allow"),
        inner: false,
        args: Some(vec![word("untagged")]),
    };
    assert_eq!(
        SerdeEnumTagParams::from_attributes(&vec![other, serde_attr(vec![kv("tag", "k")])]),
        SerdeEnumTagParams::InternallyTagged { tag_key: s("k") }
    );
    // An unreadable serde attribute is skipped too.
    assert_eq!(
        SerdeEnumTagParams::from_attributes(&vec![serde_attr(vec![kv("rename", "z")])]),
        SerdeEnumTagParams::ExternallyTagged
    );
}

#[test]
fn test_config_parse() {
    let parsed = Config::parse(&kv("name", "PartialFoo")).unwrap();
    match parsed {
        Config::Name(conf) => assert_eq!(conf.ident, s("PartialFoo")),
        _ => panic!("expected name config"),
    }
    let parsed = Config::parse(&word("newtype")).unwrap();
    assert!(matches!(parsed, Config::PartialIsInner(_)));
    let parsed =
        Config::parse(&Marker::Group(s("attrs"), vec![s("#[derive(Debug)]")])).unwrap();
    match parsed {
        Config::Attrs(conf) => assert_eq!(conf.attrs, vec![s("#[derive(Debug)]")]),
        _ => panic!("expected attrs config"),
    }
    assert_eq!(
        Config::parse(&word("unknown")),
        Err(DefinitionError::UnrecognizedConfig)
    );
}

#[test]
fn test_configs_from_attrs() {
    // Exactly one mode, annotations accumulate in order.
    let attrs = vec![
        aspartial_attr(vec![kv("name", "PartialFoo")]),
        aspartial_attr(vec![Marker::Group(s("attrs"), vec![s("#[x]")])]),
        aspartial_attr(vec![Marker::Group(s("attrs"), vec![s("#[y]")])]),
        serde_attr(vec![word("default")]),
    ];
    let confs = ConfigsForAsPartial::from_attrs(&attrs).unwrap();
    match &confs.mode {
        ModeConfig::Name(conf) => assert_eq!(conf.ident, s("PartialFoo")),
        _ => panic!("expected name mode"),
    }
    assert_eq!(confs.attrs, vec![s("#[x]"), s("#[y]")]);

    // No mode configured.
    assert_eq!(
        ConfigsForAsPartial::from_attrs(&vec![]).unwrap_err(),
        DefinitionError::ModeNotSet
    );
    // Mode configured twice.
    assert_eq!(
        ConfigsForAsPartial::from_attrs(&vec![
            aspartial_attr(vec![kv("name", "A")]),
            aspartial_attr(vec![word("newtype")]),
        ])
        .unwrap_err(),
        DefinitionError::ModeSetTwice
    );
    // An unreadable configuration item fails the whole validation.
    assert_eq!(
        ConfigsForAsPartial::from_attrs(&vec![aspartial_attr(vec![word("bogus")])]).unwrap_err(),
        DefinitionError::UnrecognizedConfig
    );
}

#[test]
fn test_default_marker_parse() {
    let parsed = SerdeDefaultAttrParams::parse(&word("default")).unwrap();
    assert_eq!(parsed.func, None);
    let parsed = SerdeDefaultAttrParams::parse(&kv("default", "seven")).unwrap();
    assert_eq!(parsed.func, Some(s("seven")));
    assert_eq!(
        SerdeDefaultAttrParams::parse(&word("rename")),
        Err(DefinitionError::ExpectedDefaultMarker)
    );
}

#[test]
fn test_attr_default_predicates() {
    let plain_default = serde_attr(vec![word("default")]);
    assert!(plain_default.is_serde_attr());
    assert!(plain_default.is_serde_regular_default());
    assert!(!plain_default.is_serde_default_to_func());
    assert!(plain_default.is_serde_any_default());

    let func_default = serde_attr(vec![kv("default", "seven")]);
    assert!(!func_default.is_serde_regular_default());
    assert_eq!(func_default.as_serde_default_func_path(), Some(s("seven")));
    assert!(func_default.is_serde_any_default());

    let inner = Attr {
        path: s("serde"),
        inner: true,
        args: Some(vec![word("default")]),
    };
    assert!(!inner.is_serde_regular_default());

    let not_serde = Attr {
        path: s("allow"),
        inner: false,
        args: Some(vec![word("default")]),
    };
    assert!(!not_serde.is_serde_attr());
    assert!(!not_serde.is_serde_any_default());
}

#[test]
fn test_rename_params() {
    let parsed = SerdeInnerRenameParams::parse(&vec![kv("rename", "bla")]).unwrap();
    assert_eq!(parsed.new_name, s("bla"));
    assert_eq!(
        SerdeInnerRenameParams::parse(&vec![kv("tag", "x")]).unwrap_err(),
        DefinitionError::ExpectedRenameKey
    );
    assert!(SerdeInnerRenameParams::try_from_attr(&serde_attr(vec![kv("rename", "bla")]))
        .is_some());

    let parsed =
        SerdeOuterRenameParams::parse(&vec![kv("rename_all", "snake_case")]).unwrap();
    assert_eq!(parsed.rename_style, RenameStyle::SnakeCase);
    assert_eq!(
        SerdeOuterRenameParams::parse(&vec![kv("rename_all", "whatever")]).unwrap_err(),
        DefinitionError::InvalidRenameStyle
    );
    assert!(
        SerdeOuterRenameParams::try_from_attr(&serde_attr(vec![kv("rename_all", "lowercase")]))
            .is_some()
    );
}

#[test]
fn test_rename_style_try_from() {
    assert_eq!(
        RenameStyle::try_from(&s("lowercase")),
        Ok(RenameStyle::Lowercase)
    );
    assert_eq!(
        RenameStyle::try_from(&s("UPPERCASE")),
        Ok(RenameStyle::Uppercase)
    );
    assert_eq!(
        RenameStyle::try_from(&s("PascalCase")),
        Ok(RenameStyle::PascalCase)
    );
    assert_eq!(
        RenameStyle::try_from(&s("camelCase")),
        Ok(RenameStyle::CamelCase)
    );
    assert_eq!(
        RenameStyle::try_from(&s("snake_case")),
        Ok(RenameStyle::SnakeCase)
    );
    assert_eq!(
        RenameStyle::try_from(&s("SCREAMING_SNAKE_CASE")),
        Ok(RenameStyle::ScreamingSnakeCase)
    );
    assert_eq!(
        RenameStyle::try_from(&s("kebab-case")),
        Ok(RenameStyle::KebabCase)
    );
    assert_eq!(
        RenameStyle::try_from(&s("SCREAMING-KEBAB-CASE")),
        Ok(RenameStyle::ScreamingKebabCase)
    );
    assert_eq!(
        RenameStyle::try_from(&s("Whatever")),
        Err(DefinitionError::InvalidRenameStyle)
    );
}

#[test]
fn test_rename_style_transforms() {
    assert_eq!(RenameStyle::Lowercase.transform(&s("ABCdef")), s("abcdef"));
    assert_eq!(RenameStyle::Uppercase.transform(&s("abcDEF")), s("ABCDEF"));
    assert_eq!(
        RenameStyle::PascalCase.transform(&s("some_field")),
        s("SomeField")
    );
    assert_eq!(
        RenameStyle::CamelCase.transform(&s("some_field")),
        s("someField")
    );
    assert_eq!(
        RenameStyle::SnakeCase.transform(&s("SomeField")),
        s("some_field")
    );
    assert_eq!(
        RenameStyle::ScreamingSnakeCase.transform(&s("someField")),
        s("SOME_FIELD")
    );
    assert_eq!(
        RenameStyle::KebabCase.transform(&s("SomeField")),
        s("some-field")
    );
    assert_eq!(
        RenameStyle::ScreamingKebabCase.transform(&s("someField")),
        s("SOME-FIELD")
    );
}

#[test]
fn test_builder_definition_errors() {
    let newtype = ConfigsForAsPartial {
        mode: ModeConfig::PartialIsInner(PartialIsInnerConfig {}),
        attrs: Vec::new(),
    };
    let named = || ConfigsForAsPartial {
        mode: ModeConfig::Name(NameConfig { ident: s("PartialX") }),
        attrs: Vec::new(),
    };
    let req = |name: &str, ty: Ty| Field {
        name: s(name),
        rename: None,
        ty,
        rule: DefaultRule::NoDefault,
    };

    // Pass-through mode on a sum type.
    let def = TypeDef {
        config: ConfigsForAsPartial {
            mode: ModeConfig::PartialIsInner(PartialIsInnerConfig {}),
            attrs: Vec::new(),
        },
        schema: Schema::SumSchema {
            variants: vec![Variant {
                name: s("V"),
                rename: None,
                payload: Ty::IntTy,
            }],
            tagging: SerdeEnumTagParams::ExternallyTagged,
            rename_all: None,
        },
    };
    assert_eq!(
        do_derive_as_partial(&def).unwrap_err(),
        DefinitionError::NewtypeOnSum
    );

    // Pass-through mode without exactly one field.
    let def = TypeDef {
        config: newtype,
        schema: Schema::RecordSchema(vec![req("a", Ty::IntTy), req("b", Ty::IntTy)]),
    };
    assert_eq!(
        do_derive_as_partial(&def).unwrap_err(),
        DefinitionError::NewtypeArity
    );

    // Pass-through mode whose field carries an explicit default.
    let def = TypeDef {
        config: ConfigsForAsPartial {
            mode: ModeConfig::PartialIsInner(PartialIsInnerConfig {}),
            attrs: Vec::new(),
        },
        schema: Schema::RecordSchema(vec![Field {
            name: s("0"),
            rename: None,
            ty: Ty::IntTy,
            rule: DefaultRule::ExplicitDefault(Value::Int(1)),
        }]),
    };
    assert_eq!(
        do_derive_as_partial(&def).unwrap_err(),
        DefinitionError::NewtypeDropsDefault
    );

    // An implicit default on a sum-typed field: sum types cannot be
    // default-constructed.
    let sum_def = TypeDef {
        config: named(),
        schema: Schema::SumSchema {
            variants: vec![Variant {
                name: s("V"),
                rename: None,
                payload: Ty::IntTy,
            }],
            tagging: SerdeEnumTagParams::ExternallyTagged,
            rename_all: None,
        },
    };
    let def = TypeDef {
        config: named(),
        schema: Schema::RecordSchema(vec![Field {
            name: s("choice"),
            rename: None,
            ty: Ty::NamedTy(Box::new(sum_def)),
            rule: DefaultRule::ImplicitDefault,
        }]),
    };
    assert_eq!(
        do_derive_as_partial(&def).unwrap_err(),
        DefinitionError::UnsupportedDefault
    );
}

#[test]
fn test_config_conversions() {
    let mode: ModeConfig = NameConfig { ident: s("PartialA") }.into();
    assert!(matches!(mode, ModeConfig::Name(_)));
    let mode: ModeConfig = PartialIsInnerConfig {}.into();
    assert!(matches!(mode, ModeConfig::PartialIsInner(_)));
    let conf: Config = ModeConfig::Name(NameConfig { ident: s("PartialA") }).into();
    assert!(matches!(conf, Config::Name(_)));
    let conf: Config = ModeConfig::PartialIsInner(PartialIsInnerConfig {}).into();
    assert!(matches!(conf, Config::PartialIsInner(_)));
    let conf: Config = NameConfig { ident: s("PartialA") }.into();
    assert!(matches!(conf, Config::Name(_)));
    let conf: Config = PartialIsInnerConfig {}.into();
    assert!(matches!(conf, Config::PartialIsInner(_)));
    let conf: Config = aspartial::config::AttrsConfig { attrs: vec![s("#[x]")] }.into();
    assert!(matches!(conf, Config::Attrs(_)));
}

#[test]
fn test_field_default_predicates() {
    let without = Field {
        name: s("a"),
        rename: None,
        ty: Ty::IntTy,
        rule: DefaultRule::NoDefault,
    };
    assert!(without.partial_is_optional());
    assert!(!without.is_serde_default());
    let with = Field {
        name: s("a"),
        rename: None,
        ty: Ty::IntTy,
        rule: DefaultRule::ImplicitDefault,
    };
    assert!(!with.partial_is_optional());
    assert!(with.is_serde_default());
}
