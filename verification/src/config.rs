//! The per-type configuration of a partial-schema derivation: exactly one
//! mode (a name for the new partial type, or pass-through for a single-field
//! wrapper), plus opaque annotations to attach to the derived schema.

use vstd::prelude::*;
use vstd::string::StringExecFns;

use crate::attributes::{Attr, Marker};
use crate::errors::DefinitionError;

verus! {

/// The sequence of character sequences of a list of strings.
pub open spec fn strs_view(s: Seq<String>) -> Seq<Seq<char>> {
    Seq::new(s.len(), |i: int| s[i]@)
}

/// Configuration that names the derived partial type.
#[derive(Debug, PartialEq, Eq)]
pub struct NameConfig {
    /// The identifier of the partial type to derive.
    pub ident: String,
}

/// Configuration that makes a single-field wrapper's partial type an alias of
/// its field's own partial type, with no new record.
#[derive(Debug, PartialEq, Eq)]
pub struct PartialIsInnerConfig {}

/// Configuration that attaches opaque annotations to the derived partial
/// type.
#[derive(Debug, PartialEq, Eq)]
pub struct AttrsConfig {
    pub attrs: Vec<String>,
}

/// The mode of a derivation: exactly one of these must be configured.
#[derive(Debug, PartialEq, Eq)]
pub enum ModeConfig {
    /// Determines the name of the generated partial type.
    Name(NameConfig),
    /// Use the inner type of a single-field wrapper as the partial type.
    PartialIsInner(PartialIsInnerConfig),
}

/// One recognized configuration item.
#[derive(Debug, PartialEq, Eq)]
pub enum Config {
    /// Determines the name of the generated partial type.
    Name(NameConfig),
    /// Use the inner type of a single-field wrapper as the partial type.
    PartialIsInner(PartialIsInnerConfig),
    /// Attach the annotations to the generated type.
    Attrs(AttrsConfig),
}

/// Mathematical model of a mode configuration.
pub enum SpecMode {
    Name(Seq<char>),
    PartialIsInner,
}

/// Mathematical model of a configuration item.
pub enum SpecConfig {
    Name(Seq<char>),
    PartialIsInner,
    Attrs(Seq<Seq<char>>),
}

impl View for ModeConfig {
    type V = SpecMode;

    open spec fn view(&self) -> SpecMode {
        match self {
            ModeConfig::Name(conf) => SpecMode::Name(conf.ident@),
            ModeConfig::PartialIsInner(_) => SpecMode::PartialIsInner,
        }
    }
}

impl View for Config {
    type V = SpecConfig;

    open spec fn view(&self) -> SpecConfig {
        match self {
            Config::Name(conf) => SpecConfig::Name(conf.ident@),
            Config::PartialIsInner(_) => SpecConfig::PartialIsInner,
            Config::Attrs(conf) => SpecConfig::Attrs(strs_view(conf.attrs@)),
        }
    }
}

impl From<NameConfig> for ModeConfig {
    fn from(conf: NameConfig) -> (r: Self) {
        ModeConfig::Name(conf)
    }
}

impl vstd::std_specs::convert::FromSpecImpl<NameConfig> for ModeConfig {
    open spec fn obeys_from_spec() -> bool {
        true
    }

    open spec fn from_spec(conf: NameConfig) -> Self {
        ModeConfig::Name(conf)
    }
}

impl From<PartialIsInnerConfig> for ModeConfig {
    fn from(conf: PartialIsInnerConfig) -> (r: Self) {
        ModeConfig::PartialIsInner(conf)
    }
}

impl vstd::std_specs::convert::FromSpecImpl<PartialIsInnerConfig> for ModeConfig {
    open spec fn obeys_from_spec() -> bool {
        true
    }

    open spec fn from_spec(conf: PartialIsInnerConfig) -> Self {
        ModeConfig::PartialIsInner(conf)
    }
}

impl From<ModeConfig> for Config {
    fn from(mode: ModeConfig) -> (r: Self) {
        match mode {
            ModeConfig::Name(conf) => Config::Name(conf),
            ModeConfig::PartialIsInner(conf) => Config::PartialIsInner(conf),
        }
    }
}

impl vstd::std_specs::convert::FromSpecImpl<ModeConfig> for Config {
    open spec fn obeys_from_spec() -> bool {
        true
    }

    open spec fn from_spec(mode: ModeConfig) -> Self {
        match mode {
            ModeConfig::Name(conf) => Config::Name(conf),
            ModeConfig::PartialIsInner(conf) => Config::PartialIsInner(conf),
        }
    }
}

impl From<NameConfig> for Config {
    fn from(conf: NameConfig) -> (r: Self) {
        Config::Name(conf)
    }
}

impl vstd::std_specs::convert::FromSpecImpl<NameConfig> for Config {
    open spec fn obeys_from_spec() -> bool {
        true
    }

    open spec fn from_spec(conf: NameConfig) -> Self {
        Config::Name(conf)
    }
}

impl From<PartialIsInnerConfig> for Config {
    fn from(conf: PartialIsInnerConfig) -> (r: Self) {
        Config::PartialIsInner(conf)
    }
}

impl vstd::std_specs::convert::FromSpecImpl<PartialIsInnerConfig> for Config {
    open spec fn obeys_from_spec() -> bool {
        true
    }

    open spec fn from_spec(conf: PartialIsInnerConfig) -> Self {
        Config::PartialIsInner(conf)
    }
}

impl From<AttrsConfig> for Config {
    fn from(conf: AttrsConfig) -> (r: Self) {
        Config::Attrs(conf)
    }
}

impl vstd::std_specs::convert::FromSpecImpl<AttrsConfig> for Config {
    open spec fn obeys_from_spec() -> bool {
        true
    }

    open spec fn from_spec(conf: AttrsConfig) -> Self {
        Config::Attrs(conf)
    }
}

/// The result of reading a single marker as a configuration item: a
/// `name = "Ident"` pair, the bare word `newtype`, or an `attrs(...)` group;
/// anything else is refused.
pub open spec fn spec_parse_config(m: Marker) -> Result<SpecConfig, DefinitionError> {
    match m {
        Marker::KeyValue(k, v) => if k@ == "name"@ {
            Result::Ok(SpecConfig::Name(v@))
        } else {
            Result::Err(DefinitionError::UnrecognizedConfig)
        },
        Marker::Word(w) => if w@ == "newtype"@ {
            Result::Ok(SpecConfig::PartialIsInner)
        } else {
            Result::Err(DefinitionError::UnrecognizedConfig)
        },
        Marker::Group(g, items) => if g@ == "attrs"@ {
            Result::Ok(SpecConfig::Attrs(strs_view(items@)))
        } else {
            Result::Err(DefinitionError::UnrecognizedConfig)
        },
    }
}

impl Config {
    /// Reads one marker as a configuration item.
    pub fn parse(m: &Marker) -> (r: Result<Config, DefinitionError>)
        ensures
            match r {
                Result::Ok(conf) => spec_parse_config(*m) matches Result::Ok(c) && conf@ == c,
                Result::Err(e) => spec_parse_config(*m) matches Result::Err(e2) && e == e2,
            },
    {
        match m {
            Marker::KeyValue(k, v) => {
                if *k == String::from_str("name") {
                    Result::Ok(Config::Name(NameConfig { ident: v.clone() }))
                } else {
                    Result::Err(DefinitionError::UnrecognizedConfig)
                }
            },
            Marker::Word(w) => {
                if *w == String::from_str("newtype") {
                    Result::Ok(Config::PartialIsInner(PartialIsInnerConfig {}))
                } else {
                    Result::Err(DefinitionError::UnrecognizedConfig)
                }
            },
            Marker::Group(g, items) => {
                if *g == String::from_str("attrs") {
                    let mut attrs: Vec<String> = Vec::new();
                    let mut i: usize = 0;
                    while i < items.len()
                        invariant
                            0 <= i <= items@.len(),
                            attrs@.len() == i,
                            forall|j: int| 0 <= j < i ==> attrs@[j]@ == items@[j]@,
                        decreases items@.len() - i,
                    {
                        attrs.push(items[i].clone());
                        i = i + 1;
                    }
                    proof {
                        assert(strs_view(attrs@) =~= strs_view(items@));
                    }
                    Result::Ok(Config::Attrs(AttrsConfig { attrs }))
                } else {
                    Result::Err(DefinitionError::UnrecognizedConfig)
                }
            },
        }
    }
}

/// Copies a list of annotation strings.
pub fn clone_strs(v: &Vec<String>) -> (r: Vec<String>)
    ensures
        strs_view(r@) == strs_view(v@),
{
    let mut out: Vec<String> = Vec::new();
    let mut i: usize = 0;
    while i < v.len()
        invariant
            0 <= i <= v@.len(),
            out@.len() == i,
            forall|j: int| 0 <= j < i ==> out@[j]@ == v@[j]@,
        decreases v@.len() - i,
    {
        out.push(v[i].clone());
        i = i + 1;
    }
    proof {
        assert(strs_view(out@) =~= strs_view(v@));
    }
    out
}

/// Whether an attribute addresses this library's configuration.
pub open spec fn spec_is_aspartial_attr(a: Attr) -> bool {
    a.path@ == "aspartial"@
}

/// The configuration item carried by one attribute: skipped entirely when the
/// attribute is not a list-style `aspartial` attribute, and otherwise the
/// result of reading its single marker.
pub open spec fn spec_config_of_attr(a: Attr) -> Option<Result<SpecConfig, DefinitionError>> {
    if spec_is_aspartial_attr(a) && a.args is Some {
        if a.args->Some_0@.len() == 1 {
            Option::Some(spec_parse_config(a.args->Some_0@[0]))
        } else {
            Option::Some(Result::Err(DefinitionError::UnrecognizedConfig))
        }
    } else {
        Option::None
    }
}

/// The validated configuration of one type derivation: its mode and the
/// collected opaque annotations.
#[derive(Debug, PartialEq, Eq)]
pub struct ConfigsForAsPartial {
    pub mode: ModeConfig,
    pub attrs: Vec<String>,
}

/// Mathematical model of a validated configuration.
pub struct SpecConfigs {
    pub mode: SpecMode,
    pub attrs: Seq<Seq<char>>,
}

impl View for ConfigsForAsPartial {
    type V = SpecConfigs;

    open spec fn view(&self) -> SpecConfigs {
        SpecConfigs { mode: self.mode@, attrs: strs_view(self.attrs@) }
    }
}

/// The fold that reads a type's attributes from index `i` on: each
/// configuration item either sets the mode (at most once) or extends the
/// collected annotations; at the end exactly one mode must have been set.
pub open spec fn spec_from_attrs_from(
    attrs: Seq<Attr>,
    i: int,
    mode: Option<SpecMode>,
    acc: Seq<Seq<char>>,
) -> Result<SpecConfigs, DefinitionError>
    decreases attrs.len() - i,
{
    if i < 0 || i >= attrs.len() {
        match mode {
            Option::Some(m) => Result::Ok(SpecConfigs { mode: m, attrs: acc }),
            Option::None => Result::Err(DefinitionError::ModeNotSet),
        }
    } else {
        match spec_config_of_attr(attrs[i]) {
            Option::None => spec_from_attrs_from(attrs, i + 1, mode, acc),
            Option::Some(Result::Err(e)) => Result::Err(e),
            Option::Some(Result::Ok(conf)) => match conf {
                SpecConfig::Name(id) => if mode is Some {
                    Result::Err(DefinitionError::ModeSetTwice)
                } else {
                    spec_from_attrs_from(attrs, i + 1, Option::Some(SpecMode::Name(id)), acc)
                },
                SpecConfig::PartialIsInner => if mode is Some {
                    Result::Err(DefinitionError::ModeSetTwice)
                } else {
                    spec_from_attrs_from(attrs, i + 1, Option::Some(SpecMode::PartialIsInner), acc)
                },
                SpecConfig::Attrs(items) => spec_from_attrs_from(attrs, i + 1, mode, acc + items),
            },
        }
    }
}

/// The validated configuration read from a type's attributes.
pub open spec fn spec_from_attrs(attrs: Seq<Attr>) -> Result<SpecConfigs, DefinitionError> {
    spec_from_attrs_from(attrs, 0, Option::None, Seq::empty())
}

/// The mode views of an optional mode.
pub open spec fn spec_mode_opt(mode: Option<ModeConfig>) -> Option<SpecMode> {
    match mode {
        Option::Some(m) => Option::Some(m@),
        Option::None => Option::None,
    }
}

impl ConfigsForAsPartial {
    /// Reads and validates a type's configuration from its attributes:
    /// exactly one mode must be configured, annotations accumulate in order,
    /// and an unreadable configuration item fails the whole validation.
    #[verifier::loop_isolation(false)]
    pub fn from_attrs(attrs: &Vec<Attr>) -> (r: Result<ConfigsForAsPartial, DefinitionError>)
        ensures
            match r {
                Result::Ok(c) => spec_from_attrs(attrs@) matches Result::Ok(s) && c@ == s,
                Result::Err(e) => spec_from_attrs(attrs@) matches Result::Err(e2) && e == e2,
            },
    {
        let mut mode: Option<ModeConfig> = Option::None;
        let mut acc: Vec<String> = Vec::new();
        proof {
            assert(strs_view(acc@) =~= Seq::<Seq<char>>::empty());
        }
        let mut i: usize = 0;
        while i < attrs.len()
            invariant
                0 <= i <= attrs@.len(),
                spec_from_attrs(attrs@) == spec_from_attrs_from(
                    attrs@,
                    i as int,
                    spec_mode_opt(mode),
                    strs_view(acc@),
                ),
            decreases attrs@.len() - i,
        {
            let attr = &attrs[i];
            if attr.path == String::from_str("aspartial") {
                match &attr.args {
                    Option::Some(markers) => {
                        if markers.len() != 1 {
                            return Result::Err(DefinitionError::UnrecognizedConfig);
                        }
                        match Config::parse(&markers[0]) {
                            Result::Err(e) => {
                                return Result::Err(e);
                            },
                            Result::Ok(conf) => match conf {
                                Config::Name(name_conf) => {
                                    if mode.is_some() {
                                        return Result::Err(DefinitionError::ModeSetTwice);
                                    }
                                    mode = Option::Some(ModeConfig::Name(name_conf));
                                },
                                Config::PartialIsInner(inner_conf) => {
                                    if mode.is_some() {
                                        return Result::Err(DefinitionError::ModeSetTwice);
                                    }
                                    mode = Option::Some(ModeConfig::PartialIsInner(inner_conf));
                                },
                                Config::Attrs(attrs_conf) => {
                                    let ghost old_acc = acc@;
                                    let mut extra = attrs_conf.attrs;
                                    acc.append(&mut extra);
                                    proof {
                                        assert(strs_view(acc@) =~= strs_view(old_acc)
                                            + strs_view(attrs_conf.attrs@));
                                    }
                                },
                            },
                        }
                    },
                    Option::None => {},
                }
            }
            i = i + 1;
        }
        match mode {
            Option::Some(m) => Result::Ok(ConfigsForAsPartial { mode: m, attrs: acc }),
            Option::None => Result::Err(DefinitionError::ModeNotSet),
        }
    }
}

} // verus!
