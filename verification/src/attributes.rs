//! The configuration surface attached to types, fields and variants: bare
//! words, key/value pairs and grouped annotations, as the excluded textual
//! front end hands them over, and the rules that read them — most notably the
//! tagging-convention resolver for sum types.

use vstd::prelude::*;
use vstd::string::StringExecFns;

use crate::casing::{
    kebab_of, lower_camel_of, lower_of, pascal_of, shouty_kebab_of, shouty_snake_of, snake_of,
    upper_of, to_kebab_case, to_lower_camel_case, to_lowercase, to_pascal_case,
    to_shouty_kebab_case, to_shouty_snake_case, to_snake_case, to_uppercase,
};
use crate::errors::DefinitionError;

verus! {

/// One argument of a configuration attribute: a bare word, a `key = "value"`
/// pair, or a `key(...)` group of opaque annotations.
#[derive(Debug, PartialEq, Eq)]
pub enum Marker {
    Word(String),
    KeyValue(String, String),
    Group(String, Vec<String>),
}

/// One configuration attribute: the last segment of its path, whether it is
/// an inner attribute, and its arguments if it is a list-style attribute.
pub struct Attr {
    pub path: String,
    pub inner: bool,
    pub args: Option<Vec<Marker>>,
}

/// Whether the attribute's path names the serialization framework.
pub open spec fn spec_is_serde_attr(a: Attr) -> bool {
    a.path@ == "serde"@
}

/// Whether the attribute is an outer `serde(default)` marker.
pub open spec fn spec_is_serde_regular_default(a: Attr) -> bool {
    &&& spec_is_serde_attr(a)
    &&& !a.inner
    &&& a.args matches Option::Some(args) && args@.len() == 1 && (args@[0] matches Marker::Word(
        w,
    ) && w@ == "default"@)
}

/// The function reference of an outer `serde(default = "f")` marker, if the
/// attribute is one.
pub open spec fn spec_serde_default_func(a: Attr) -> Option<String> {
    if {
        &&& spec_is_serde_attr(a)
        &&& !a.inner
        &&& a.args matches Option::Some(args) && args@.len() == 1 && (args@[0]
            matches Marker::KeyValue(k, _v) && k@ == "default"@)
    } {
        Option::Some(a.args->Some_0@[0]->KeyValue_1)
    } else {
        Option::None
    }
}

/// Whether the attribute is a `serde(default = "f")` marker.
pub open spec fn spec_is_serde_default_to_func(a: Attr) -> bool {
    spec_serde_default_func(a) is Some
}

/// Whether the attribute carries a default rule of either form.
pub open spec fn spec_is_serde_any_default(a: Attr) -> bool {
    spec_is_serde_regular_default(a) || spec_is_serde_default_to_func(a)
}

impl Attr {
    /// Whether this attribute's path names the serialization framework.
    pub fn is_serde_attr(&self) -> (r: bool)
        ensures
            r == spec_is_serde_attr(*self),
    {
        self.path == String::from_str("serde")
    }

    /// Whether this attribute is an outer `serde(default)` marker.
    pub fn is_serde_regular_default(&self) -> (r: bool)
        ensures
            r == spec_is_serde_regular_default(*self),
    {
        if !self.is_serde_attr() || self.inner {
            return false;
        }
        match &self.args {
            Option::Some(args) => {
                if args.len() != 1 {
                    return false;
                }
                match &args[0] {
                    Marker::Word(w) => *w == String::from_str("default"),
                    _ => false,
                }
            },
            Option::None => false,
        }
    }

    /// The function reference of an outer `serde(default = "f")` marker on
    /// this attribute, if it is one.
    pub fn as_serde_default_func_path(&self) -> (r: Option<String>)
        ensures
            r == spec_serde_default_func(*self),
    {
        if !self.is_serde_attr() || self.inner {
            return Option::None;
        }
        match &self.args {
            Option::Some(args) => {
                if args.len() != 1 {
                    return Option::None;
                }
                match &args[0] {
                    Marker::KeyValue(k, v) => {
                        if *k == String::from_str("default") {
                            Option::Some(v.clone())
                        } else {
                            Option::None
                        }
                    },
                    _ => Option::None,
                }
            },
            Option::None => Option::None,
        }
    }

    /// Whether this attribute is a `serde(default = "f")` marker.
    pub fn is_serde_default_to_func(&self) -> (r: bool)
        ensures
            r == spec_is_serde_default_to_func(*self),
    {
        self.as_serde_default_func_path().is_some()
    }

    /// Whether this attribute carries a default rule of either form.
    pub fn is_serde_any_default(&self) -> (r: bool)
        ensures
            r == spec_is_serde_any_default(*self),
    {
        self.is_serde_regular_default() || self.is_serde_default_to_func()
    }
}

/// The parsed form of a field's `default` marker: either the bare word or a
/// `default = "f"` pair naming the default-producing function.
#[derive(Debug, PartialEq, Eq)]
pub struct SerdeDefaultAttrParams {
    /// The named default-producing function, if the marker gave one.
    pub func: Option<String>,
}

/// The result of reading a single marker as a default rule: the bare word
/// `default`, or `default = "f"`; anything else is refused.
pub open spec fn spec_parse_default_marker(m: Marker) -> Result<
    SerdeDefaultAttrParams,
    DefinitionError,
> {
    match m {
        Marker::Word(w) => if w@ == "default"@ {
            Result::Ok(SerdeDefaultAttrParams { func: Option::None })
        } else {
            Result::Err(DefinitionError::ExpectedDefaultMarker)
        },
        Marker::KeyValue(k, v) => if k@ == "default"@ {
            Result::Ok(SerdeDefaultAttrParams { func: Option::Some(v) })
        } else {
            Result::Err(DefinitionError::ExpectedDefaultMarker)
        },
        Marker::Group(_, _) => Result::Err(DefinitionError::ExpectedDefaultMarker),
    }
}

impl SerdeDefaultAttrParams {
    /// Reads one marker as a default rule.
    pub fn parse(m: &Marker) -> (r: Result<SerdeDefaultAttrParams, DefinitionError>)
        ensures
            r == spec_parse_default_marker(*m),
    {
        match m {
            Marker::Word(w) => {
                if *w == String::from_str("default") {
                    Result::Ok(SerdeDefaultAttrParams { func: Option::None })
                } else {
                    Result::Err(DefinitionError::ExpectedDefaultMarker)
                }
            },
            Marker::KeyValue(k, v) => {
                if *k == String::from_str("default") {
                    Result::Ok(SerdeDefaultAttrParams { func: Option::Some(v.clone()) })
                } else {
                    Result::Err(DefinitionError::ExpectedDefaultMarker)
                }
            },
            Marker::Group(_, _) => Result::Err(DefinitionError::ExpectedDefaultMarker),
        }
    }
}

/// A case-folding style that a sum type may apply to all of its wire tags.
#[derive(Clone, Copy, PartialEq, Eq, Debug, Structural)]
pub enum RenameStyle {
    Lowercase,
    Uppercase,
    PascalCase,
    CamelCase,
    SnakeCase,
    ScreamingSnakeCase,
    KebabCase,
    ScreamingKebabCase,
}

/// The folding a style applies to a string.
pub open spec fn spec_transform(style: RenameStyle, s: Seq<char>) -> Seq<char> {
    match style {
        RenameStyle::Lowercase => lower_of(s),
        RenameStyle::Uppercase => upper_of(s),
        RenameStyle::PascalCase => pascal_of(s),
        RenameStyle::CamelCase => lower_camel_of(s),
        RenameStyle::SnakeCase => snake_of(s),
        RenameStyle::ScreamingSnakeCase => shouty_snake_of(s),
        RenameStyle::KebabCase => kebab_of(s),
        RenameStyle::ScreamingKebabCase => shouty_kebab_of(s),
    }
}

/// The style named by a style string, or an error for an unrecognized name.
pub open spec fn spec_rename_style(s: Seq<char>) -> Result<RenameStyle, DefinitionError> {
    if s == "lowercase"@ {
        Result::Ok(RenameStyle::Lowercase)
    } else if s == "UPPERCASE"@ {
        Result::Ok(RenameStyle::Uppercase)
    } else if s == "PascalCase"@ {
        Result::Ok(RenameStyle::PascalCase)
    } else if s == "camelCase"@ {
        Result::Ok(RenameStyle::CamelCase)
    } else if s == "snake_case"@ {
        Result::Ok(RenameStyle::SnakeCase)
    } else if s == "SCREAMING_SNAKE_CASE"@ {
        Result::Ok(RenameStyle::ScreamingSnakeCase)
    } else if s == "kebab-case"@ {
        Result::Ok(RenameStyle::KebabCase)
    } else if s == "SCREAMING-KEBAB-CASE"@ {
        Result::Ok(RenameStyle::ScreamingKebabCase)
    } else {
        Result::Err(DefinitionError::InvalidRenameStyle)
    }
}

impl RenameStyle {
    /// Applies this style's folding to a string.
    pub fn transform(&self, s: &String) -> (r: String)
        ensures
            r@ == spec_transform(*self, s@),
    {
        match self {
            RenameStyle::Lowercase => to_lowercase(s),
            RenameStyle::Uppercase => to_uppercase(s),
            RenameStyle::PascalCase => to_pascal_case(s),
            RenameStyle::CamelCase => to_lower_camel_case(s),
            RenameStyle::SnakeCase => to_snake_case(s),
            RenameStyle::ScreamingSnakeCase => to_shouty_snake_case(s),
            RenameStyle::KebabCase => to_kebab_case(s),
            RenameStyle::ScreamingKebabCase => to_shouty_kebab_case(s),
        }
    }

    /// Reads a style string into a style.
    pub fn try_from(s: &String) -> (r: Result<RenameStyle, DefinitionError>)
        ensures
            r == spec_rename_style(s@),
    {
        if *s == String::from_str("lowercase") {
            Result::Ok(RenameStyle::Lowercase)
        } else if *s == String::from_str("UPPERCASE") {
            Result::Ok(RenameStyle::Uppercase)
        } else if *s == String::from_str("PascalCase") {
            Result::Ok(RenameStyle::PascalCase)
        } else if *s == String::from_str("camelCase") {
            Result::Ok(RenameStyle::CamelCase)
        } else if *s == String::from_str("snake_case") {
            Result::Ok(RenameStyle::SnakeCase)
        } else if *s == String::from_str("SCREAMING_SNAKE_CASE") {
            Result::Ok(RenameStyle::ScreamingSnakeCase)
        } else if *s == String::from_str("kebab-case") {
            Result::Ok(RenameStyle::KebabCase)
        } else if *s == String::from_str("SCREAMING-KEBAB-CASE") {
            Result::Ok(RenameStyle::ScreamingKebabCase)
        } else {
            Result::Err(DefinitionError::InvalidRenameStyle)
        }
    }
}

/// The parsed form of a variant's own `rename = "tag"` marker.
#[derive(Debug, PartialEq, Eq)]
pub struct SerdeInnerRenameParams {
    /// The wire tag to use in place of the variant's name.
    pub new_name: String,
}

/// The result of reading a marker list as a variant rename: a single
/// `rename = "tag"` pair; anything else is refused.
pub open spec fn spec_parse_inner_rename(markers: Seq<Marker>) -> Result<
    SerdeInnerRenameParams,
    DefinitionError,
> {
    if markers.len() == 1 && (markers[0] matches Marker::KeyValue(k, _v) && k@ == "rename"@) {
        Result::Ok(SerdeInnerRenameParams { new_name: markers[0]->KeyValue_1 })
    } else {
        Result::Err(DefinitionError::ExpectedRenameKey)
    }
}

/// The variant rename carried by one attribute, if any.
pub open spec fn spec_inner_rename_of_attr(a: Attr) -> Option<SerdeInnerRenameParams> {
    if {
        &&& spec_is_serde_attr(a)
        &&& a.args matches Option::Some(markers) && spec_parse_inner_rename(markers@) is Ok
    } {
        Option::Some(spec_parse_inner_rename(a.args->Some_0@)->Ok_0)
    } else {
        Option::None
    }
}

impl SerdeInnerRenameParams {
    /// Reads a marker list as a variant rename.
    pub fn parse(markers: &Vec<Marker>) -> (r: Result<SerdeInnerRenameParams, DefinitionError>)
        ensures
            r == spec_parse_inner_rename(markers@),
    {
        if markers.len() == 1 {
            match &markers[0] {
                Marker::KeyValue(k, v) => {
                    if *k == String::from_str("rename") {
                        return Result::Ok(SerdeInnerRenameParams { new_name: v.clone() });
                    }
                },
                _ => {},
            }
        }
        Result::Err(DefinitionError::ExpectedRenameKey)
    }

    /// The variant rename carried by one attribute, if it is a serde list
    /// attribute whose markers read as one; anything else is skipped.
    pub fn try_from_attr(attr: &Attr) -> (r: Option<SerdeInnerRenameParams>)
        ensures
            r == spec_inner_rename_of_attr(*attr),
    {
        if !attr.is_serde_attr() {
            return Option::None;
        }
        match &attr.args {
            Option::Some(markers) => {
                match Self::parse(markers) {
                    Result::Ok(params) => Option::Some(params),
                    Result::Err(_) => Option::None,
                }
            },
            Option::None => Option::None,
        }
    }
}

/// The parsed form of a sum type's `rename_all = "style"` marker.
#[derive(Debug, PartialEq, Eq)]
pub struct SerdeOuterRenameParams {
    /// The folding applied to every variant's wire tag.
    pub rename_style: RenameStyle,
}

/// The result of reading a marker list as a global rename style: a single
/// `rename_all = "style"` pair with a recognized style; anything else is
/// refused.
pub open spec fn spec_parse_outer_rename(markers: Seq<Marker>) -> Result<
    SerdeOuterRenameParams,
    DefinitionError,
> {
    if markers.len() == 1 && (markers[0] matches Marker::KeyValue(k, _v) && k@ == "rename_all"@) {
        match spec_rename_style(markers[0]->KeyValue_1@) {
            Result::Ok(style) => Result::Ok(SerdeOuterRenameParams { rename_style: style }),
            Result::Err(e) => Result::Err(e),
        }
    } else {
        Result::Err(DefinitionError::ExpectedRenameAllKey)
    }
}

/// The global rename style carried by one attribute, if any.
pub open spec fn spec_outer_rename_of_attr(a: Attr) -> Option<SerdeOuterRenameParams> {
    if {
        &&& spec_is_serde_attr(a)
        &&& a.args matches Option::Some(markers) && spec_parse_outer_rename(markers@) is Ok
    } {
        Option::Some(spec_parse_outer_rename(a.args->Some_0@)->Ok_0)
    } else {
        Option::None
    }
}

impl SerdeOuterRenameParams {
    /// Reads a marker list as a global rename style.
    pub fn parse(markers: &Vec<Marker>) -> (r: Result<SerdeOuterRenameParams, DefinitionError>)
        ensures
            r == spec_parse_outer_rename(markers@),
    {
        if markers.len() == 1 {
            match &markers[0] {
                Marker::KeyValue(k, v) => {
                    if *k == String::from_str("rename_all") {
                        return match RenameStyle::try_from(v) {
                            Result::Ok(style) => Result::Ok(
                                SerdeOuterRenameParams { rename_style: style },
                            ),
                            Result::Err(e) => Result::Err(e),
                        };
                    }
                },
                _ => {},
            }
        }
        Result::Err(DefinitionError::ExpectedRenameAllKey)
    }

    /// The global rename style carried by one attribute, if it is a serde
    /// list attribute whose markers read as one; anything else is skipped.
    pub fn try_from_attr(attr: &Attr) -> (r: Option<SerdeOuterRenameParams>)
        ensures
            r == spec_outer_rename_of_attr(*attr),
    {
        if !attr.is_serde_attr() {
            return Option::None;
        }
        match &attr.args {
            Option::Some(markers) => {
                match Self::parse(markers) {
                    Result::Ok(params) => Option::Some(params),
                    Result::Err(_) => Option::None,
                }
            },
            Option::None => Option::None,
        }
    }
}

/// The tagging convention of a sum type: how the wire format indicates which
/// variant a value represents, resolved once from the type's configuration
/// and cached with the schema.
#[derive(Debug, PartialEq, Eq)]
pub enum SerdeEnumTagParams {
    /// No tag on the wire; a value is matched against every variant's payload
    /// shape.
    Untagged,
    /// The tag is a string under `tag_key` inside the value itself.
    InternallyTagged { tag_key: String },
    /// The tag is a string under `tag_key` and the payload sits under
    /// `content_key`, side by side in an outer object.
    AdjacentlyTagged { tag_key: String, content_key: String },
    /// The payload sits under a single key equal to the variant's wire tag.
    ExternallyTagged,
}

impl Clone for SerdeEnumTagParams {
    /// A clone of a tagging convention equals it.
    fn clone(&self) -> (r: Self)
        ensures
            r == *self,
    {
        match self {
            SerdeEnumTagParams::Untagged => SerdeEnumTagParams::Untagged,
            SerdeEnumTagParams::InternallyTagged { tag_key } => {
                SerdeEnumTagParams::InternallyTagged { tag_key: tag_key.clone() }
            },
            SerdeEnumTagParams::AdjacentlyTagged { tag_key, content_key } => {
                SerdeEnumTagParams::AdjacentlyTagged {
                    tag_key: tag_key.clone(),
                    content_key: content_key.clone(),
                }
            },
            SerdeEnumTagParams::ExternallyTagged => SerdeEnumTagParams::ExternallyTagged,
        }
    }
}

/// The tagging-convention resolver: reads a sum type's configuration markers
/// and determines which of the four conventions applies.
///
/// A bare leading `untagged` word selects `Untagged`; a single `tag = "k"`
/// pair selects `InternallyTagged`; the two pairs `tag = "k"` and
/// `content = "c"` (in either order) select `AdjacentlyTagged`; any other
/// combination is a configuration error. The absence of any marker list is
/// handled by the caller, which falls back to `ExternallyTagged`.
pub open spec fn spec_resolve_tagging(markers: Seq<Marker>) -> Result<
    SerdeEnumTagParams,
    DefinitionError,
> {
    if markers.len() > 0 && (markers[0] matches Marker::Word(w) && w@ == "untagged"@) {
        Result::Ok(SerdeEnumTagParams::Untagged)
    } else if exists|i: int| 0 <= i < markers.len() && !(markers[i] is KeyValue) {
        Result::Err(DefinitionError::ExpectedKeyValueParam)
    } else if markers.len() == 0 {
        Result::Err(DefinitionError::ExpectedTagParams)
    } else if markers.len() == 1 {
        if markers[0]->KeyValue_0@ == "tag"@ {
            Result::Ok(
                SerdeEnumTagParams::InternallyTagged { tag_key: markers[0]->KeyValue_1 },
            )
        } else {
            Result::Err(DefinitionError::ExpectedTagKey)
        }
    } else if markers.len() == 2 {
        if markers[0]->KeyValue_0@ == "tag"@ && markers[1]->KeyValue_0@ == "content"@ {
            Result::Ok(
                SerdeEnumTagParams::AdjacentlyTagged {
                    tag_key: markers[0]->KeyValue_1,
                    content_key: markers[1]->KeyValue_1,
                },
            )
        } else if markers[0]->KeyValue_0@ == "content"@ && markers[1]->KeyValue_0@ == "tag"@ {
            Result::Ok(
                SerdeEnumTagParams::AdjacentlyTagged {
                    tag_key: markers[1]->KeyValue_1,
                    content_key: markers[0]->KeyValue_1,
                },
            )
        } else if markers[0]->KeyValue_0@ == "tag"@ || markers[1]->KeyValue_0@ == "tag"@ {
            Result::Err(DefinitionError::ExpectedContentKey)
        } else {
            Result::Err(DefinitionError::ExpectedTagKey)
        }
    } else {
        Result::Err(DefinitionError::TooManyTagParams)
    }
}

impl SerdeEnumTagParams {
    /// Resolves the tagging convention from a sum type's marker list.
    #[verifier::loop_isolation(false)]
    pub fn parse(markers: &Vec<Marker>) -> (r: Result<SerdeEnumTagParams, DefinitionError>)
        ensures
            r == spec_resolve_tagging(markers@),
    {
        if markers.len() > 0 {
            match &markers[0] {
                Marker::Word(w) => {
                    if *w == String::from_str("untagged") {
                        return Result::Ok(SerdeEnumTagParams::Untagged);
                    }
                },
                _ => {},
            }
        }
        let mut i: usize = 0;
        while i < markers.len()
            invariant
                0 <= i <= markers@.len(),
                forall|j: int| 0 <= j < i ==> markers@[j] is KeyValue,
            decreases markers@.len() - i,
        {
            match &markers[i] {
                Marker::KeyValue(_, _) => {},
                _ => {
                    return Result::Err(DefinitionError::ExpectedKeyValueParam);
                },
            }
            i = i + 1;
        }
        if markers.len() == 0 {
            Result::Err(DefinitionError::ExpectedTagParams)
        } else if markers.len() == 1 {
            match &markers[0] {
                Marker::KeyValue(k, v) => {
                    if *k == String::from_str("tag") {
                        Result::Ok(SerdeEnumTagParams::InternallyTagged { tag_key: v.clone() })
                    } else {
                        Result::Err(DefinitionError::ExpectedTagKey)
                    }
                },
                _ => Result::Err(DefinitionError::ExpectedKeyValueParam),
            }
        } else if markers.len() == 2 {
            match (&markers[0], &markers[1]) {
                (Marker::KeyValue(k0, v0), Marker::KeyValue(k1, v1)) => {
                    let tag_kw = String::from_str("tag");
                    let content_kw = String::from_str("content");
                    if *k0 == tag_kw && *k1 == content_kw {
                        Result::Ok(
                            SerdeEnumTagParams::AdjacentlyTagged {
                                tag_key: v0.clone(),
                                content_key: v1.clone(),
                            },
                        )
                    } else if *k0 == content_kw && *k1 == tag_kw {
                        Result::Ok(
                            SerdeEnumTagParams::AdjacentlyTagged {
                                tag_key: v1.clone(),
                                content_key: v0.clone(),
                            },
                        )
                    } else if *k0 == tag_kw || *k1 == tag_kw {
                        Result::Err(DefinitionError::ExpectedContentKey)
                    } else {
                        Result::Err(DefinitionError::ExpectedTagKey)
                    }
                },
                _ => Result::Err(DefinitionError::ExpectedKeyValueParam),
            }
        } else {
            Result::Err(DefinitionError::TooManyTagParams)
        }
    }

    /// The tagging convention carried by one attribute, if it is a serde
    /// list attribute whose markers resolve; anything else is skipped.
    pub fn try_from_attr(attr: &Attr) -> (r: Option<SerdeEnumTagParams>)
        ensures
            r == spec_tagging_of_attr(*attr),
    {
        if !attr.is_serde_attr() {
            return Option::None;
        }
        match &attr.args {
            Option::Some(markers) => {
                match Self::parse(markers) {
                    Result::Ok(params) => Option::Some(params),
                    Result::Err(_) => Option::None,
                }
            },
            Option::None => Option::None,
        }
    }

    /// The sum type's tagging convention: the one carried by the first
    /// attribute that resolves to one, or external tagging by default.
    pub fn from_attributes(attrs: &Vec<Attr>) -> (r: SerdeEnumTagParams)
        ensures
            r == spec_tagging_of_attrs(attrs@),
    {
        let mut i: usize = 0;
        while i < attrs.len()
            invariant
                0 <= i <= attrs@.len(),
                forall|j: int| 0 <= j < i ==> spec_tagging_of_attr(attrs@[j]) is None,
                spec_tagging_of_attrs(attrs@) == spec_tagging_of_attrs_from(attrs@, i as int),
            decreases attrs@.len() - i,
        {
            match Self::try_from_attr(&attrs[i]) {
                Option::Some(params) => {
                    return params;
                },
                Option::None => {},
            }
            i = i + 1;
        }
        SerdeEnumTagParams::ExternallyTagged
    }
}

/// The tagging convention carried by one attribute, if any.
pub open spec fn spec_tagging_of_attr(a: Attr) -> Option<SerdeEnumTagParams> {
    if {
        &&& spec_is_serde_attr(a)
        &&& a.args matches Option::Some(markers) && spec_resolve_tagging(markers@) is Ok
    } {
        Option::Some(spec_resolve_tagging(a.args->Some_0@)->Ok_0)
    } else {
        Option::None
    }
}

/// The tagging convention given by the first attribute from `i` on that
/// carries one, or external tagging if none does.
pub open spec fn spec_tagging_of_attrs_from(attrs: Seq<Attr>, i: int) -> SerdeEnumTagParams
    decreases attrs.len() - i,
{
    if i < 0 || i >= attrs.len() {
        SerdeEnumTagParams::ExternallyTagged
    } else {
        match spec_tagging_of_attr(attrs[i]) {
            Option::Some(params) => params,
            Option::None => spec_tagging_of_attrs_from(attrs, i + 1),
        }
    }
}

/// The tagging convention of a sum type's attribute list.
pub open spec fn spec_tagging_of_attrs(attrs: Seq<Attr>) -> SerdeEnumTagParams {
    spec_tagging_of_attrs_from(attrs, 0)
}

} // verus!
