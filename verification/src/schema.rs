//! The type-schema model: the in-memory description of a record type (named
//! fields with optional default rules) or a sum type (tagged single-payload
//! variants), from which a partial schema is derived.

use vstd::prelude::*;

use crate::attributes::{spec_transform, RenameStyle, SerdeEnumTagParams};
use crate::casing::{snake_of, to_snake_case};
use crate::config::{ConfigsForAsPartial, ModeConfig};
use crate::value::Value;

verus! {

/// A reference to the declared type of a field or of a variant's payload.
pub enum Ty {
    /// A boolean; its partial form is itself.
    BoolTy,
    /// An integer number; its partial form is itself.
    IntTy,
    /// A string; its partial form is itself.
    StrTy,
    /// An opaque value tree (e.g. a free-form JSON object); its partial form
    /// is itself.
    RawTy,
    /// An optional value; its partial form is the optional partial form of
    /// the element.
    OptionTy(Box<Ty>),
    /// A list; its partial form is a list of partial elements.
    ListTy(Box<Ty>),
    /// A user-defined type with its own schema and configuration; its partial
    /// form is derived from them.
    NamedTy(Box<TypeDef>),
}

/// The default rule attached to a field.
pub enum DefaultRule {
    /// The field is required in the full type and optional in the partial
    /// type.
    NoDefault,
    /// An absent field falls back to the declared type's own intrinsic
    /// default.
    ImplicitDefault,
    /// An absent field falls back to the given default value of the full
    /// declared type, converted recursively to its partial form. The value
    /// stands for the output of the field's default-producing function.
    ExplicitDefault(Value),
}

/// One named field of a record type.
pub struct Field {
    /// The field's identifier, preserved as the slot name of the partial
    /// record.
    pub name: String,
    /// A rename taking precedence over `name` as the key looked up in the
    /// incoming object.
    pub rename: Option<String>,
    /// The field's declared type.
    pub ty: Ty,
    /// The field's default rule.
    pub rule: DefaultRule,
}

/// One variant of a sum type, with exactly one payload.
pub struct Variant {
    /// The variant's identifier; its snake-case folding names the variant's
    /// slot in the flattened partial record.
    pub name: String,
    /// A rename taking precedence over the (possibly restyled) variant name
    /// as the variant's wire tag.
    pub rename: Option<String>,
    /// The type of the variant's single payload.
    pub payload: Ty,
}

/// The shape of a type definition: a record of named fields, or a sum type of
/// tagged variants with a resolved tagging convention.
pub enum Schema {
    RecordSchema(Vec<Field>),
    SumSchema {
        variants: Vec<Variant>,
        /// The tagging convention, resolved once from the type's
        /// configuration and cached here for the schema's lifetime.
        tagging: SerdeEnumTagParams,
        /// A global rename style applied to every wire tag unless a variant
        /// carries its own rename.
        rename_all: Option<RenameStyle>,
    },
}

/// A user-defined type: its configuration together with its schema.
pub struct TypeDef {
    pub config: ConfigsForAsPartial,
    pub schema: Schema,
}

impl Field {
    /// Whether the field's slot stays absent when its key is missing: exactly
    /// the fields without a default rule.
    pub fn partial_is_optional(&self) -> (r: bool)
        ensures
            r == (self.rule is NoDefault),
    {
        !self.is_serde_default()
    }

    /// Whether the field carries a default rule of either form.
    pub fn is_serde_default(&self) -> (r: bool)
        ensures
            r == !(self.rule is NoDefault),
    {
        match &self.rule {
            DefaultRule::NoDefault => false,
            DefaultRule::ImplicitDefault => true,
            DefaultRule::ExplicitDefault(_) => true,
        }
    }
}

/// A variant's wire tag: its rename if it has one, else its name folded by
/// the sum type's global rename style, else its name unchanged.
pub open spec fn spec_wire_tag(variant: Variant, rename_all: Option<RenameStyle>) -> Seq<char> {
    match variant.rename {
        Option::Some(r) => r@,
        Option::None => match rename_all {
            Option::Some(style) => spec_transform(style, variant.name@),
            Option::None => variant.name@,
        },
    }
}

impl Variant {
    /// The variant's slot name in the flattened partial record: its name
    /// folded to snake_case.
    pub fn partial_field_name(&self) -> (r: String)
        ensures
            r@ == snake_of(self.name@),
    {
        to_snake_case(&self.name)
    }

    /// The variant's wire tag under the sum type's global rename style.
    pub fn tag(&self, rename_all: &Option<RenameStyle>) -> (r: String)
        ensures
            r@ == spec_wire_tag(*self, *rename_all),
    {
        match &self.rename {
            Option::Some(r) => r.clone(),
            Option::None => match rename_all {
                Option::Some(style) => style.transform(&self.name),
                Option::None => self.name.clone(),
            },
        }
    }
}

/// Whether a type supports default construction: every primitive, optional,
/// list and opaque type does; a record does when all of its fields' types do;
/// a pass-through wrapper follows its inner field's type; a sum type does
/// not.
pub open spec fn spec_has_intrinsic_ty(ty: Ty) -> bool
    decreases ty, 1int,
{
    match ty {
        Ty::BoolTy => true,
        Ty::IntTy => true,
        Ty::StrTy => true,
        Ty::RawTy => true,
        Ty::OptionTy(_) => true,
        Ty::ListTy(_) => true,
        Ty::NamedTy(def) => match def.config.mode {
            ModeConfig::PartialIsInner(_) => def.schema matches Schema::RecordSchema(fields)
                && fields@.len() == 1 && spec_has_intrinsic_ty(fields@[0].ty),
            ModeConfig::Name(_) => match def.schema {
                Schema::RecordSchema(fields) => spec_fields_have_intrinsic(fields@, 0),
                Schema::SumSchema { .. } => false,
            },
        },
    }
}

/// Whether all field types from `i` on support default construction.
pub open spec fn spec_fields_have_intrinsic(fields: Seq<Field>, i: int) -> bool
    decreases fields, fields.len() - i,
{
    if i < 0 || i >= fields.len() {
        true
    } else {
        spec_has_intrinsic_ty(fields[i].ty) && spec_fields_have_intrinsic(fields, i + 1)
    }
}

/// Decides whether a type supports default construction.
#[verifier::loop_isolation(false)]
pub fn has_intrinsic_ty(ty: &Ty) -> (r: bool)
    ensures
        r == spec_has_intrinsic_ty(*ty),
    decreases ty, 1int,
{
    match ty {
        Ty::BoolTy => true,
        Ty::IntTy => true,
        Ty::StrTy => true,
        Ty::RawTy => true,
        Ty::OptionTy(_) => true,
        Ty::ListTy(_) => true,
        Ty::NamedTy(def) => match &def.config.mode {
            ModeConfig::PartialIsInner(_) => match &def.schema {
                Schema::RecordSchema(fields) => fields.len() == 1 && has_intrinsic_ty(
                    &fields[0].ty,
                ),
                Schema::SumSchema { .. } => false,
            },
            ModeConfig::Name(_) => match &def.schema {
                Schema::RecordSchema(fields) => {
                    let mut i: usize = 0;
                    while i < fields.len()
                        invariant
                            0 <= i <= fields@.len(),
                            spec_fields_have_intrinsic(fields@, 0) == spec_fields_have_intrinsic(
                                fields@,
                                i as int,
                            ),
                        decreases fields@.len() - i,
                    {
                        if !has_intrinsic_ty(&fields[i].ty) {
                            return false;
                        }
                        i = i + 1;
                    }
                    true
                },
                Schema::SumSchema { .. } => false,
            },
        },
    }
}

} // verus!
