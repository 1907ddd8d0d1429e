//! Partial schemas: the derived description of a type's partial form. For a
//! record, one slot per field with its optionality or default rule; for a sum
//! type, one flattened record with one independently optional slot per
//! variant; for a single-field wrapper, an alias of the inner field's own
//! partial form.

use vstd::prelude::*;

use crate::attributes::{RenameStyle, SerdeEnumTagParams};
use crate::casing::snake_of;
use crate::config::{clone_strs, strs_view, ConfigsForAsPartial, ModeConfig};
use crate::errors::DefinitionError;
use crate::partial_value::{lemma_pslots_view, pslots_view, PartialValue, SpecPartial};
use crate::schema::{
    has_intrinsic_ty, spec_has_intrinsic_ty, spec_wire_tag, DefaultRule, Field, Schema, Ty,
    TypeDef, Variant,
};
use crate::value::Value;

verus! {

/// What a record decode does with a slot whose key is absent from the
/// incoming object, or whose value fails to decode.
#[derive(Debug, PartialEq, Eq)]
pub enum SlotRule {
    /// The slot stays absent.
    OptionalSlot,
    /// The slot falls back to the intrinsic default of the slot's type.
    ImplicitSlotDefault,
    /// The slot falls back to the given full default value, converted to its
    /// partial form when the fallback is taken. The value stands for the
    /// output of the field's default-producing function.
    ExplicitSlotDefault(Value),
}

/// One slot of a record's partial schema.
#[derive(Debug, PartialEq, Eq)]
pub struct PartialField {
    /// The slot's name in the decoded partial record.
    pub name: String,
    /// The key looked up in the incoming object: the field's rename if it has
    /// one, else its name.
    pub key: String,
    /// The partial form of the field's declared type.
    pub ty: PartialTy,
    /// The fallback rule for an absent or undecodable field.
    pub rule: SlotRule,
}

/// The partial schema derived from a record type.
#[derive(Debug, PartialEq, Eq)]
pub struct PartialRecord {
    /// The configured name of the derived partial type.
    pub name: String,
    /// Opaque annotations attached by the configuration.
    pub attrs: Vec<String>,
    /// One slot per field, in field order.
    pub fields: Vec<PartialField>,
}

/// One slot of a sum type's flattened partial record.
#[derive(Debug, PartialEq, Eq)]
pub struct SumSlot {
    /// The slot's name: the variant's name folded to snake_case.
    pub name: String,
    /// The variant's wire tag: its rename if it has one, else its name folded
    /// by the sum type's global rename style, else its name unchanged.
    pub wire_tag: String,
    /// The partial form of the variant's payload type.
    pub ty: PartialTy,
}

/// The partial schema derived from a sum type: one record with one
/// independently optional slot per variant, decoded under the sum's tagging
/// convention.
#[derive(Debug, PartialEq, Eq)]
pub struct PartialSum {
    /// The configured name of the derived partial type.
    pub name: String,
    /// Opaque annotations attached by the configuration.
    pub attrs: Vec<String>,
    /// The tagging convention resolved for the sum type.
    pub tagging: SerdeEnumTagParams,
    /// One slot per variant, in variant order.
    pub slots: Vec<SumSlot>,
}

/// The partial form of a type: what the decoder walks an incoming value tree
/// against.
#[derive(Debug, PartialEq, Eq)]
pub enum PartialTy {
    /// A boolean, partial form of a boolean.
    BoolPt,
    /// An integer, partial form of an integer.
    IntPt,
    /// A string, partial form of a string.
    StrPt,
    /// An arbitrary value tree, partial form of an opaque value tree.
    RawPt,
    /// An optional partial element, partial form of an optional value.
    OptionPt(Box<PartialTy>),
    /// A list of partial elements, partial form of a list.
    ListPt(Box<PartialTy>),
    /// A record of independently optional or defaulted slots, partial form of
    /// a record type.
    RecordPt(PartialRecord),
    /// A flattened record of one optional slot per variant, partial form of a
    /// sum type.
    SumPt(PartialSum),
}

/// The all-absent slots of a sum type's partial record, from slot `i` on: one
/// absent slot per variant, in order.
pub open spec fn spec_absent_slots(slots: Seq<SumSlot>, i: int) -> Seq<
    (Seq<char>, Option<SpecPartial>),
>
    decreases slots.len() - i,
{
    if i < 0 || i >= slots.len() {
        Seq::empty()
    } else {
        seq![(slots[i].name@, Option::<SpecPartial>::None)] + spec_absent_slots(slots, i + 1)
    }
}

/// The all-absent slots have one entry per variant, in order, each absent.
pub proof fn lemma_spec_absent_slots(slots: Seq<SumSlot>, i: int)
    requires
        0 <= i <= slots.len(),
    ensures
        spec_absent_slots(slots, i).len() == slots.len() - i,
        forall|j: int| i <= j < slots.len() ==> spec_absent_slots(slots, i)[j - i] == (
            slots[j].name@,
            Option::<SpecPartial>::None,
        ),
    decreases slots.len() - i,
{
    if i < slots.len() {
        lemma_spec_absent_slots(slots, i + 1);
    }
}

/// The first slot from `i` on whose wire tag equals `tag`, if any.
pub open spec fn spec_find_slot(slots: Seq<SumSlot>, tag: Seq<char>, i: int) -> Option<int>
    decreases slots.len() - i,
{
    if i < 0 || i >= slots.len() {
        Option::None
    } else if slots[i].wire_tag@ == tag {
        Option::Some(i)
    } else {
        spec_find_slot(slots, tag, i + 1)
    }
}

/// Builds the all-absent partial record slots of a sum type.
pub fn absent_slots(slots: &Vec<SumSlot>) -> (r: Vec<(String, Option<PartialValue>)>)
    ensures
        pslots_view(r@) == spec_absent_slots(slots@, 0),
        r@.len() == slots@.len(),
        forall|j: int| 0 <= j < slots@.len() ==> r@[j].0@ == slots@[j].name@ && r@[j].1 is None,
{
    let mut out: Vec<(String, Option<PartialValue>)> = Vec::new();
    let mut i: usize = 0;
    while i < slots.len()
        invariant
            0 <= i <= slots@.len(),
            out@.len() == i,
            forall|j: int| 0 <= j < i ==> out@[j].0@ == slots@[j].name@ && out@[j].1 is None,
        decreases slots@.len() - i,
    {
        out.push((slots[i].name.clone(), Option::None));
        i = i + 1;
    }
    proof {
        lemma_pslots_view(out@);
        lemma_spec_absent_slots(slots@, 0);
        assert(pslots_view(out@) =~= spec_absent_slots(slots@, 0));
    }
    out
}

/// Finds the first slot whose wire tag equals `tag`.
pub fn find_slot(slots: &Vec<SumSlot>, tag: &String) -> (r: Option<usize>)
    ensures
        match r {
            Option::Some(k) => spec_find_slot(slots@, tag@, 0) == Option::Some(k as int) && 0 <= k
                < slots@.len(),
            Option::None => spec_find_slot(slots@, tag@, 0) is None,
        },
{
    let mut i: usize = 0;
    while i < slots.len()
        invariant
            0 <= i <= slots@.len(),
            spec_find_slot(slots@, tag@, 0) == spec_find_slot(slots@, tag@, i as int),
        decreases slots@.len() - i,
    {
        if slots[i].wire_tag == *tag {
            return Option::Some(i);
        }
        i = i + 1;
    }
    Option::None
}

/// Whether deriving a partial form from a type can succeed, and with which
/// definition error it fails otherwise: the first error the derivation hits,
/// walking nested definitions depth-first in declaration order.
pub open spec fn spec_ty_check(ty: Ty) -> Result<(), DefinitionError>
    decreases ty, 2int,
{
    match ty {
        Ty::BoolTy => Result::Ok(()),
        Ty::IntTy => Result::Ok(()),
        Ty::StrTy => Result::Ok(()),
        Ty::RawTy => Result::Ok(()),
        Ty::OptionTy(t) => spec_ty_check(*t),
        Ty::ListTy(t) => spec_ty_check(*t),
        Ty::NamedTy(def) => spec_def_check(*def),
    }
}

/// Whether deriving a user-defined type's partial schema can succeed.
pub open spec fn spec_def_check(def: TypeDef) -> Result<(), DefinitionError>
    decreases def, 1int,
{
    match def.schema {
        Schema::RecordSchema(fields) => spec_record_check(def.config, fields),
        Schema::SumSchema { variants, .. } => spec_sum_check(def.config, variants),
    }
}

/// Whether deriving a record's partial schema can succeed: in pass-through
/// mode the record must have exactly one field, which must not carry an
/// explicit default; in name mode every field's type must derive, and a field
/// with an implicit default rule must have a default-constructible type.
pub open spec fn spec_record_check(config: ConfigsForAsPartial, fields: Vec<Field>) -> Result<
    (),
    DefinitionError,
>
    decreases fields, fields@.len() + 1,
{
    match config.mode {
        ModeConfig::PartialIsInner(_) => if fields@.len() != 1 {
            Result::Err(DefinitionError::NewtypeArity)
        } else if fields@[0].rule is ExplicitDefault {
            Result::Err(DefinitionError::NewtypeDropsDefault)
        } else {
            spec_ty_check(fields@[0].ty)
        },
        ModeConfig::Name(_) => spec_fields_check(fields@, 0),
    }
}

/// The first error among the fields from `i` on, if any.
pub open spec fn spec_fields_check(fields: Seq<Field>, i: int) -> Result<(), DefinitionError>
    decreases fields, fields.len() - i,
{
    if i < 0 || i >= fields.len() {
        Result::Ok(())
    } else {
        match spec_ty_check(fields[i].ty) {
            Result::Err(e) => Result::Err(e),
            Result::Ok(_) => if fields[i].rule is ImplicitDefault && !spec_has_intrinsic_ty(
                fields[i].ty,
            ) {
                Result::Err(DefinitionError::UnsupportedDefault)
            } else {
                spec_fields_check(fields, i + 1)
            },
        }
    }
}

/// Whether deriving a sum type's partial schema can succeed: pass-through
/// mode is refused, and every variant's payload type must derive.
pub open spec fn spec_sum_check(config: ConfigsForAsPartial, variants: Vec<Variant>) -> Result<
    (),
    DefinitionError,
>
    decreases variants, variants@.len() + 1,
{
    match config.mode {
        ModeConfig::PartialIsInner(_) => Result::Err(DefinitionError::NewtypeOnSum),
        ModeConfig::Name(_) => spec_variants_check(variants@, 0),
    }
}

/// The first error among the variants' payload types from `i` on, if any.
pub open spec fn spec_variants_check(variants: Seq<Variant>, i: int) -> Result<
    (),
    DefinitionError,
>
    decreases variants, variants.len() - i,
{
    if i < 0 || i >= variants.len() {
        Result::Ok(())
    } else {
        match spec_ty_check(variants[i].payload) {
            Result::Err(e) => Result::Err(e),
            Result::Ok(_) => spec_variants_check(variants, i + 1),
        }
    }
}

/// Whether `pty` is the partial form derived from the type `ty`.
pub open spec fn ty_derives(ty: Ty, pty: PartialTy) -> bool
    decreases ty, 2int,
{
    match ty {
        Ty::BoolTy => pty is BoolPt,
        Ty::IntTy => pty is IntPt,
        Ty::StrTy => pty is StrPt,
        Ty::RawTy => pty is RawPt,
        Ty::OptionTy(t) => pty matches PartialTy::OptionPt(pt) && ty_derives(*t, *pt),
        Ty::ListTy(t) => pty matches PartialTy::ListPt(pt) && ty_derives(*t, *pt),
        Ty::NamedTy(def) => def_derives(*def, pty),
    }
}

/// Whether `pty` is the partial schema derived from the user-defined type
/// `def`.
pub open spec fn def_derives(def: TypeDef, pty: PartialTy) -> bool
    decreases def, 1int,
{
    match def.schema {
        Schema::RecordSchema(fields) => record_derives(def.config, fields@, pty),
        Schema::SumSchema { variants, tagging, rename_all } => sum_derives(
            def.config,
            variants@,
            tagging,
            rename_all,
            pty,
        ),
    }
}

/// Whether `pty` is the partial schema derived from a record with the given
/// configuration and fields: in pass-through mode, the inner field's own
/// partial form with no new record around it; in name mode, a record of one
/// slot per field.
pub open spec fn record_derives(
    config: ConfigsForAsPartial,
    fields: Seq<Field>,
    pty: PartialTy,
) -> bool
    decreases fields, fields.len() + 1,
{
    match config.mode {
        ModeConfig::PartialIsInner(_) => fields.len() == 1 && ty_derives(fields[0].ty, pty),
        ModeConfig::Name(name_conf) => {
            &&& pty matches PartialTy::RecordPt(rec)
            &&& rec.name@ == name_conf.ident@
            &&& strs_view(rec.attrs@) == strs_view(config.attrs@)
            &&& rec.fields@.len() == fields.len()
            &&& fields_derive(fields, rec.fields@, 0)
        },
    }
}

/// Whether each slot from `i` on is derived from its field.
pub open spec fn fields_derive(fields: Seq<Field>, pfields: Seq<PartialField>, i: int) -> bool
    decreases fields, fields.len() - i,
{
    if i < 0 || i >= fields.len() {
        true
    } else {
        field_derives(fields[i], pfields[i]) && fields_derive(fields, pfields, i + 1)
    }
}

/// Whether one slot is derived from one field: same name, the rename (if any)
/// as the lookup key, the declared type's partial form, and the fallback rule
/// matching the field's default rule.
pub open spec fn field_derives(field: Field, pf: PartialField) -> bool
    decreases field, 1int,
{
    &&& pf.name@ == field.name@
    &&& pf.key@ == match field.rename {
        Option::Some(r) => r@,
        Option::None => field.name@,
    }
    &&& ty_derives(field.ty, pf.ty)
    &&& match field.rule {
        DefaultRule::NoDefault => pf.rule is OptionalSlot,
        DefaultRule::ImplicitDefault => pf.rule is ImplicitSlotDefault,
        DefaultRule::ExplicitDefault(d) => pf.rule matches SlotRule::ExplicitSlotDefault(d2)
            && d2@ == d@,
    }
}

/// Whether `pty` is the partial schema derived from a sum type with the given
/// configuration, variants and tagging convention: one record with one
/// independently optional slot per variant.
pub open spec fn sum_derives(
    config: ConfigsForAsPartial,
    variants: Seq<Variant>,
    tagging: SerdeEnumTagParams,
    rename_all: Option<RenameStyle>,
    pty: PartialTy,
) -> bool
    decreases variants, variants.len() + 1,
{
    match config.mode {
        ModeConfig::PartialIsInner(_) => false,
        ModeConfig::Name(name_conf) => {
            &&& pty matches PartialTy::SumPt(sum)
            &&& sum.name@ == name_conf.ident@
            &&& strs_view(sum.attrs@) == strs_view(config.attrs@)
            &&& sum.tagging == tagging
            &&& sum.slots@.len() == variants.len()
            &&& variants_derive(variants, rename_all, sum.slots@, 0)
        },
    }
}

/// Whether each slot from `i` on is derived from its variant.
pub open spec fn variants_derive(
    variants: Seq<Variant>,
    rename_all: Option<RenameStyle>,
    slots: Seq<SumSlot>,
    i: int,
) -> bool
    decreases variants, variants.len() - i,
{
    if i < 0 || i >= variants.len() {
        true
    } else {
        variant_derives(variants[i], rename_all, slots[i]) && variants_derive(
            variants,
            rename_all,
            slots,
            i + 1,
        )
    }
}

/// Whether one slot is derived from one variant: the variant's name folded to
/// snake_case as the slot name, its wire tag under the sum's rename style,
/// and its payload type's partial form.
pub open spec fn variant_derives(
    variant: Variant,
    rename_all: Option<RenameStyle>,
    slot: SumSlot,
) -> bool
    decreases variant, 1int,
{
    &&& slot.name@ == snake_of(variant.name@)
    &&& slot.wire_tag@ == spec_wire_tag(variant, rename_all)
    &&& ty_derives(variant.payload, slot.ty)
}

/// Derives the partial form of a type: primitives, optional values, lists and
/// opaque trees map one to one, and a user-defined type's schema is derived
/// under its own configuration.
pub fn partial_ty_of(ty: &Ty) -> (r: Result<PartialTy, DefinitionError>)
    ensures
        match r {
            Result::Ok(pty) => spec_ty_check(*ty) is Ok && ty_derives(*ty, pty),
            Result::Err(e) => spec_ty_check(*ty) matches Result::Err(e2) && e == e2,
        },
    decreases ty, 3int,
{
    match ty {
        Ty::BoolTy => Result::Ok(PartialTy::BoolPt),
        Ty::IntTy => Result::Ok(PartialTy::IntPt),
        Ty::StrTy => Result::Ok(PartialTy::StrPt),
        Ty::RawTy => Result::Ok(PartialTy::RawPt),
        Ty::OptionTy(t) => match partial_ty_of(t) {
            Result::Ok(pt) => Result::Ok(PartialTy::OptionPt(Box::new(pt))),
            Result::Err(e) => Result::Err(e),
        },
        Ty::ListTy(t) => match partial_ty_of(t) {
            Result::Ok(pt) => Result::Ok(PartialTy::ListPt(Box::new(pt))),
            Result::Err(e) => Result::Err(e),
        },
        Ty::NamedTy(def) => do_derive_as_partial(def),
    }
}

/// Derives a user-defined type's partial schema: a record's per-field rules,
/// a sum type's flattened record, or the pass-through alias.
pub fn do_derive_as_partial(def: &TypeDef) -> (r: Result<PartialTy, DefinitionError>)
    ensures
        match r {
            Result::Ok(pty) => spec_def_check(*def) is Ok && def_derives(*def, pty),
            Result::Err(e) => spec_def_check(*def) matches Result::Err(e2) && e == e2,
        },
    decreases def, 2int,
{
    match &def.schema {
        Schema::RecordSchema(fields) => make_partial_struct(&def.config, fields),
        Schema::SumSchema { variants, tagging, rename_all } => make_partial_enum(
            &def.config,
            variants,
            tagging,
            rename_all,
        ),
    }
}

/// Derives the partial schema of a record type. In pass-through mode the
/// record must be a single-field wrapper without an explicit default, and the
/// result is the inner field's own partial form, with no new record. In name
/// mode the result is a record of one slot per field: the slot keeps the
/// field's name, looks up the field's rename (or name) in the incoming
/// object, carries the field's partial type, and falls back per the field's
/// default rule; a field with an implicit default must have a
/// default-constructible type.
#[verifier::loop_isolation(false)]
pub fn make_partial_struct(config: &ConfigsForAsPartial, fields: &Vec<Field>) -> (r: Result<
    PartialTy,
    DefinitionError,
>)
    ensures
        match r {
            Result::Ok(pty) => spec_record_check(*config, *fields) is Ok && record_derives(
                *config,
                fields@,
                pty,
            ),
            Result::Err(e) => spec_record_check(*config, *fields) matches Result::Err(e2) && e
                == e2,
        },
    decreases fields, 1int,
{
    match &config.mode {
        ModeConfig::PartialIsInner(_) => {
            if fields.len() != 1 {
                return Result::Err(DefinitionError::NewtypeArity);
            }
            match &fields[0].rule {
                DefaultRule::ExplicitDefault(_) => {
                    return Result::Err(DefinitionError::NewtypeDropsDefault);
                },
                _ => {},
            }
            partial_ty_of(&fields[0].ty)
        },
        ModeConfig::Name(name_conf) => {
            let mut pfields: Vec<PartialField> = Vec::new();
            let mut i: usize = 0;
            while i < fields.len()
                invariant
                    0 <= i <= fields@.len(),
                    pfields@.len() == i,
                    spec_fields_check(fields@, 0) == spec_fields_check(fields@, i as int),
                    forall|j: int| 0 <= j < i ==> field_derives(fields@[j], pfields@[j]),
                decreases fields@.len() - i,
            {
                let field = &fields[i];
                let pt = match partial_ty_of(&field.ty) {
                    Result::Ok(pt) => pt,
                    Result::Err(e) => {
                        return Result::Err(e);
                    },
                };
                let rule = match &field.rule {
                    DefaultRule::NoDefault => SlotRule::OptionalSlot,
                    DefaultRule::ImplicitDefault => {
                        if !has_intrinsic_ty(&field.ty) {
                            return Result::Err(DefinitionError::UnsupportedDefault);
                        }
                        SlotRule::ImplicitSlotDefault
                    },
                    DefaultRule::ExplicitDefault(d) => SlotRule::ExplicitSlotDefault(d.clone()),
                };
                let key = match &field.rename {
                    Option::Some(rn) => rn.clone(),
                    Option::None => field.name.clone(),
                };
                pfields.push(PartialField { name: field.name.clone(), key, ty: pt, rule });
                i = i + 1;
            }
            proof {
                lemma_fields_derive(fields@, pfields@);
            }
            Result::Ok(
                PartialTy::RecordPt(
                    PartialRecord {
                        name: name_conf.ident.clone(),
                        attrs: clone_strs(&config.attrs),
                        fields: pfields,
                    },
                ),
            )
        },
    }
}

/// Pointwise slot derivation gives the whole record's slot derivation.
proof fn lemma_fields_derive(fields: Seq<Field>, pfields: Seq<PartialField>)
    requires
        pfields.len() == fields.len(),
        forall|j: int| 0 <= j < fields.len() ==> field_derives(fields[j], pfields[j]),
    ensures
        fields_derive(fields, pfields, 0),
{
    lemma_fields_derive_from(fields, pfields, 0);
}

/// Pointwise slot derivation gives the slot derivation from `i` on.
proof fn lemma_fields_derive_from(fields: Seq<Field>, pfields: Seq<PartialField>, i: int)
    requires
        0 <= i <= fields.len(),
        pfields.len() == fields.len(),
        forall|j: int| 0 <= j < fields.len() ==> field_derives(fields[j], pfields[j]),
    ensures
        fields_derive(fields, pfields, i),
    decreases fields.len() - i,
{
    if i < fields.len() {
        lemma_fields_derive_from(fields, pfields, i + 1);
    }
}

/// Derives the partial schema of a sum type, which must be configured with a
/// name (pass-through mode is refused): one record with one slot per variant,
/// each slot named by the variant's snake_case name, tagged with the
/// variant's wire tag, and carrying the partial form of the variant's
/// payload.
#[verifier::loop_isolation(false)]
pub fn make_partial_enum(
    config: &ConfigsForAsPartial,
    variants: &Vec<Variant>,
    tagging: &SerdeEnumTagParams,
    rename_all: &Option<RenameStyle>,
) -> (r: Result<PartialTy, DefinitionError>)
    ensures
        match r {
            Result::Ok(pty) => spec_sum_check(*config, *variants) is Ok && sum_derives(
                *config,
                variants@,
                *tagging,
                *rename_all,
                pty,
            ),
            Result::Err(e) => spec_sum_check(*config, *variants) matches Result::Err(e2) && e
                == e2,
        },
    decreases variants, 1int,
{
    let name_conf = match &config.mode {
        ModeConfig::PartialIsInner(_) => {
            return Result::Err(DefinitionError::NewtypeOnSum);
        },
        ModeConfig::Name(name_conf) => name_conf,
    };
    let mut slots: Vec<SumSlot> = Vec::new();
    let mut i: usize = 0;
    while i < variants.len()
        invariant
            0 <= i <= variants@.len(),
            slots@.len() == i,
            spec_variants_check(variants@, 0) == spec_variants_check(variants@, i as int),
            forall|j: int| 0 <= j < i ==> variant_derives(variants@[j], *rename_all, slots@[j]),
        decreases variants@.len() - i,
    {
        let variant = &variants[i];
        let pt = match partial_ty_of(&variant.payload) {
            Result::Ok(pt) => pt,
            Result::Err(e) => {
                return Result::Err(e);
            },
        };
        let slot_name = variant.partial_field_name();
        let wire_tag = variant.tag(rename_all);
        slots.push(SumSlot { name: slot_name, wire_tag, ty: pt });
        i = i + 1;
    }
    proof {
        lemma_variants_derive_from(variants@, *rename_all, slots@, 0);
    }
    Result::Ok(
        PartialTy::SumPt(
            PartialSum {
                name: name_conf.ident.clone(),
                attrs: clone_strs(&config.attrs),
                tagging: tagging.clone(),
                slots,
            },
        ),
    )
}

/// Pointwise slot derivation gives the slot derivation from `i` on.
proof fn lemma_variants_derive_from(
    variants: Seq<Variant>,
    rename_all: Option<RenameStyle>,
    slots: Seq<SumSlot>,
    i: int,
)
    requires
        0 <= i <= variants.len(),
        slots.len() == variants.len(),
        forall|j: int| 0 <= j < variants.len() ==> variant_derives(variants[j], rename_all,
        slots[j]),
    ensures
        variants_derive(variants, rename_all, slots, i),
    decreases variants.len() - i,
{
    if i < variants.len() {
        lemma_variants_derive_from(variants, rename_all, slots, i + 1);
    }
}

} // verus!
