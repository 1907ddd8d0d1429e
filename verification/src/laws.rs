//! Laws of the partial-schema derivation and of the decoder, stated over the
//! same spec functions that the executable functions' contracts use.

use vstd::prelude::*;

use crate::config::ConfigsForAsPartial;
use crate::convert::{spec_intrinsic, spec_intrinsic_fields, spec_strict};
use crate::decode::{
    lemma_spec_decode_fields, lemma_spec_decode_untagged, spec_decode_field, spec_decode_fields,
    spec_decode_sum, spec_decode_untagged, spec_slot_fallback, spec_try_decode,
};
use crate::partial_schema::{
    field_derives, fields_derive, record_derives, spec_fields_check, ty_derives, PartialField,
    PartialRecord, PartialSum, PartialTy, SlotRule,
};
use crate::partial_value::SpecPartial;
use crate::schema::{spec_fields_have_intrinsic, spec_has_intrinsic_ty, Field, Ty};
use crate::value::{spec_obj_get, SpecValue};
use crate::attributes::SerdeEnumTagParams;

verus! {

/// Decoding an empty object against any record schema yields a partial value
/// in which every slot without a default rule is absent, every slot with an
/// implicit default holds its type's intrinsic default, and every slot with
/// an explicit default holds the stored default value, recursively converted
/// to its partial form.
pub proof fn lemma_decode_empty_record(rec: PartialRecord)
    ensures
        spec_try_decode(
            PartialTy::RecordPt(rec),
            SpecValue::Obj(Seq::empty()),
        ) == Option::Some(
            SpecPartial::Record(spec_decode_fields(rec.fields@, Seq::empty(), 0)),
        ),
        spec_decode_fields(rec.fields@, Seq::empty(), 0).len() == rec.fields@.len(),
        forall|i: int|
            0 <= i < rec.fields@.len() && rec.fields@[i].rule is OptionalSlot
                ==> #[trigger] spec_decode_fields(rec.fields@, Seq::empty(), 0)[i].1 is None,
        forall|i: int|
            0 <= i < rec.fields@.len() && rec.fields@[i].rule is ImplicitSlotDefault
                ==> #[trigger] spec_decode_fields(rec.fields@, Seq::empty(), 0)[i].1
                == spec_intrinsic(rec.fields@[i].ty),
        forall|i: int|
            0 <= i < rec.fields@.len() ==> match rec.fields@[i].rule {
                SlotRule::ExplicitSlotDefault(d) => #[trigger] spec_decode_fields(
                    rec.fields@,
                    Seq::empty(),
                    0,
                )[i].1 == spec_strict(rec.fields@[i].ty, d@),
                _ => true,
            },
{
    let fields = rec.fields@;
    let entries = Seq::<(Seq<char>, SpecValue)>::empty();
    lemma_spec_decode_fields(fields, entries, 0);
    assert forall|i: int| 0 <= i < fields.len() implies #[trigger] spec_decode_fields(
        fields,
        entries,
        0,
    )[i].1 == spec_slot_fallback(fields[i].rule, fields[i].ty) by {
        assert(spec_decode_fields(fields, entries, 0)[i - 0] == (
            fields[i].name@,
            spec_decode_field(fields[i], entries),
        ));
        assert(spec_obj_get(entries, fields[i].key@) is None);
    }
}

/// A field whose key is present in the incoming object with a value that
/// decodes against the field's type gets a present slot holding exactly that
/// directly-decoded nested value, whatever its siblings hold.
pub proof fn lemma_decode_present_field(
    rec: PartialRecord,
    entries: Seq<(Seq<char>, SpecValue)>,
    i: int,
)
    requires
        0 <= i < rec.fields@.len(),
        spec_obj_get(entries, rec.fields@[i].key@) is Some,
        spec_try_decode(
            rec.fields@[i].ty,
            spec_obj_get(entries, rec.fields@[i].key@)->Some_0,
        ) is Some,
    ensures
        spec_try_decode(PartialTy::RecordPt(rec), SpecValue::Obj(entries)) == Option::Some(
            SpecPartial::Record(spec_decode_fields(rec.fields@, entries, 0)),
        ),
        spec_decode_fields(rec.fields@, entries, 0)[i] == (
            rec.fields@[i].name@,
            spec_try_decode(
                rec.fields@[i].ty,
                spec_obj_get(entries, rec.fields@[i].key@)->Some_0,
            ),
        ),
{
    let fields = rec.fields@;
    lemma_spec_decode_fields(fields, entries, 0);
    assert(spec_decode_fields(fields, entries, 0)[i - 0] == (
        fields[i].name@,
        spec_decode_field(fields[i], entries),
    ));
}

/// For an untagged sum type, a value that decodes against two variants'
/// payload types fills both corresponding slots at once: the ambiguity is
/// preserved rather than resolved.
pub proof fn lemma_untagged_ambiguity(sum: PartialSum, v: SpecValue, i: int, j: int)
    requires
        sum.tagging is Untagged,
        0 <= i < sum.slots@.len(),
        0 <= j < sum.slots@.len(),
        i != j,
        spec_try_decode(sum.slots@[i].ty, v) is Some,
        spec_try_decode(sum.slots@[j].ty, v) is Some,
    ensures
        spec_try_decode(PartialTy::SumPt(sum), v) == Option::Some(
            SpecPartial::Record(spec_decode_untagged(sum.slots@, v, 0)),
        ),
        spec_decode_untagged(sum.slots@, v, 0)[i].1 is Some,
        spec_decode_untagged(sum.slots@, v, 0)[j].1 is Some,
{
    assert(spec_decode_sum(sum, v) == spec_decode_untagged(sum.slots@, v, 0));
    lemma_spec_decode_untagged(sum.slots@, v, 0);
    assert(spec_decode_untagged(sum.slots@, v, 0)[i - 0] == (
        sum.slots@[i].name@,
        spec_try_decode(sum.slots@[i].ty, v),
    ));
    assert(spec_decode_untagged(sum.slots@, v, 0)[j - 0] == (
        sum.slots@[j].name@,
        spec_try_decode(sum.slots@[j].ty, v),
    ));
}

/// A pass-through derivation introduces no wrapping layer: the partial form
/// derived for a single-field wrapper is a partial form of the inner field's
/// own type, so a value decodes against the wrapper exactly as it decodes
/// against the inner field's type — there is nothing to unwrap in between.
pub proof fn lemma_pass_through_alias(
    config: ConfigsForAsPartial,
    fields: Seq<Field>,
    pty: PartialTy,
)
    requires
        config.mode is PartialIsInner,
        record_derives(config, fields, pty),
    ensures
        fields.len() == 1,
        ty_derives(fields[0].ty, pty),
{
}

/// The shape of an integer wrapped in `n` nested single-slot records, as a
/// partial type: the nesting chain the depth-preservation law quantifies
/// over.
pub open spec fn is_nest_ty(pty: PartialTy, n: nat) -> bool
    decreases n,
{
    if n == 0 {
        pty is IntPt
    } else {
        &&& pty matches PartialTy::RecordPt(rec)
        &&& rec.fields@.len() == 1
        &&& rec.fields@[0].name@ == "a"@
        &&& rec.fields@[0].key@ == "a"@
        &&& rec.fields@[0].rule is OptionalSlot
        &&& is_nest_ty(rec.fields@[0].ty, (n - 1) as nat)
    }
}

/// The integer seven wrapped in `n` nested single-entry objects.
pub open spec fn nest_value(n: nat) -> SpecValue
    decreases n,
{
    if n == 0 {
        SpecValue::Int(7)
    } else {
        SpecValue::Obj(seq![("a"@, nest_value((n - 1) as nat))])
    }
}

/// The integer seven wrapped in `n` nested single-slot partial records, every
/// slot present.
pub open spec fn nest_partial(n: nat) -> SpecPartial
    decreases n,
{
    if n == 0 {
        SpecPartial::Int(7)
    } else {
        SpecPartial::Record(seq![("a"@, Option::Some(nest_partial((n - 1) as nat)))])
    }
}

/// Decoding a nested object field recursively produces a nested partial
/// value, never a flattened one: through any number of nesting levels, the
/// decode of the `n`-fold wrapped value against the `n`-fold nested schema is
/// exactly the `n`-fold nested partial value.
pub proof fn lemma_nesting_depth_preserved(pty: PartialTy, n: nat)
    requires
        is_nest_ty(pty, n),
    ensures
        spec_try_decode(pty, nest_value(n)) == Option::Some(nest_partial(n)),
    decreases n,
{
    if n == 0 {
    } else {
        let rec = pty->RecordPt_0;
        let fields = rec.fields@;
        let entries = seq![("a"@, nest_value((n - 1) as nat))];
        lemma_nesting_depth_preserved(fields[0].ty, (n - 1) as nat);
        assert(spec_obj_get(entries, "a"@) == Option::Some(nest_value((n - 1) as nat)));
        assert(spec_decode_field(fields[0], entries) == Option::Some(nest_partial((n - 1) as nat)));
        lemma_spec_decode_fields(fields, entries, 0);
        assert(spec_decode_fields(fields, entries, 0)[0 - 0] == (
            fields[0].name@,
            spec_decode_field(fields[0], entries),
        ));
        assert(spec_decode_fields(fields, entries, 0) =~= seq![
            ("a"@, Option::Some(nest_partial((n - 1) as nat))),
        ]);
    }
}

/// The default-construction capability that the schema builder checks once,
/// on the declared type, is exactly the existence of an intrinsic default of
/// the derived partial type, which the decoder consults at decode time.
pub proof fn lemma_intrinsic_capability(ty: Ty, pty: PartialTy)
    requires
        ty_derives(ty, pty),
    ensures
        spec_has_intrinsic_ty(ty) == (spec_intrinsic(pty) is Some),
    decreases ty, 2int,
{
    match ty {
        Ty::BoolTy => {},
        Ty::IntTy => {},
        Ty::StrTy => {},
        Ty::RawTy => {},
        Ty::OptionTy(_) => {},
        Ty::ListTy(_) => {},
        Ty::NamedTy(def) => match def.schema {
            crate::schema::Schema::RecordSchema(fields) => match def.config.mode {
                crate::config::ModeConfig::PartialIsInner(_) => {
                    assert(crate::partial_schema::def_derives(*def, pty));
                    assert(record_derives(def.config, fields@, pty));
                    assert(fields@.len() == 1 && ty_derives(fields@[0].ty, pty));
                    lemma_intrinsic_capability(fields@[0].ty, pty);
                },
                crate::config::ModeConfig::Name(_) => {
                    assert(crate::partial_schema::def_derives(*def, pty));
                    assert(record_derives(def.config, fields@, pty));
                    let rec = pty->RecordPt_0;
                    lemma_intrinsic_capability_fields(fields@, rec.fields@, 0);
                },
            },
            crate::schema::Schema::SumSchema { .. } => {},
        },
    }
}

/// The capability of a record's remaining fields matches the existence of
/// their slots' intrinsic defaults.
proof fn lemma_intrinsic_capability_fields(
    fields: Seq<Field>,
    pfields: Seq<PartialField>,
    i: int,
)
    requires
        0 <= i <= fields.len(),
        pfields.len() == fields.len(),
        fields_derive(fields, pfields, i),
    ensures
        spec_fields_have_intrinsic(fields, i) == (spec_intrinsic_fields(pfields, i) is Some),
    decreases fields, fields.len() - i,
{
    if i < fields.len() {
        assert(field_derives(fields[i], pfields[i]));
        lemma_intrinsic_capability(fields[i].ty, pfields[i].ty);
        lemma_intrinsic_capability_fields(fields, pfields, i + 1);
    }
}

/// Slot derivation from `i` on gives slot derivation at each later index.
proof fn lemma_fields_derive_index(
    fields: Seq<Field>,
    pfields: Seq<PartialField>,
    i: int,
    j: int,
)
    requires
        0 <= i <= j < fields.len(),
        fields_derive(fields, pfields, i),
    ensures
        field_derives(fields[j], pfields[j]),
    decreases j - i,
{
    if i < j {
        lemma_fields_derive_index(fields, pfields, i + 1, j);
    }
}

/// A passing field check from `i` on means each later implicitly defaulted
/// field has a default-constructible type.
proof fn lemma_fields_check_index(fields: Seq<Field>, i: int, j: int)
    requires
        0 <= i <= j < fields.len(),
        spec_fields_check(fields, i) is Ok,
    ensures
        fields[j].rule is ImplicitDefault ==> spec_has_intrinsic_ty(fields[j].ty),
    decreases j - i,
{
    if i < j {
        lemma_fields_check_index(fields, i + 1, j);
    }
}

/// For a record schema that passed its definition-time checks, decoding an
/// empty object leaves no implicitly defaulted slot empty-handed: the
/// capability check performed once at definition time guarantees that the
/// intrinsic default exists whenever the decoder reaches for it.
pub proof fn lemma_built_defaults_present(
    config: ConfigsForAsPartial,
    fields: Seq<Field>,
    rec: PartialRecord,
)
    requires
        config.mode is Name,
        spec_fields_check(fields, 0) is Ok,
        record_derives(config, fields, PartialTy::RecordPt(rec)),
    ensures
        forall|i: int|
            0 <= i < fields.len() && fields[i].rule is ImplicitDefault
                ==> #[trigger] spec_decode_fields(rec.fields@, Seq::empty(), 0)[i].1 is Some,
{
    let entries = Seq::<(Seq<char>, SpecValue)>::empty();
    lemma_spec_decode_fields(rec.fields@, entries, 0);
    assert forall|i: int|
        0 <= i < fields.len() && fields[i].rule is ImplicitDefault implies #[trigger]
    spec_decode_fields(rec.fields@, entries, 0)[i].1 is Some by {
        lemma_fields_derive_index(fields, rec.fields@, 0, i);
        lemma_fields_check_index(fields, 0, i);
        lemma_intrinsic_capability(fields[i].ty, rec.fields@[i].ty);
        assert(spec_decode_fields(rec.fields@, entries, 0)[i - 0] == (
            rec.fields@[i].name@,
            spec_decode_field(rec.fields@[i], entries),
        ));
        assert(spec_obj_get(entries, rec.fields@[i].key@) is None);
    }
}

} // verus!
