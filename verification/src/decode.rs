//! The partial-value decoder: given a partial schema and one untyped value
//! tree, builds a partial value. Decoding tolerates missing and malformed
//! fields: a field that is absent or fails to decode leaves its slot absent
//! (or falls back to the field's default rule), and a sum type decodes under
//! its tagging convention without ever failing outright. The only decode
//! error is an incoming value whose outer shape does not fit.

use vstd::prelude::*;

use crate::convert::{
    intrinsic_default, opt_concat, spec_find_ext, spec_intrinsic, spec_strict, to_partial,
};
use crate::errors::DecodeError;
use crate::partial_schema::{
    absent_slots, find_slot, lemma_spec_absent_slots, spec_absent_slots, spec_find_slot,
    PartialField, PartialSum, PartialTy, SlotRule, SumSlot,
};
use crate::partial_value::{
    embed, lemma_pslots_view, popt_view, pslots_view, spec_embed, PartialValue, SpecPartial,
};
use crate::attributes::SerdeEnumTagParams;
use crate::value::{obj_get, spec_obj_get, SpecValue, Value};

verus! {

/// What a slot receives when its key is absent or its value failed to decode:
/// nothing for an optional slot, the slot type's intrinsic default, or the
/// stored default value converted to its partial form.
pub open spec fn spec_slot_fallback(rule: SlotRule, ty: PartialTy) -> Option<SpecPartial> {
    match rule {
        SlotRule::OptionalSlot => Option::None,
        SlotRule::ImplicitSlotDefault => spec_intrinsic(ty),
        SlotRule::ExplicitSlotDefault(d) => spec_strict(ty, d@),
    }
}

/// The decode of one record field against an incoming object: the nested
/// value decoded against the field's type when its key is present and
/// decodes, else the field's fallback.
pub open spec fn spec_decode_field(
    field: PartialField,
    entries: Seq<(Seq<char>, SpecValue)>,
) -> Option<SpecPartial>
    decreases field, 0int,
{
    match spec_obj_get(entries, field.key@) {
        Option::Some(x) => match spec_try_decode(field.ty, x) {
            Option::Some(pv) => Option::Some(pv),
            Option::None => spec_slot_fallback(field.rule, field.ty),
        },
        Option::None => spec_slot_fallback(field.rule, field.ty),
    }
}

/// The slots of a record decode from field `i` on: one slot per field, in
/// order, each decoded independently.
pub open spec fn spec_decode_fields(
    fields: Seq<PartialField>,
    entries: Seq<(Seq<char>, SpecValue)>,
    i: int,
) -> Seq<(Seq<char>, Option<SpecPartial>)>
    decreases fields, fields.len() - i,
{
    if i < 0 || i >= fields.len() {
        Seq::empty()
    } else {
        seq![(fields[i].name@, spec_decode_field(fields[i], entries))] + spec_decode_fields(
            fields,
            entries,
            i + 1,
        )
    }
}

/// A record decode has one slot per field, in order, each decoded
/// independently of its siblings.
pub proof fn lemma_spec_decode_fields(
    fields: Seq<PartialField>,
    entries: Seq<(Seq<char>, SpecValue)>,
    i: int,
)
    requires
        0 <= i <= fields.len(),
    ensures
        spec_decode_fields(fields, entries, i).len() == fields.len() - i,
        forall|j: int| i <= j < fields.len() ==> spec_decode_fields(fields, entries, i)[j - i] == (
            fields[j].name@,
            spec_decode_field(fields[j], entries),
        ),
    decreases fields.len() - i,
{
    if i < fields.len() {
        lemma_spec_decode_fields(fields, entries, i + 1);
    }
}

/// The slots of an untagged sum decode from slot `i` on: the whole incoming
/// value is decoded against every variant's payload type independently, and
/// each slot is present exactly when its attempt succeeds. More than one slot
/// may be present; preserving that ambiguity is deliberate.
pub open spec fn spec_decode_untagged(slots: Seq<SumSlot>, v: SpecValue, i: int) -> Seq<
    (Seq<char>, Option<SpecPartial>),
>
    decreases slots, slots.len() - i,
{
    if i < 0 || i >= slots.len() {
        Seq::empty()
    } else {
        seq![(slots[i].name@, spec_try_decode(slots[i].ty, v))] + spec_decode_untagged(
            slots,
            v,
            i + 1,
        )
    }
}

/// An untagged sum decode has one slot per variant, in order, each the
/// independent decode of the whole value against that variant's payload.
pub proof fn lemma_spec_decode_untagged(slots: Seq<SumSlot>, v: SpecValue, i: int)
    requires
        0 <= i <= slots.len(),
    ensures
        spec_decode_untagged(slots, v, i).len() == slots.len() - i,
        forall|j: int| i <= j < slots.len() ==> spec_decode_untagged(slots, v, i)[j - i] == (
            slots[j].name@,
            spec_try_decode(slots[j].ty, v),
        ),
    decreases slots.len() - i,
{
    if i < slots.len() {
        lemma_spec_decode_untagged(slots, v, i + 1);
    }
}

/// The slots of a sum decode under the sum's tagging convention. The decode
/// never fails: at worst every slot is absent.
///
/// Untagged: every variant is attempted on the whole value. Internally
/// tagged: a string tag under the tag key selects the variant, which decodes
/// from the whole value; a missing or non-string tag falls back to the
/// untagged procedure, an unrecognized tag leaves all slots absent.
/// Adjacently tagged: the tag selects the variant and the value under the
/// content key (or the whole value, if the content key is absent) is decoded
/// into its slot; a missing, non-string or unrecognized tag leaves all slots
/// absent. Externally tagged: the first variant whose wire tag is a key of
/// the object decodes the value under that key; if none matches, the untagged
/// procedure is the last resort.
pub open spec fn spec_decode_sum(sum: PartialSum, v: SpecValue) -> Seq<
    (Seq<char>, Option<SpecPartial>),
>
    decreases sum, 1int,
{
    match sum.tagging {
        SerdeEnumTagParams::Untagged => spec_decode_untagged(sum.slots@, v, 0),
        SerdeEnumTagParams::InternallyTagged { tag_key } => {
            if {
                &&& v matches SpecValue::Obj(entries)
                &&& spec_obj_get(entries, tag_key@) matches Option::Some(SpecValue::Str(_t))
            } {
                let t = spec_obj_get(v->Obj_0, tag_key@)->Some_0->Str_0;
                if {
                    &&& spec_find_slot(sum.slots@, t, 0) matches Option::Some(k)
                    &&& 0 <= k < sum.slots@.len()
                } {
                    let k = spec_find_slot(sum.slots@, t, 0)->Some_0;
                    spec_absent_slots(sum.slots@, 0).update(
                        k,
                        (sum.slots@[k].name@, spec_try_decode(sum.slots@[k].ty, v)),
                    )
                } else {
                    spec_absent_slots(sum.slots@, 0)
                }
            } else {
                spec_decode_untagged(sum.slots@, v, 0)
            }
        },
        SerdeEnumTagParams::AdjacentlyTagged { tag_key, content_key } => {
            if {
                &&& v matches SpecValue::Obj(entries)
                &&& spec_obj_get(entries, tag_key@) matches Option::Some(SpecValue::Str(_t))
            } {
                let entries = v->Obj_0;
                let t = spec_obj_get(entries, tag_key@)->Some_0->Str_0;
                let content = match spec_obj_get(entries, content_key@) {
                    Option::Some(c) => c,
                    Option::None => v,
                };
                if {
                    &&& spec_find_slot(sum.slots@, t, 0) matches Option::Some(k)
                    &&& 0 <= k < sum.slots@.len()
                } {
                    let k = spec_find_slot(sum.slots@, t, 0)->Some_0;
                    spec_absent_slots(sum.slots@, 0).update(
                        k,
                        (sum.slots@[k].name@, spec_try_decode(sum.slots@[k].ty, content)),
                    )
                } else {
                    spec_absent_slots(sum.slots@, 0)
                }
            } else {
                spec_absent_slots(sum.slots@, 0)
            }
        },
        SerdeEnumTagParams::ExternallyTagged => {
            if {
                &&& v matches SpecValue::Obj(entries)
                &&& spec_find_ext(sum.slots@, entries, 0) matches Option::Some(k)
                &&& 0 <= k < sum.slots@.len()
            } {
                let entries = v->Obj_0;
                let k = spec_find_ext(sum.slots@, entries, 0)->Some_0;
                let content = spec_obj_get(entries, sum.slots@[k].wire_tag@)->Some_0;
                spec_absent_slots(sum.slots@, 0).update(
                    k,
                    (sum.slots@[k].name@, spec_try_decode(sum.slots@[k].ty, content)),
                )
            } else {
                spec_decode_untagged(sum.slots@, v, 0)
            }
        },
    }
}

/// The lenient decode of a value tree against a partial type: primitives and
/// raw trees must match shape, an optional type accepts null as the absent
/// optional, a list decodes elementwise (failing if any element fails), a
/// record requires an object and decodes each field independently, and a sum
/// decodes under its tagging convention and never fails.
pub open spec fn spec_try_decode(pty: PartialTy, v: SpecValue) -> Option<SpecPartial>
    decreases pty, 0int,
{
    match pty {
        PartialTy::BoolPt => match v {
            SpecValue::Bool(b) => Option::Some(SpecPartial::Bool(b)),
            _ => Option::None,
        },
        PartialTy::IntPt => match v {
            SpecValue::Int(i) => Option::Some(SpecPartial::Int(i)),
            _ => Option::None,
        },
        PartialTy::StrPt => match v {
            SpecValue::Str(s) => Option::Some(SpecPartial::Str(s)),
            _ => Option::None,
        },
        PartialTy::RawPt => Option::Some(spec_embed(v)),
        PartialTy::OptionPt(t) => match v {
            SpecValue::Null => Option::Some(SpecPartial::Null),
            _ => spec_try_decode(*t, v),
        },
        PartialTy::ListPt(t) => match v {
            SpecValue::Arr(elems) => match spec_decode_elems(*t, elems, 0) {
                Option::Some(ps) => Option::Some(SpecPartial::List(ps)),
                Option::None => Option::None,
            },
            _ => Option::None,
        },
        PartialTy::RecordPt(rec) => match v {
            SpecValue::Obj(entries) => Option::Some(
                SpecPartial::Record(spec_decode_fields(rec.fields@, entries, 0)),
            ),
            _ => Option::None,
        },
        PartialTy::SumPt(sum) => Option::Some(SpecPartial::Record(spec_decode_sum(sum, v))),
    }
}

/// The decodes of a list's elements from `i` on; none if any element fails.
pub open spec fn spec_decode_elems(t: PartialTy, elems: Seq<SpecValue>, i: int) -> Option<
    Seq<SpecPartial>,
>
    decreases t, elems.len() - i,
{
    if i < 0 || i >= elems.len() {
        Option::Some(Seq::empty())
    } else {
        match spec_try_decode(t, elems[i]) {
            Option::Some(pv) => match spec_decode_elems(t, elems, i + 1) {
                Option::Some(rest) => Option::Some(seq![pv] + rest),
                Option::None => Option::None,
            },
            Option::None => Option::None,
        }
    }
}

/// Produces a slot's fallback: nothing for an optional slot, the intrinsic
/// default for an implicitly defaulted one, the stored default converted to
/// partial form for an explicitly defaulted one.
fn slot_fallback(rule: &SlotRule, ty: &PartialTy) -> (r: Option<PartialValue>)
    ensures
        popt_view(r) == spec_slot_fallback(*rule, *ty),
{
    match rule {
        SlotRule::OptionalSlot => Option::None,
        SlotRule::ImplicitSlotDefault => intrinsic_default(ty),
        SlotRule::ExplicitSlotDefault(d) => to_partial(ty, d),
    }
}

/// Decodes a value tree against a partial type, leniently: absent where the
/// value does not fit.
#[verifier::loop_isolation(false)]
pub fn try_decode(pty: &PartialTy, v: &Value) -> (r: Option<PartialValue>)
    ensures
        popt_view(r) == spec_try_decode(*pty, v@),
    decreases pty, 0int,
{
    match pty {
        PartialTy::BoolPt => match v {
            Value::Bool(b) => Option::Some(PartialValue::Bool(*b)),
            _ => Option::None,
        },
        PartialTy::IntPt => match v {
            Value::Int(i) => Option::Some(PartialValue::Int(*i)),
            _ => Option::None,
        },
        PartialTy::StrPt => match v {
            Value::Str(s) => Option::Some(PartialValue::Str(s.clone())),
            _ => Option::None,
        },
        PartialTy::RawPt => Option::Some(embed(v)),
        PartialTy::OptionPt(t) => match v {
            Value::Null => Option::Some(PartialValue::Null),
            _ => try_decode(t, v),
        },
        PartialTy::ListPt(t) => match v {
            Value::Arr(elems) => {
                let ghost m = crate::value::elems_view(elems@);
                proof {
                    crate::value::lemma_elems_view(elems@);
                }
                let mut out: Vec<PartialValue> = Vec::new();
                let mut i: usize = 0;
                proof {
                    assert(crate::partial_value::pelems_view(out@) =~= Seq::<
                        SpecPartial,
                    >::empty());
                }
                while i < elems.len()
                    invariant
                        0 <= i <= elems@.len(),
                        spec_decode_elems(**t, m, 0) == opt_concat(
                            crate::partial_value::pelems_view(out@),
                            spec_decode_elems(**t, m, i as int),
                        ),
                    decreases elems@.len() - i,
                {
                    let ghost prev = out@;
                    match try_decode(t, &elems[i]) {
                        Option::Some(pv) => {
                            out.push(pv);
                        },
                        Option::None => {
                            return Option::None;
                        },
                    }
                    proof {
                        crate::partial_value::lemma_pelems_view(prev);
                        crate::partial_value::lemma_pelems_view(out@);
                        assert(crate::partial_value::pelems_view(out@)
                            =~= crate::partial_value::pelems_view(prev) + seq![
                            spec_try_decode(**t, m[i as int])->Some_0,
                        ]);
                        match spec_decode_elems(**t, m, i + 1) {
                            Option::Some(rest) => {
                                assert(crate::partial_value::pelems_view(out@) + rest
                                    =~= crate::partial_value::pelems_view(prev) + (seq![
                                    spec_try_decode(**t, m[i as int])->Some_0,
                                ] + rest));
                            },
                            Option::None => {},
                        }
                    }
                    i = i + 1;
                }
                proof {
                    assert(crate::partial_value::pelems_view(out@) + Seq::<SpecPartial>::empty()
                        =~= crate::partial_value::pelems_view(out@));
                }
                Option::Some(PartialValue::List(out))
            },
            _ => Option::None,
        },
        PartialTy::RecordPt(rec) => match v {
            Value::Obj(entries) => {
                let ghost m = crate::value::entries_view(entries@);
                let mut out: Vec<(String, Option<PartialValue>)> = Vec::new();
                let mut i: usize = 0;
                while i < rec.fields.len()
                    invariant
                        0 <= i <= rec.fields@.len(),
                        out@.len() == i,
                        forall|j: int| 0 <= j < i ==> out@[j].0@ == rec.fields@[j].name@
                            && popt_view(out@[j].1) == spec_decode_field(rec.fields@[j], m),
                    decreases rec.fields@.len() - i,
                {
                    let field = &rec.fields[i];
                    let slot: Option<PartialValue> = match obj_get(entries, &field.key) {
                        Option::Some(x) => match try_decode(&field.ty, x) {
                            Option::Some(pv) => Option::Some(pv),
                            Option::None => slot_fallback(&field.rule, &field.ty),
                        },
                        Option::None => slot_fallback(&field.rule, &field.ty),
                    };
                    out.push((field.name.clone(), slot));
                    i = i + 1;
                }
                proof {
                    lemma_pslots_view(out@);
                    lemma_spec_decode_fields(rec.fields@, m, 0);
                    assert forall|j: int| 0 <= j < rec.fields@.len() implies spec_decode_fields(
                        rec.fields@,
                        m,
                        0,
                    )[j] == (rec.fields@[j].name@, spec_decode_field(rec.fields@[j], m)) by {
                        assert(spec_decode_fields(rec.fields@, m, 0)[j - 0] == (
                            rec.fields@[j].name@,
                            spec_decode_field(rec.fields@[j], m),
                        ));
                    }
                    assert(pslots_view(out@) =~= spec_decode_fields(rec.fields@, m, 0));
                }
                Option::Some(PartialValue::Record(out))
            },
            _ => Option::None,
        },
        PartialTy::SumPt(sum) => Option::Some(PartialValue::Record(decode_sum(sum, v))),
    }
}

/// Decodes a value tree into a sum type's flattened partial record, under the
/// sum's tagging convention. Never fails: at worst every slot is absent.
#[verifier::loop_isolation(false)]
fn decode_sum(sum: &PartialSum, v: &Value) -> (r: Vec<(String, Option<PartialValue>)>)
    ensures
        pslots_view(r@) == spec_decode_sum(*sum, v@),
    decreases sum, 1int,
{
    match &sum.tagging {
        SerdeEnumTagParams::Untagged => decode_untagged(sum, v),
        SerdeEnumTagParams::InternallyTagged { tag_key } => {
            match v {
                Value::Obj(entries) => {
                    match obj_get(entries, tag_key) {
                        Option::Some(Value::Str(t)) => {
                            match find_slot(&sum.slots, t) {
                                Option::Some(k) => {
                                    let slot_val = try_decode(&sum.slots[k].ty, v);
                                    let mut out = absent_slots(&sum.slots);
                                    out.set(k, (sum.slots[k].name.clone(), slot_val));
                                    proof {
                                        lemma_pslots_view(out@);
                                        lemma_spec_absent_slots(sum.slots@, 0);
                                        assert(pslots_view(out@) =~= spec_absent_slots(
                                            sum.slots@,
                                            0,
                                        ).update(
                                            k as int,
                                            (
                                                sum.slots@[k as int].name@,
                                                spec_try_decode(sum.slots@[k as int].ty, v@),
                                            ),
                                        ));
                                    }
                                    out
                                },
                                Option::None => absent_slots(&sum.slots),
                            }
                        },
                        _ => decode_untagged(sum, v),
                    }
                },
                _ => decode_untagged(sum, v),
            }
        },
        SerdeEnumTagParams::AdjacentlyTagged { tag_key, content_key } => {
            match v {
                Value::Obj(entries) => {
                    match obj_get(entries, tag_key) {
                        Option::Some(Value::Str(t)) => {
                            let content: &Value = match obj_get(entries, content_key) {
                                Option::Some(c) => c,
                                Option::None => v,
                            };
                            match find_slot(&sum.slots, t) {
                                Option::Some(k) => {
                                    let slot_val = try_decode(&sum.slots[k].ty, content);
                                    let mut out = absent_slots(&sum.slots);
                                    out.set(k, (sum.slots[k].name.clone(), slot_val));
                                    proof {
                                        lemma_pslots_view(out@);
                                        lemma_spec_absent_slots(sum.slots@, 0);
                                        assert(pslots_view(out@) =~= spec_absent_slots(
                                            sum.slots@,
                                            0,
                                        ).update(
                                            k as int,
                                            (
                                                sum.slots@[k as int].name@,
                                                spec_try_decode(
                                                    sum.slots@[k as int].ty,
                                                    content@,
                                                ),
                                            ),
                                        ));
                                    }
                                    out
                                },
                                Option::None => absent_slots(&sum.slots),
                            }
                        },
                        _ => absent_slots(&sum.slots),
                    }
                },
                _ => absent_slots(&sum.slots),
            }
        },
        SerdeEnumTagParams::ExternallyTagged => {
            match v {
                Value::Obj(entries) => {
                    let ghost m = crate::value::entries_view(entries@);
                    let mut i: usize = 0;
                    while i < sum.slots.len()
                        invariant
                            0 <= i <= sum.slots@.len(),
                            spec_find_ext(sum.slots@, m, 0) == spec_find_ext(
                                sum.slots@,
                                m,
                                i as int,
                            ),
                        decreases sum.slots@.len() - i,
                    {
                        match obj_get(entries, &sum.slots[i].wire_tag) {
                            Option::Some(content) => {
                                let slot_val = try_decode(&sum.slots[i].ty, content);
                                let mut out = absent_slots(&sum.slots);
                                out.set(i, (sum.slots[i].name.clone(), slot_val));
                                proof {
                                    lemma_pslots_view(out@);
                                    lemma_spec_absent_slots(sum.slots@, 0);
                                    assert(pslots_view(out@) =~= spec_absent_slots(
                                        sum.slots@,
                                        0,
                                    ).update(
                                        i as int,
                                        (
                                            sum.slots@[i as int].name@,
                                            spec_try_decode(sum.slots@[i as int].ty, content@),
                                        ),
                                    ));
                                }
                                return out;
                            },
                            Option::None => {},
                        }
                        i = i + 1;
                    }
                    decode_untagged(sum, v)
                },
                _ => decode_untagged(sum, v),
            }
        },
    }
}

/// Decodes the whole value against every variant's payload independently: the
/// untagged procedure, also the fallback of the internally and externally
/// tagged ones.
#[verifier::loop_isolation(false)]
fn decode_untagged(sum: &PartialSum, v: &Value) -> (r: Vec<(String, Option<PartialValue>)>)
    ensures
        pslots_view(r@) == spec_decode_untagged(sum.slots@, v@, 0),
    decreases sum, 0int,
{
    let mut out: Vec<(String, Option<PartialValue>)> = Vec::new();
    let mut i: usize = 0;
    while i < sum.slots.len()
        invariant
            0 <= i <= sum.slots@.len(),
            out@.len() == i,
            forall|j: int| 0 <= j < i ==> out@[j].0@ == sum.slots@[j].name@ && popt_view(
                out@[j].1,
            ) == spec_try_decode(sum.slots@[j].ty, v@),
        decreases sum.slots@.len() - i,
    {
        let slot_val = try_decode(&sum.slots[i].ty, v);
        out.push((sum.slots[i].name.clone(), slot_val));
        i = i + 1;
    }
    proof {
        lemma_pslots_view(out@);
        lemma_spec_decode_untagged(sum.slots@, v@, 0);
        assert(pslots_view(out@) =~= spec_decode_untagged(sum.slots@, v@, 0));
    }
    out
}

/// Decodes one value tree against a partial schema, producing a partial
/// value. The decode is total but for the outer shape: it fails exactly when
/// the lenient decode has nothing to return, which for a record (and for the
/// primitive, optional and list forms) means an incoming value of the wrong
/// outer shape; a sum type never fails.
pub fn decode(pty: &PartialTy, v: &Value) -> (r: Result<PartialValue, DecodeError>)
    ensures
        match r {
            Result::Ok(pv) => spec_try_decode(*pty, v@) == Option::Some(pv@),
            Result::Err(e) => spec_try_decode(*pty, v@) is None && e
                == DecodeError::OuterShapeMismatch,
        },
{
    match try_decode(pty, v) {
        Option::Some(pv) => Result::Ok(pv),
        Option::None => Result::Err(DecodeError::OuterShapeMismatch),
    }
}

} // verus!
