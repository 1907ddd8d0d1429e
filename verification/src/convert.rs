//! The partial-conversion rule and the default-value adapter: turning a full
//! value of a type into the equivalent fully-present partial value, and
//! producing a type's intrinsic default in partial form. The record decoder
//! consults these whenever a defaulted field is absent.

use vstd::prelude::*;

use crate::partial_schema::{
    absent_slots, find_slot, lemma_spec_absent_slots, spec_absent_slots, spec_find_slot,
    PartialField, PartialSum, PartialTy, SumSlot,
};
use crate::partial_value::{
    embed, lemma_pslots_view, popt_view, pslots_view, spec_embed, PartialValue, SpecPartial,
};
use crate::attributes::SerdeEnumTagParams;
use crate::value::{obj_get, spec_obj_get, SpecValue, Value};

verus! {

/// The intrinsic default of a type, in partial form: false, zero, the empty
/// string, the empty list, the absent optional, the empty opaque object, or a
/// record of its fields' intrinsic defaults, all present. Sum types have no
/// intrinsic default.
pub open spec fn spec_intrinsic(pty: PartialTy) -> Option<SpecPartial>
    decreases pty, 0int,
{
    match pty {
        PartialTy::BoolPt => Option::Some(SpecPartial::Bool(false)),
        PartialTy::IntPt => Option::Some(SpecPartial::Int(0)),
        PartialTy::StrPt => Option::Some(SpecPartial::Str(Seq::empty())),
        PartialTy::RawPt => Option::Some(SpecPartial::Record(Seq::empty())),
        PartialTy::OptionPt(_) => Option::Some(SpecPartial::Null),
        PartialTy::ListPt(_) => Option::Some(SpecPartial::List(Seq::empty())),
        PartialTy::RecordPt(rec) => match spec_intrinsic_fields(rec.fields@, 0) {
            Option::Some(slots) => Option::Some(SpecPartial::Record(slots)),
            Option::None => Option::None,
        },
        PartialTy::SumPt(_) => Option::None,
    }
}

/// The intrinsic defaults of a record's slots from `i` on, all present; none
/// if some slot's type has no intrinsic default.
pub open spec fn spec_intrinsic_fields(fields: Seq<PartialField>, i: int) -> Option<
    Seq<(Seq<char>, Option<SpecPartial>)>,
>
    decreases fields, fields.len() - i,
{
    if i < 0 || i >= fields.len() {
        Option::Some(Seq::empty())
    } else {
        match spec_intrinsic(fields[i].ty) {
            Option::Some(pv) => match spec_intrinsic_fields(fields, i + 1) {
                Option::Some(rest) => Option::Some(
                    seq![(fields[i].name@, Option::Some(pv))] + rest,
                ),
                Option::None => Option::None,
            },
            Option::None => Option::None,
        }
    }
}

/// The partial-conversion rule: the partial form of a full value of a type.
/// Nothing may be missing or mistyped: a record value must carry every field,
/// a tagged sum value must name a variant whose payload converts, an untagged
/// sum value must convert as at least one variant's payload. A partial value
/// built this way has every slot present except the unchosen variants of a
/// sum.
pub open spec fn spec_strict(pty: PartialTy, v: SpecValue) -> Option<SpecPartial>
    decreases pty, 0int,
{
    match pty {
        PartialTy::BoolPt => match v {
            SpecValue::Bool(b) => Option::Some(SpecPartial::Bool(b)),
            _ => Option::None,
        },
        PartialTy::IntPt => match v {
            SpecValue::Int(i) => Option::Some(SpecPartial::Int(i)),
            _ => Option::None,
        },
        PartialTy::StrPt => match v {
            SpecValue::Str(s) => Option::Some(SpecPartial::Str(s)),
            _ => Option::None,
        },
        PartialTy::RawPt => Option::Some(spec_embed(v)),
        PartialTy::OptionPt(t) => match v {
            SpecValue::Null => Option::Some(SpecPartial::Null),
            _ => spec_strict(*t, v),
        },
        PartialTy::ListPt(t) => match v {
            SpecValue::Arr(elems) => match spec_strict_elems(*t, elems, 0) {
                Option::Some(ps) => Option::Some(SpecPartial::List(ps)),
                Option::None => Option::None,
            },
            _ => Option::None,
        },
        PartialTy::RecordPt(rec) => match v {
            SpecValue::Obj(entries) => match spec_strict_fields(rec.fields@, entries, 0) {
                Option::Some(slots) => Option::Some(SpecPartial::Record(slots)),
                Option::None => Option::None,
            },
            _ => Option::None,
        },
        PartialTy::SumPt(sum) => spec_strict_sum(sum, v),
    }
}

/// The partial forms of a list's elements from `i` on; none if any element
/// fails to convert.
pub open spec fn spec_strict_elems(t: PartialTy, elems: Seq<SpecValue>, i: int) -> Option<
    Seq<SpecPartial>,
>
    decreases t, elems.len() - i,
{
    if i < 0 || i >= elems.len() {
        Option::Some(Seq::empty())
    } else {
        match spec_strict(t, elems[i]) {
            Option::Some(pv) => match spec_strict_elems(t, elems, i + 1) {
                Option::Some(rest) => Option::Some(seq![pv] + rest),
                Option::None => Option::None,
            },
            Option::None => Option::None,
        }
    }
}

/// The present slots of a full record value from field `i` on: every field's
/// key must be present in the object and its value must convert; none
/// otherwise.
pub open spec fn spec_strict_fields(
    fields: Seq<PartialField>,
    entries: Seq<(Seq<char>, SpecValue)>,
    i: int,
) -> Option<Seq<(Seq<char>, Option<SpecPartial>)>>
    decreases fields, fields.len() - i,
{
    if i < 0 || i >= fields.len() {
        Option::Some(Seq::empty())
    } else {
        match spec_obj_get(entries, fields[i].key@) {
            Option::Some(x) => match spec_strict(fields[i].ty, x) {
                Option::Some(pv) => match spec_strict_fields(fields, entries, i + 1) {
                    Option::Some(rest) => Option::Some(
                        seq![(fields[i].name@, Option::Some(pv))] + rest,
                    ),
                    Option::None => Option::None,
                },
                Option::None => Option::None,
            },
            Option::None => Option::None,
        }
    }
}

/// The slots of an untagged sum conversion from slot `i` on: each variant's
/// slot is present exactly when the whole value converts as that variant's
/// payload.
pub open spec fn spec_strict_untagged(slots: Seq<SumSlot>, v: SpecValue, i: int) -> Seq<
    (Seq<char>, Option<SpecPartial>),
>
    decreases slots, slots.len() - i,
{
    if i < 0 || i >= slots.len() {
        Seq::empty()
    } else {
        seq![(slots[i].name@, spec_strict(slots[i].ty, v))] + spec_strict_untagged(
            slots,
            v,
            i + 1,
        )
    }
}

/// The partial form of a full sum value under the sum's tagging convention:
/// untagged values convert as every variant they fit (at least one); tagged
/// values must name a variant by tag and their payload must convert, filling
/// that one slot.
pub open spec fn spec_strict_sum(sum: PartialSum, v: SpecValue) -> Option<SpecPartial>
    decreases sum, 1int,
{
    match sum.tagging {
        SerdeEnumTagParams::Untagged => {
            let slots = spec_strict_untagged(sum.slots@, v, 0);
            if exists|i: int| 0 <= i < slots.len() && slots[i].1 is Some {
                Option::Some(SpecPartial::Record(slots))
            } else {
                Option::None
            }
        },
        SerdeEnumTagParams::InternallyTagged { tag_key } => {
            if {
                &&& v matches SpecValue::Obj(entries)
                &&& spec_obj_get(entries, tag_key@) matches Option::Some(SpecValue::Str(t))
                &&& spec_find_slot(sum.slots@, t, 0) matches Option::Some(k)
                &&& 0 <= k < sum.slots@.len()
            } {
                let t = spec_obj_get(v->Obj_0, tag_key@)->Some_0->Str_0;
                let k = spec_find_slot(sum.slots@, t, 0)->Some_0;
                match spec_strict(sum.slots@[k].ty, v) {
                    Option::Some(pv) => Option::Some(
                        SpecPartial::Record(
                            spec_absent_slots(sum.slots@, 0).update(
                                k,
                                (sum.slots@[k].name@, Option::Some(pv)),
                            ),
                        ),
                    ),
                    Option::None => Option::None,
                }
            } else {
                Option::None
            }
        },
        SerdeEnumTagParams::AdjacentlyTagged { tag_key, content_key } => {
            if {
                &&& v matches SpecValue::Obj(entries)
                &&& spec_obj_get(entries, tag_key@) matches Option::Some(SpecValue::Str(t))
                &&& spec_find_slot(sum.slots@, t, 0) matches Option::Some(k)
                &&& 0 <= k < sum.slots@.len()
                &&& spec_obj_get(entries, content_key@) is Some
            } {
                let entries = v->Obj_0;
                let t = spec_obj_get(entries, tag_key@)->Some_0->Str_0;
                let k = spec_find_slot(sum.slots@, t, 0)->Some_0;
                let content = spec_obj_get(entries, content_key@)->Some_0;
                match spec_strict(sum.slots@[k].ty, content) {
                    Option::Some(pv) => Option::Some(
                        SpecPartial::Record(
                            spec_absent_slots(sum.slots@, 0).update(
                                k,
                                (sum.slots@[k].name@, Option::Some(pv)),
                            ),
                        ),
                    ),
                    Option::None => Option::None,
                }
            } else {
                Option::None
            }
        },
        SerdeEnumTagParams::ExternallyTagged => {
            if {
                &&& v matches SpecValue::Obj(entries)
                &&& spec_find_ext(sum.slots@, entries, 0) matches Option::Some(k)
                &&& 0 <= k < sum.slots@.len()
            } {
                let entries = v->Obj_0;
                let k = spec_find_ext(sum.slots@, entries, 0)->Some_0;
                let content = spec_obj_get(entries, sum.slots@[k].wire_tag@)->Some_0;
                match spec_strict(sum.slots@[k].ty, content) {
                    Option::Some(pv) => Option::Some(
                        SpecPartial::Record(
                            spec_absent_slots(sum.slots@, 0).update(
                                k,
                                (sum.slots@[k].name@, Option::Some(pv)),
                            ),
                        ),
                    ),
                    Option::None => Option::None,
                }
            } else {
                Option::None
            }
        },
    }
}

/// The first slot from `i` on whose wire tag is a key of the object, if any.
pub open spec fn spec_find_ext(
    slots: Seq<SumSlot>,
    entries: Seq<(Seq<char>, SpecValue)>,
    i: int,
) -> Option<int>
    decreases slots.len() - i,
{
    if i < 0 || i >= slots.len() {
        Option::None
    } else if spec_obj_get(entries, slots[i].wire_tag@) is Some {
        Option::Some(i)
    } else {
        spec_find_ext(slots, entries, i + 1)
    }
}

/// The concatenation of a decoded prefix with the rest of a conversion, if
/// the rest succeeded.
pub open spec fn opt_concat<T>(prefix: Seq<T>, rest: Option<Seq<T>>) -> Option<Seq<T>> {
    match rest {
        Option::Some(r) => Option::Some(prefix + r),
        Option::None => Option::None,
    }
}

/// An untagged conversion has one slot per variant, in order, pairing the
/// slot name with the conversion of the whole value as that variant.
pub proof fn lemma_spec_strict_untagged(slots: Seq<SumSlot>, v: SpecValue, i: int)
    requires
        0 <= i <= slots.len(),
    ensures
        spec_strict_untagged(slots, v, i).len() == slots.len() - i,
        forall|j: int| i <= j < slots.len() ==> spec_strict_untagged(slots, v, i)[j - i] == (
            slots[j].name@,
            spec_strict(slots[j].ty, v),
        ),
    decreases slots.len() - i,
{
    if i < slots.len() {
        lemma_spec_strict_untagged(slots, v, i + 1);
    }
}

/// Produces a type's intrinsic default in partial form, if the type has one.
#[verifier::loop_isolation(false)]
pub fn intrinsic_default(pty: &PartialTy) -> (r: Option<PartialValue>)
    ensures
        popt_view(r) == spec_intrinsic(*pty),
    decreases pty,
{
    match pty {
        PartialTy::BoolPt => Option::Some(PartialValue::Bool(false)),
        PartialTy::IntPt => Option::Some(PartialValue::Int(0)),
        PartialTy::StrPt => Option::Some(PartialValue::Str(String::new())),
        PartialTy::RawPt => {
            let out: Vec<(String, Option<PartialValue>)> = Vec::new();
            proof {
                assert(pslots_view(out@) =~= Seq::<(Seq<char>, Option<SpecPartial>)>::empty());
            }
            Option::Some(PartialValue::Record(out))
        },
        PartialTy::OptionPt(_) => Option::Some(PartialValue::Null),
        PartialTy::ListPt(_) => {
            let out: Vec<PartialValue> = Vec::new();
            proof {
                assert(crate::partial_value::pelems_view(out@) =~= Seq::<SpecPartial>::empty());
            }
            Option::Some(PartialValue::List(out))
        },
        PartialTy::RecordPt(rec) => {
            let mut out: Vec<(String, Option<PartialValue>)> = Vec::new();
            let mut i: usize = 0;
            proof {
                assert(pslots_view(out@) =~= Seq::<(Seq<char>, Option<SpecPartial>)>::empty());
            }
            while i < rec.fields.len()
                invariant
                    0 <= i <= rec.fields@.len(),
                    spec_intrinsic_fields(rec.fields@, 0) == opt_concat(
                        pslots_view(out@),
                        spec_intrinsic_fields(rec.fields@, i as int),
                    ),
                decreases rec.fields@.len() - i,
            {
                let ghost prev = out@;
                match intrinsic_default(&rec.fields[i].ty) {
                    Option::Some(pv) => {
                        out.push((rec.fields[i].name.clone(), Option::Some(pv)));
                    },
                    Option::None => {
                        return Option::None;
                    },
                }
                proof {
                    lemma_pslots_view(prev);
                    lemma_pslots_view(out@);
                    assert(pslots_view(out@) =~= pslots_view(prev) + seq![
                        (
                            rec.fields@[i as int].name@,
                            spec_intrinsic(rec.fields@[i as int].ty),
                        ),
                    ]);
                    match spec_intrinsic_fields(rec.fields@, i + 1) {
                        Option::Some(rest) => {
                            assert(pslots_view(out@) + rest =~= pslots_view(prev) + (seq![
                                (
                                    rec.fields@[i as int].name@,
                                    spec_intrinsic(rec.fields@[i as int].ty),
                                ),
                            ] + rest));
                        },
                        Option::None => {},
                    }
                }
                i = i + 1;
            }
            proof {
                assert(pslots_view(out@) + Seq::<(Seq<char>, Option<SpecPartial>)>::empty()
                    =~= pslots_view(out@));
            }
            Option::Some(PartialValue::Record(out))
        },
        PartialTy::SumPt(_) => Option::None,
    }
}

/// The partial-conversion rule, and with it the default-value adapter: turns
/// a full value of a type into the equivalent fully-present partial value,
/// converting recursively; yields nothing when the value is not a full value
/// of the type. The record decoder invokes this lazily, whenever an absent
/// defaulted field falls back to its stored default value.
#[verifier::loop_isolation(false)]
pub fn to_partial(pty: &PartialTy, v: &Value) -> (r: Option<PartialValue>)
    ensures
        popt_view(r) == spec_strict(*pty, v@),
    decreases pty, 0int,
{
    match pty {
        PartialTy::BoolPt => match v {
            Value::Bool(b) => Option::Some(PartialValue::Bool(*b)),
            _ => Option::None,
        },
        PartialTy::IntPt => match v {
            Value::Int(i) => Option::Some(PartialValue::Int(*i)),
            _ => Option::None,
        },
        PartialTy::StrPt => match v {
            Value::Str(s) => Option::Some(PartialValue::Str(s.clone())),
            _ => Option::None,
        },
        PartialTy::RawPt => Option::Some(embed(v)),
        PartialTy::OptionPt(t) => match v {
            Value::Null => Option::Some(PartialValue::Null),
            _ => to_partial(t, v),
        },
        PartialTy::ListPt(t) => match v {
            Value::Arr(elems) => {
                let ghost m = crate::value::elems_view(elems@);
                proof {
                    crate::value::lemma_elems_view(elems@);
                }
                let mut out: Vec<PartialValue> = Vec::new();
                let mut i: usize = 0;
                proof {
                    assert(crate::partial_value::pelems_view(out@) =~= Seq::<
                        SpecPartial,
                    >::empty());
                }
                while i < elems.len()
                    invariant
                        0 <= i <= elems@.len(),
                        spec_strict_elems(**t, m, 0) == opt_concat(
                            crate::partial_value::pelems_view(out@),
                            spec_strict_elems(**t, m, i as int),
                        ),
                    decreases elems@.len() - i,
                {
                    let ghost prev = out@;
                    match to_partial(t, &elems[i]) {
                        Option::Some(pv) => {
                            out.push(pv);
                        },
                        Option::None => {
                            return Option::None;
                        },
                    }
                    proof {
                        crate::partial_value::lemma_pelems_view(prev);
                        crate::partial_value::lemma_pelems_view(out@);
                        assert(crate::partial_value::pelems_view(out@)
                            =~= crate::partial_value::pelems_view(prev) + seq![
                            spec_strict(**t, m[i as int])->Some_0,
                        ]);
                        match spec_strict_elems(**t, m, i + 1) {
                            Option::Some(rest) => {
                                assert(crate::partial_value::pelems_view(out@) + rest
                                    =~= crate::partial_value::pelems_view(prev) + (seq![
                                    spec_strict(**t, m[i as int])->Some_0,
                                ] + rest));
                            },
                            Option::None => {},
                        }
                    }
                    i = i + 1;
                }
                proof {
                    assert(crate::partial_value::pelems_view(out@) + Seq::<SpecPartial>::empty()
                        =~= crate::partial_value::pelems_view(out@));
                }
                Option::Some(PartialValue::List(out))
            },
            _ => Option::None,
        },
        PartialTy::RecordPt(rec) => match v {
            Value::Obj(entries) => {
                let ghost m = crate::value::entries_view(entries@);
                let mut out: Vec<(String, Option<PartialValue>)> = Vec::new();
                let mut i: usize = 0;
                proof {
                    assert(pslots_view(out@) =~= Seq::<
                        (Seq<char>, Option<SpecPartial>),
                    >::empty());
                }
                while i < rec.fields.len()
                    invariant
                        0 <= i <= rec.fields@.len(),
                        spec_strict_fields(rec.fields@, m, 0) == opt_concat(
                            pslots_view(out@),
                            spec_strict_fields(rec.fields@, m, i as int),
                        ),
                    decreases rec.fields@.len() - i,
                {
                    let ghost prev = out@;
                    match obj_get(entries, &rec.fields[i].key) {
                        Option::Some(x) => {
                            match to_partial(&rec.fields[i].ty, x) {
                                Option::Some(pv) => {
                                    out.push((rec.fields[i].name.clone(), Option::Some(pv)));
                                },
                                Option::None => {
                                    return Option::None;
                                },
                            }
                        },
                        Option::None => {
                            return Option::None;
                        },
                    }
                    proof {
                        lemma_pslots_view(prev);
                        lemma_pslots_view(out@);
                        let ghost x = spec_obj_get(m, rec.fields@[i as int].key@)->Some_0;
                        assert(pslots_view(out@) =~= pslots_view(prev) + seq![
                            (
                                rec.fields@[i as int].name@,
                                spec_strict(rec.fields@[i as int].ty, x),
                            ),
                        ]);
                        match spec_strict_fields(rec.fields@, m, i + 1) {
                            Option::Some(rest) => {
                                assert(pslots_view(out@) + rest =~= pslots_view(prev) + (seq![
                                    (
                                        rec.fields@[i as int].name@,
                                        spec_strict(rec.fields@[i as int].ty, x),
                                    ),
                                ] + rest));
                            },
                            Option::None => {},
                        }
                    }
                    i = i + 1;
                }
                proof {
                    assert(pslots_view(out@) + Seq::<(Seq<char>, Option<SpecPartial>)>::empty()
                        =~= pslots_view(out@));
                }
                Option::Some(PartialValue::Record(out))
            },
            _ => Option::None,
        },
        PartialTy::SumPt(sum) => to_partial_sum(sum, v),
    }
}

/// The partial-conversion rule for full sum values, under the sum's tagging
/// convention.
#[verifier::loop_isolation(false)]
fn to_partial_sum(sum: &PartialSum, v: &Value) -> (r: Option<PartialValue>)
    ensures
        popt_view(r) == spec_strict_sum(*sum, v@),
    decreases sum, 1int,
{
    match &sum.tagging {
        SerdeEnumTagParams::Untagged => {
            let mut out: Vec<(String, Option<PartialValue>)> = Vec::new();
            let mut any: bool = false;
            let mut i: usize = 0;
            while i < sum.slots.len()
                invariant
                    0 <= i <= sum.slots@.len(),
                    out@.len() == i,
                    forall|j: int| 0 <= j < i ==> out@[j].0@ == sum.slots@[j].name@ && popt_view(
                        out@[j].1,
                    ) == spec_strict(sum.slots@[j].ty, v@),
                    any == exists|j: int| 0 <= j < i && spec_strict(sum.slots@[j].ty, v@) is Some,
                decreases sum.slots@.len() - i,
            {
                let slot_val = to_partial(&sum.slots[i].ty, v);
                if slot_val.is_some() {
                    any = true;
                }
                out.push((sum.slots[i].name.clone(), slot_val));
                i = i + 1;
            }
            proof {
                lemma_pslots_view(out@);
                lemma_spec_strict_untagged(sum.slots@, v@, 0);
                assert(pslots_view(out@) =~= spec_strict_untagged(sum.slots@, v@, 0));
            }
            if any {
                Option::Some(PartialValue::Record(out))
            } else {
                proof {
                    let ghost slots = spec_strict_untagged(sum.slots@, v@, 0);
                    assert(forall|j: int| 0 <= j < slots.len() ==> slots[j].1 is None);
                }
                Option::None
            }
        },
        SerdeEnumTagParams::InternallyTagged { tag_key } => {
            match v {
                Value::Obj(entries) => {
                    match obj_get(entries, tag_key) {
                        Option::Some(Value::Str(t)) => {
                            match find_slot(&sum.slots, t) {
                                Option::Some(k) => {
                                    match to_partial(&sum.slots[k].ty, v) {
                                        Option::Some(pv) => {
                                            let mut out = absent_slots(&sum.slots);
                                            out.set(
                                                k,
                                                (sum.slots[k].name.clone(), Option::Some(pv)),
                                            );
                                            proof {
                                                lemma_pslots_view(out@);
                                                lemma_spec_absent_slots(sum.slots@, 0);
                                                assert(pslots_view(out@) =~= spec_absent_slots(
                                                    sum.slots@,
                                                    0,
                                                ).update(
                                                    k as int,
                                                    (
                                                        sum.slots@[k as int].name@,
                                                        spec_strict(sum.slots@[k as int].ty, v@),
                                                    ),
                                                ));
                                            }
                                            Option::Some(PartialValue::Record(out))
                                        },
                                        Option::None => Option::None,
                                    }
                                },
                                Option::None => Option::None,
                            }
                        },
                        _ => Option::None,
                    }
                },
                _ => Option::None,
            }
        },
        SerdeEnumTagParams::AdjacentlyTagged { tag_key, content_key } => {
            match v {
                Value::Obj(entries) => {
                    match obj_get(entries, tag_key) {
                        Option::Some(Value::Str(t)) => {
                            match find_slot(&sum.slots, t) {
                                Option::Some(k) => {
                                    match obj_get(entries, content_key) {
                                        Option::Some(content) => {
                                            match to_partial(&sum.slots[k].ty, content) {
                                                Option::Some(pv) => {
                                                    let mut out = absent_slots(&sum.slots);
                                                    out.set(
                                                        k,
                                                        (
                                                            sum.slots[k].name.clone(),
                                                            Option::Some(pv),
                                                        ),
                                                    );
                                                    proof {
                                                        lemma_pslots_view(out@);
                                                        lemma_spec_absent_slots(sum.slots@, 0);
                                                        assert(pslots_view(out@)
                                                            =~= spec_absent_slots(
                                                            sum.slots@,
                                                            0,
                                                        ).update(
                                                            k as int,
                                                            (
                                                                sum.slots@[k as int].name@,
                                                                spec_strict(
                                                                    sum.slots@[k as int].ty,
                                                                    content@,
                                                                ),
                                                            ),
                                                        ));
                                                    }
                                                    Option::Some(PartialValue::Record(out))
                                                },
                                                Option::None => Option::None,
                                            }
                                        },
                                        Option::None => Option::None,
                                    }
                                },
                                Option::None => Option::None,
                            }
                        },
                        _ => Option::None,
                    }
                },
                _ => Option::None,
            }
        },
        SerdeEnumTagParams::ExternallyTagged => {
            match v {
                Value::Obj(entries) => {
                    let ghost m = crate::value::entries_view(entries@);
                    let mut i: usize = 0;
                    while i < sum.slots.len()
                        invariant
                            0 <= i <= sum.slots@.len(),
                            spec_find_ext(sum.slots@, m, 0) == spec_find_ext(
                                sum.slots@,
                                m,
                                i as int,
                            ),
                        decreases sum.slots@.len() - i,
                    {
                        match obj_get(entries, &sum.slots[i].wire_tag) {
                            Option::Some(content) => {
                                match to_partial(&sum.slots[i].ty, content) {
                                    Option::Some(pv) => {
                                        let mut out = absent_slots(&sum.slots);
                                        out.set(i, (sum.slots[i].name.clone(), Option::Some(pv)));
                                        proof {
                                            lemma_pslots_view(out@);
                                            lemma_spec_absent_slots(sum.slots@, 0);
                                            assert(pslots_view(out@) =~= spec_absent_slots(
                                                sum.slots@,
                                                0,
                                            ).update(
                                                i as int,
                                                (
                                                    sum.slots@[i as int].name@,
                                                    spec_strict(sum.slots@[i as int].ty, content@),
                                                ),
                                            ));
                                        }
                                        return Option::Some(PartialValue::Record(out));
                                    },
                                    Option::None => {
                                        return Option::None;
                                    },
                                }
                            },
                            Option::None => {},
                        }
                        i = i + 1;
                    }
                    Option::None
                },
                _ => Option::None,
            }
        },
    }
}

} // verus!
