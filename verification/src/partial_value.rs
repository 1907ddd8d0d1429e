//! Partial values: concrete instances of a partial schema. A partial value
//! mirrors a value tree, except that a record maps each slot name to either
//! an absent or a present nested partial value.

use vstd::prelude::*;

use crate::value::{
    elems_view, entries_view, lemma_elems_view, lemma_entries_view, SpecValue, Value,
};

verus! {

/// Mathematical model of a partial value.
pub enum SpecPartial {
    Null,
    Bool(bool),
    Int(int),
    Str(Seq<char>),
    List(Seq<SpecPartial>),
    Record(Seq<(Seq<char>, Option<SpecPartial>)>),
}

/// A concrete instance of a partial schema: created fresh per decode call and
/// never mutated afterwards. Every record slot is either absent or present
/// with a nested partial value.
#[derive(Debug, PartialEq, Eq)]
pub enum PartialValue {
    Null,
    Bool(bool),
    Int(i64),
    Str(String),
    List(Vec<PartialValue>),
    Record(Vec<(String, Option<PartialValue>)>),
}

/// The model of a partial value.
pub open spec fn partial_view(pv: PartialValue) -> SpecPartial
    decreases pv,
{
    match pv {
        PartialValue::Null => SpecPartial::Null,
        PartialValue::Bool(b) => SpecPartial::Bool(b),
        PartialValue::Int(i) => SpecPartial::Int(i as int),
        PartialValue::Str(s) => SpecPartial::Str(s@),
        PartialValue::List(elems) => SpecPartial::List(pelems_view(elems@)),
        PartialValue::Record(slots) => SpecPartial::Record(pslots_view(slots@)),
    }
}

/// The models of the elements of a partial list, in order.
pub open spec fn pelems_view(elems: Seq<PartialValue>) -> Seq<SpecPartial>
    decreases elems,
{
    if elems.len() == 0 {
        Seq::empty()
    } else {
        seq![partial_view(elems[0])] + pelems_view(elems.subrange(1, elems.len() as int))
    }
}

/// The models of the slots of a partial record, in order.
pub open spec fn pslots_view(slots: Seq<(String, Option<PartialValue>)>) -> Seq<
    (Seq<char>, Option<SpecPartial>),
>
    decreases slots,
{
    if slots.len() == 0 {
        Seq::empty()
    } else {
        seq![
            (
                slots[0].0@,
                match slots[0].1 {
                    Option::Some(pv) => Option::Some(partial_view(pv)),
                    Option::None => Option::<SpecPartial>::None,
                },
            ),
        ] + pslots_view(slots.subrange(1, slots.len() as int))
    }
}

impl View for PartialValue {
    type V = SpecPartial;

    open spec fn view(&self) -> SpecPartial {
        partial_view(*self)
    }
}

/// The model of an optional partial value: the model of the value if present.
pub open spec fn popt_view(o: Option<PartialValue>) -> Option<SpecPartial> {
    match o {
        Option::Some(pv) => Option::Some(partial_view(pv)),
        Option::None => Option::None,
    }
}

/// A partial list's model has one element for each list element, in order.
pub proof fn lemma_pelems_view(elems: Seq<PartialValue>)
    ensures
        pelems_view(elems).len() == elems.len(),
        forall|i: int| 0 <= i < elems.len() ==> pelems_view(elems)[i] == elems[i]@,
    decreases elems,
{
    if elems.len() > 0 {
        lemma_pelems_view(elems.subrange(1, elems.len() as int));
    }
}

/// A partial record's model has one slot for each record slot, in order,
/// pairing the slot name's characters with the model of its optional value.
pub proof fn lemma_pslots_view(slots: Seq<(String, Option<PartialValue>)>)
    ensures
        pslots_view(slots).len() == slots.len(),
        forall|i: int| 0 <= i < slots.len() ==> pslots_view(slots)[i] == (
            slots[i].0@,
            popt_view(slots[i].1),
        ),
    decreases slots,
{
    if slots.len() > 0 {
        lemma_pslots_view(slots.subrange(1, slots.len() as int));
    }
}

/// The partial form of an arbitrary value tree: the same tree, with every
/// object entry turned into a present record slot.
pub open spec fn spec_embed(v: SpecValue) -> SpecPartial
    decreases v,
{
    match v {
        SpecValue::Null => SpecPartial::Null,
        SpecValue::Bool(b) => SpecPartial::Bool(b),
        SpecValue::Int(i) => SpecPartial::Int(i),
        SpecValue::Str(s) => SpecPartial::Str(s),
        SpecValue::Arr(elems) => SpecPartial::List(spec_embed_elems(elems)),
        SpecValue::Obj(entries) => SpecPartial::Record(spec_embed_entries(entries)),
    }
}

/// The partial forms of an array's elements, in order.
pub open spec fn spec_embed_elems(elems: Seq<SpecValue>) -> Seq<SpecPartial>
    decreases elems,
{
    if elems.len() == 0 {
        Seq::empty()
    } else {
        seq![spec_embed(elems[0])] + spec_embed_elems(elems.subrange(1, elems.len() as int))
    }
}

/// The present record slots made of an object's entries, in order.
pub open spec fn spec_embed_entries(entries: Seq<(Seq<char>, SpecValue)>) -> Seq<
    (Seq<char>, Option<SpecPartial>),
>
    decreases entries,
{
    if entries.len() == 0 {
        Seq::empty()
    } else {
        seq![(entries[0].0, Option::Some(spec_embed(entries[0].1)))] + spec_embed_entries(
            entries.subrange(1, entries.len() as int),
        )
    }
}

/// Embedding an array's elements keeps their number and order.
pub proof fn lemma_spec_embed_elems(elems: Seq<SpecValue>)
    ensures
        spec_embed_elems(elems).len() == elems.len(),
        forall|i: int| 0 <= i < elems.len() ==> spec_embed_elems(elems)[i] == spec_embed(elems[i]),
    decreases elems,
{
    if elems.len() > 0 {
        lemma_spec_embed_elems(elems.subrange(1, elems.len() as int));
    }
}

/// Embedding an object's entries keeps their number, order and keys, and
/// makes every slot present.
pub proof fn lemma_spec_embed_entries(entries: Seq<(Seq<char>, SpecValue)>)
    ensures
        spec_embed_entries(entries).len() == entries.len(),
        forall|i: int| 0 <= i < entries.len() ==> spec_embed_entries(entries)[i] == (
            entries[i].0,
            Option::Some(spec_embed(entries[i].1)),
        ),
    decreases entries,
{
    if entries.len() > 0 {
        lemma_spec_embed_entries(entries.subrange(1, entries.len() as int));
    }
}

/// Turns a value tree into its partial form, object entries becoming present
/// record slots.
#[verifier::loop_isolation(false)]
pub fn embed(v: &Value) -> (r: PartialValue)
    ensures
        r@ == spec_embed(v@),
    decreases v,
{
    match v {
        Value::Null => PartialValue::Null,
        Value::Bool(b) => PartialValue::Bool(*b),
        Value::Int(i) => PartialValue::Int(*i),
        Value::Str(s) => PartialValue::Str(s.clone()),
        Value::Arr(elems) => {
            let mut out: Vec<PartialValue> = Vec::new();
            let mut i: usize = 0;
            while i < elems.len()
                invariant
                    0 <= i <= elems@.len(),
                    out@.len() == i,
                    forall|j: int| 0 <= j < i ==> out@[j]@ == spec_embed(elems@[j]@),
                decreases elems@.len() - i,
            {
                out.push(embed(&elems[i]));
                i = i + 1;
            }
            proof {
                lemma_pelems_view(out@);
                lemma_elems_view(elems@);
                lemma_spec_embed_elems(elems_view(elems@));
                assert(pelems_view(out@) =~= spec_embed_elems(elems_view(elems@)));
            }
            PartialValue::List(out)
        },
        Value::Obj(entries) => {
            let mut out: Vec<(String, Option<PartialValue>)> = Vec::new();
            let mut i: usize = 0;
            while i < entries.len()
                invariant
                    0 <= i <= entries@.len(),
                    out@.len() == i,
                    forall|j: int| 0 <= j < i ==> out@[j].0@ == entries@[j].0@ && popt_view(
                        out@[j].1,
                    ) == Option::Some(spec_embed(entries@[j].1@)),
                decreases entries@.len() - i,
            {
                let (k, val) = &entries[i];
                out.push((k.clone(), Option::Some(embed(val))));
                i = i + 1;
            }
            proof {
                lemma_pslots_view(out@);
                lemma_entries_view(entries@);
                lemma_spec_embed_entries(entries_view(entries@));
                assert(pslots_view(out@) =~= spec_embed_entries(entries_view(entries@)));
            }
            PartialValue::Record(out)
        },
    }
}

impl Clone for PartialValue {
    /// A clone of a partial value has the same model.
    #[verifier::loop_isolation(false)]
    fn clone(&self) -> (r: Self)
        ensures
            r@ == self@,
        decreases self,
    {
        match self {
            PartialValue::Null => PartialValue::Null,
            PartialValue::Bool(b) => PartialValue::Bool(*b),
            PartialValue::Int(i) => PartialValue::Int(*i),
            PartialValue::Str(s) => PartialValue::Str(s.clone()),
            PartialValue::List(elems) => {
                let mut out: Vec<PartialValue> = Vec::new();
                let mut i: usize = 0;
                while i < elems.len()
                    invariant
                        0 <= i <= elems@.len(),
                        out@.len() == i,
                        forall|j: int| 0 <= j < i ==> out@[j]@ == elems@[j]@,
                    decreases elems@.len() - i,
                {
                    out.push(elems[i].clone());
                    i = i + 1;
                }
                proof {
                    lemma_pelems_view(out@);
                    lemma_pelems_view(elems@);
                    assert(pelems_view(out@) =~= pelems_view(elems@));
                }
                PartialValue::List(out)
            },
            PartialValue::Record(slots) => {
                let mut out: Vec<(String, Option<PartialValue>)> = Vec::new();
                let mut i: usize = 0;
                while i < slots.len()
                    invariant
                        0 <= i <= slots@.len(),
                        out@.len() == i,
                        forall|j: int| 0 <= j < i ==> out@[j].0@ == slots@[j].0@ && popt_view(
                            out@[j].1,
                        ) == popt_view(slots@[j].1),
                    decreases slots@.len() - i,
                {
                    let (name, slot) = &slots[i];
                    let copied: Option<PartialValue> = match slot {
                        Option::Some(pv) => Option::Some(pv.clone()),
                        Option::None => Option::None,
                    };
                    out.push((name.clone(), copied));
                    i = i + 1;
                }
                proof {
                    lemma_pslots_view(out@);
                    lemma_pslots_view(slots@);
                    assert(pslots_view(out@) =~= pslots_view(slots@));
                }
                PartialValue::Record(out)
            },
        }
    }
}

} // verus!
