//! The untyped, self-describing value tree that the decoder walks: the
//! generic JSON data model (null, boolean, integer number, string, array,
//! string-keyed object), together with its mathematical model.

use vstd::prelude::*;

verus! {

/// Mathematical model of a value tree. Strings are sequences of characters,
/// arrays and objects are sequences; object entries are key/value pairs.
pub enum SpecValue {
    Null,
    Bool(bool),
    Int(int),
    Str(Seq<char>),
    Arr(Seq<SpecValue>),
    Obj(Seq<(Seq<char>, SpecValue)>),
}

/// One node of an untyped value tree, as the decoder receives it.
#[derive(Debug, PartialEq, Eq)]
pub enum Value {
    Null,
    Bool(bool),
    Int(i64),
    Str(String),
    Arr(Vec<Value>),
    Obj(Vec<(String, Value)>),
}

/// The model of a value tree node.
pub open spec fn value_view(v: Value) -> SpecValue
    decreases v,
{
    match v {
        Value::Null => SpecValue::Null,
        Value::Bool(b) => SpecValue::Bool(b),
        Value::Int(i) => SpecValue::Int(i as int),
        Value::Str(s) => SpecValue::Str(s@),
        Value::Arr(elems) => SpecValue::Arr(elems_view(elems@)),
        Value::Obj(entries) => SpecValue::Obj(entries_view(entries@)),
    }
}

/// The models of the elements of an array, in order.
pub open spec fn elems_view(elems: Seq<Value>) -> Seq<SpecValue>
    decreases elems,
{
    if elems.len() == 0 {
        Seq::empty()
    } else {
        seq![value_view(elems[0])] + elems_view(elems.subrange(1, elems.len() as int))
    }
}

/// The models of the entries of an object, in order.
pub open spec fn entries_view(entries: Seq<(String, Value)>) -> Seq<(Seq<char>, SpecValue)>
    decreases entries,
{
    if entries.len() == 0 {
        Seq::empty()
    } else {
        seq![(entries[0].0@, value_view(entries[0].1))]
            + entries_view(entries.subrange(1, entries.len() as int))
    }
}

impl View for Value {
    type V = SpecValue;

    open spec fn view(&self) -> SpecValue {
        value_view(*self)
    }
}

/// An array's model has one element for each array element, in order.
pub proof fn lemma_elems_view(elems: Seq<Value>)
    ensures
        elems_view(elems).len() == elems.len(),
        forall|i: int| 0 <= i < elems.len() ==> elems_view(elems)[i] == elems[i]@,
    decreases elems,
{
    if elems.len() > 0 {
        lemma_elems_view(elems.subrange(1, elems.len() as int));
    }
}

/// An object's model has one entry for each object entry, in order, pairing
/// the key's characters with the value's model.
pub proof fn lemma_entries_view(entries: Seq<(String, Value)>)
    ensures
        entries_view(entries).len() == entries.len(),
        forall|i: int| 0 <= i < entries.len() ==> entries_view(entries)[i]
            == (entries[i].0@, entries[i].1@),
    decreases entries,
{
    if entries.len() > 0 {
        lemma_entries_view(entries.subrange(1, entries.len() as int));
    }
}

/// Lookup of `key` among the entries of an object model, starting at entry
/// `i`: the value of the first entry from `i` on whose key matches.
pub open spec fn spec_obj_get_from(
    entries: Seq<(Seq<char>, SpecValue)>,
    key: Seq<char>,
    i: int,
) -> Option<SpecValue>
    decreases entries.len() - i,
{
    if i < 0 || i >= entries.len() {
        Option::None
    } else if entries[i].0 == key {
        Option::Some(entries[i].1)
    } else {
        spec_obj_get_from(entries, key, i + 1)
    }
}

/// Lookup of `key` in an object model: the value of the first entry whose key
/// matches, if any. Keys are unique in a well-formed object, so the order of
/// entries is irrelevant for lookup.
pub open spec fn spec_obj_get(entries: Seq<(Seq<char>, SpecValue)>, key: Seq<char>) -> Option<
    SpecValue,
> {
    spec_obj_get_from(entries, key, 0)
}

/// Looks `key` up among an object node's entries, returning a reference to
/// the value of the first entry whose key equals `key`.
pub fn obj_get<'a>(entries: &'a Vec<(String, Value)>, key: &String) -> (r: Option<&'a Value>)
    ensures
        match r {
            Option::Some(v) => spec_obj_get(entries_view(entries@), key@)
                == Option::Some(v@),
            Option::None => spec_obj_get(entries_view(entries@), key@) is None,
        },
{
    proof {
        lemma_entries_view(entries@);
    }
    let ghost m = entries_view(entries@);
    let mut i: usize = 0;
    while i < entries.len()
        invariant
            0 <= i <= entries.len(),
            m == entries_view(entries@),
            m.len() == entries@.len(),
            forall|j: int| 0 <= j < entries@.len() ==> m[j] == (entries@[j].0@, entries@[j].1@),
            spec_obj_get(m, key@) == spec_obj_get_from(m, key@, i as int),
        decreases entries.len() - i,
    {
        if entries[i].0 == *key {
            return Option::Some(&entries[i].1);
        }
        i = i + 1;
    }
    Option::None
}

impl Clone for Value {
    /// A clone of a value tree has the same model.
    #[verifier::loop_isolation(false)]
    fn clone(&self) -> (r: Self)
        ensures
            r@ == self@,
        decreases self,
    {
        match self {
            Value::Null => Value::Null,
            Value::Bool(b) => Value::Bool(*b),
            Value::Int(i) => Value::Int(*i),
            Value::Str(s) => Value::Str(s.clone()),
            Value::Arr(elems) => {
                let mut out: Vec<Value> = Vec::new();
                let mut i: usize = 0;
                while i < elems.len()
                    invariant
                        0 <= i <= elems.len(),
                        out@.len() == i,
                        forall|j: int| 0 <= j < i ==> out@[j]@ == elems@[j]@,
                    decreases elems.len() - i,
                {
                    out.push(elems[i].clone());
                    i = i + 1;
                }
                proof {
                    lemma_elems_view(out@);
                    lemma_elems_view(elems@);
                    assert(elems_view(out@) =~= elems_view(elems@));
                }
                Value::Arr(out)
            },
            Value::Obj(entries) => {
                let mut out: Vec<(String, Value)> = Vec::new();
                let mut i: usize = 0;
                while i < entries.len()
                    invariant
                        0 <= i <= entries.len(),
                        out@.len() == i,
                        forall|j: int| 0 <= j < i ==> out@[j].0@ == entries@[j].0@
                            && out@[j].1@ == entries@[j].1@,
                    decreases entries.len() - i,
                {
                    let (k, v) = &entries[i];
                    out.push((k.clone(), v.clone()));
                    i = i + 1;
                }
                proof {
                    lemma_entries_view(out@);
                    lemma_entries_view(entries@);
                    assert(entries_view(out@) =~= entries_view(entries@));
                }
                Value::Obj(out)
            },
        }
    }
}

} // verus!
