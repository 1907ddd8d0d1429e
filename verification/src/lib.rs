//! Partial-schema derivation and lenient decoding of self-describing value
//! trees.
//!
//! A structured data type (a record of named fields, or a sum type of tagged
//! single-payload variants) is turned into a "partial" schema that can
//! represent the same data with any subset of fields missing, together with a
//! decoder that builds a partial value from an untyped value tree while
//! tolerating missing or malformed fields.

use vstd::prelude::*;

pub mod attributes;
pub mod casing;
pub mod config;
pub mod convert;
pub mod decode;
pub mod errors;
pub mod laws;
pub mod partial_schema;
pub mod partial_value;
pub mod schema;
pub mod value;

use crate::partial_value::{spec_embed, PartialValue};
use crate::value::Value;

verus! {

/// A value that has a "partial" representation: one able to stand for the
/// same data with any subset of fields missing, as decoded from incomplete
/// input in a self-describing format.
pub trait AsPartial: Sized {
    type Partial;

    /// What `to_partial` may return for this value.
    spec fn is_partial_of(self, r: Self::Partial) -> bool;

    /// Converts this value into its partial representation.
    fn to_partial(self) -> (r: Self::Partial)
        ensures
            self.is_partial_of(r),
    ;
}

impl AsPartial for bool {
    type Partial = bool;

    open spec fn is_partial_of(self, r: bool) -> bool {
        r == self
    }

    /// A boolean's partial form is itself.
    fn to_partial(self) -> (r: bool) {
        self
    }
}

impl AsPartial for usize {
    type Partial = usize;

    open spec fn is_partial_of(self, r: usize) -> bool {
        r == self
    }

    /// An integer's partial form is itself.
    fn to_partial(self) -> (r: usize) {
        self
    }
}

impl AsPartial for u8 {
    type Partial = u8;

    open spec fn is_partial_of(self, r: u8) -> bool {
        r == self
    }

    /// An integer's partial form is itself.
    fn to_partial(self) -> (r: u8) {
        self
    }
}

impl AsPartial for i8 {
    type Partial = i8;

    open spec fn is_partial_of(self, r: i8) -> bool {
        r == self
    }

    /// An integer's partial form is itself.
    fn to_partial(self) -> (r: i8) {
        self
    }
}

impl AsPartial for u16 {
    type Partial = u16;

    open spec fn is_partial_of(self, r: u16) -> bool {
        r == self
    }

    /// An integer's partial form is itself.
    fn to_partial(self) -> (r: u16) {
        self
    }
}

impl AsPartial for i16 {
    type Partial = i16;

    open spec fn is_partial_of(self, r: i16) -> bool {
        r == self
    }

    /// An integer's partial form is itself.
    fn to_partial(self) -> (r: i16) {
        self
    }
}

impl AsPartial for u32 {
    type Partial = u32;

    open spec fn is_partial_of(self, r: u32) -> bool {
        r == self
    }

    /// An integer's partial form is itself.
    fn to_partial(self) -> (r: u32) {
        self
    }
}

impl AsPartial for i32 {
    type Partial = i32;

    open spec fn is_partial_of(self, r: i32) -> bool {
        r == self
    }

    /// An integer's partial form is itself.
    fn to_partial(self) -> (r: i32) {
        self
    }
}

impl AsPartial for u64 {
    type Partial = u64;

    open spec fn is_partial_of(self, r: u64) -> bool {
        r == self
    }

    /// An integer's partial form is itself.
    fn to_partial(self) -> (r: u64) {
        self
    }
}

impl AsPartial for i64 {
    type Partial = i64;

    open spec fn is_partial_of(self, r: i64) -> bool {
        r == self
    }

    /// An integer's partial form is itself.
    fn to_partial(self) -> (r: i64) {
        self
    }
}

impl AsPartial for u128 {
    type Partial = u128;

    open spec fn is_partial_of(self, r: u128) -> bool {
        r == self
    }

    /// An integer's partial form is itself.
    fn to_partial(self) -> (r: u128) {
        self
    }
}

impl AsPartial for i128 {
    type Partial = i128;

    open spec fn is_partial_of(self, r: i128) -> bool {
        r == self
    }

    /// An integer's partial form is itself.
    fn to_partial(self) -> (r: i128) {
        self
    }
}

impl AsPartial for String {
    type Partial = String;

    open spec fn is_partial_of(self, r: String) -> bool {
        r == self
    }

    /// A string's partial form is itself.
    fn to_partial(self) -> (r: String) {
        self
    }
}

impl<T: AsPartial> AsPartial for Option<T> {
    type Partial = Option<T::Partial>;

    open spec fn is_partial_of(self, r: Option<T::Partial>) -> bool {
        match self {
            Option::Some(v) => r matches Option::Some(p) && v.is_partial_of(p),
            Option::None => r is None,
        }
    }

    /// An optional value's partial form is the optional partial form of its
    /// element.
    fn to_partial(self) -> (r: Option<T::Partial>) {
        match self {
            Option::Some(v) => Option::Some(v.to_partial()),
            Option::None => Option::None,
        }
    }
}

impl<T: AsPartial> AsPartial for Vec<T> {
    type Partial = Vec<T::Partial>;

    open spec fn is_partial_of(self, r: Vec<T::Partial>) -> bool {
        r@.len() == self@.len() && forall|i: int|
            0 <= i < self@.len() ==> self@[i].is_partial_of(#[trigger] r@[i])
    }

    /// A list's partial form is the list of its elements' partial forms.
    fn to_partial(self) -> (r: Vec<T::Partial>) {
        let mut out: Vec<T::Partial> = Vec::new();
        let mut remaining = self;
        let ghost orig = remaining@;
        let total: usize = remaining.len();
        proof {
            assert(orig.len() == total);
        }
        let mut i: usize = 0;
        while remaining.len() > 0
            invariant
                out@.len() == i,
                orig.len() <= usize::MAX,
                i + remaining@.len() == orig.len(),
                forall|j: int| 0 <= j < remaining@.len() ==> remaining@[j] == orig[i + j],
                forall|j: int| 0 <= j < i ==> orig[j].is_partial_of(#[trigger] out@[j]),
            decreases remaining@.len(),
        {
            let head = remaining.remove(0);
            out.push(head.to_partial());
            i = i + 1;
        }
        out
    }
}

impl AsPartial for Value {
    type Partial = PartialValue;

    open spec fn is_partial_of(self, r: PartialValue) -> bool {
        r@ == spec_embed(self@)
    }

    /// An untyped value tree's partial form is its embedding: the same tree,
    /// with every object entry a present record slot.
    fn to_partial(self) -> (r: PartialValue) {
        crate::partial_value::embed(&self)
    }
}

impl AsPartial for PartialValue {
    type Partial = PartialValue;

    open spec fn is_partial_of(self, r: PartialValue) -> bool {
        r == self
    }

    /// Converting an already-partial value through the partial-conversion
    /// rule yields the same value, unchanged.
    fn to_partial(self) -> (r: PartialValue) {
        self
    }
}

} // verus!
