//! Building blocks of the XML descriptors the project emits.
//!
//! The descriptor documents are assembled from small wrapper values; the
//! application layer turns them into markup.

use vstd::prelude::*;
use vstd::string::StringExecFns;

verus! {

/// A value serialized as an attribute of its element.
#[derive(Debug, PartialEq, Eq)]
pub struct Value<T> {
    pub value: T,
}

impl<T> Value<T> {
    pub fn new(val: T) -> (r: Self)
        ensures
            r.value == val,
    {
        Self { value: val }
    }
}

/// A string serialized as the text content of its element.
#[derive(Debug, PartialEq, Eq)]
pub struct InlineValue {
    pub value: String,
}

impl InlineValue {
    pub fn new(val: &str) -> (r: Self)
        ensures
            r.value@ == val@,
    {
        Self { value: String::from_str(val) }
    }
}

/// A value of unknown meaning, carried through as an attribute.
#[derive(Debug, PartialEq, Eq)]
pub struct Unk {
    pub unk: String,
}

impl Unk {
    pub fn new(val: &str) -> (r: Self)
        ensures
            r.unk@ == val@,
    {
        Self { unk: String::from_str(val) }
    }
}

/// A homogeneous list of child elements.
#[derive(Debug, PartialEq, Eq)]
pub struct ItemList<T> {
    pub item: Vec<T>,
}

} // verus!
