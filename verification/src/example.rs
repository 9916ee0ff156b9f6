//! A small document type to hold in a container.

use vstd::prelude::*;

verus! {

/// A document of two fields: a text and a number.
#[derive(Clone, Debug, PartialEq, Eq)]
pub struct ExampleStruct {
    pub field1: String,
    pub field2: u32,
}

} // verus!
