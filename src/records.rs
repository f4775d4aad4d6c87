use vstd::prelude::*;

verus! {

/// A person, by name and age.
#[derive(Debug)]
pub struct Person {
    pub name: String,
    pub age: u8,
}

/// A type with a single value and no fields.
#[derive(Clone, Copy, Debug, PartialEq, Eq, Structural)]
pub struct Unit;

} // verus!
