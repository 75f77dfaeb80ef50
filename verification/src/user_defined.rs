//! Plain user-defined data types.

use vstd::prelude::*;

verus! {

/// Comparison operators.
pub enum Comp {
    LessThan,
    GreaterThan,
    Equal,
}

/// Gender of a person.
pub enum Gender {
    Male,
    Female,
}

/// A person with a name and an age.
#[allow(dead_code)]
#[derive(Debug)]
struct Person {
    name: String,
    age: u8,
}

/// Another person with a name and an age.
#[allow(dead_code)]
struct Person2 {
    name: String,
    age: u8,
}

/// A unit struct with no fields.
#[allow(dead_code)]
struct Unit;

} // verus!
