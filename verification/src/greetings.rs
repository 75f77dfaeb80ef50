//! Greetings.

use vstd::prelude::*;

verus! {

/// The default greeting, "Hi!".
pub fn default_greeting() -> (message: String)
    ensures
        message@ == "Hi!"@,
{
    let message = String::from_str("Hi!");
    message
}

} // verus!
