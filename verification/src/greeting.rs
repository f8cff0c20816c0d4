//! The greeting command.

use vstd::prelude::*;
use vstd::string::StringExecFns;

verus! {

/// The text of the greeting for `name`.
pub open spec fn greeting_text(name: Seq<char>) -> Seq<char> {
    "Hello, "@ + name + "! You've been greeted from Rust!"@
}

/// Greets `name`: the name stands unchanged between the two fixed parts.
pub fn greet(name: &str) -> (greeting: String)
    ensures
        greeting@ == greeting_text(name@),
{
    let mut greeting = String::from_str("Hello, ");
    greeting.append(name);
    greeting.append("! You've been greeted from Rust!");
    greeting
}

} // verus!
