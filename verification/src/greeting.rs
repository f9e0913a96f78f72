//! The greeting command.

use vstd::prelude::*;
use vstd::string::*;

verus! {

/// The greeting for `name`.
pub open spec fn spec_greet(name: Seq<char>) -> Seq<char> {
    "Hello, "@ + name + "! You've been greeted from Rust!"@
}

/// Greets `name`.
pub fn greet(name: &str) -> (text: String)
    ensures
        text@ == spec_greet(name@),
{
    let mut text = String::from_str("Hello, ");
    text.append(name);
    text.append("! You've been greeted from Rust!");
    text
}

} // verus!
