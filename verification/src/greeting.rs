//! The greeting command.

use vstd::prelude::*;
use vstd::string::*;

verus! {

/// The greeting for `name`: the fixed wording with `name` in its one gap.
pub open spec fn greeting_for(name: Seq<char>) -> Seq<char> {
    "Hello, "@ + name + "! You've been greeted from Rust!"@
}

/// Greets `name`. Every text is accepted and none is altered.
pub fn greet(name: &str) -> (greeting: String)
    ensures
        greeting@ == greeting_for(name@),
{
    let mut greeting = String::from_str("Hello, ");
    greeting.append(name);
    greeting.append("! You've been greeted from Rust!");
    greeting
}

} // verus!
