//! The commands that the shell offers to its user interface.

use vstd::prelude::*;
use vstd::string::StringExecFns;

verus! {

/// What the greeting command answers: the greeting itself, and the name it
/// was asked to greet.
#[derive(Debug, Clone, PartialEq, Eq)]
pub struct GreetResponse {
    pub greeting: String,
    pub name: String,
}

/// The text of the greeting for `name`.
pub open spec fn greeting_for(name: Seq<char>) -> Seq<char> {
    "Hello, "@ + name + "! You've been greeted from Rust!"@
}

/// Greets `name`: the reply echoes the name and carries the greeting text
/// built around it.
pub fn ping(name: String) -> (reply: GreetResponse)
    ensures
        reply.name@ == name@,
        reply.greeting@ == greeting_for(name@),
{
    let greeting = String::from_str("Hello, ").concat(name.as_str()).concat(
        "! You've been greeted from Rust!",
    );
    GreetResponse { greeting, name }
}

} // verus!
