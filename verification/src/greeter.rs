//! The `greet` command: the one operation the shell exposes for invocation.

use vstd::prelude::*;

verus! {

/// The greeting derived from `name`: the fixed template text with `name`
/// spliced in between salutation and sign-off.
pub open spec fn spec_greeting(name: Seq<char>) -> Seq<char> {
    "Hello, "@ + name + "! You've been greeted from Rust!"@
}

/// Formats the greeting for `name`.
///
/// Total over all input strings: no length or charset constraint, no error
/// path, and no special case for the empty string. The result is determined
/// by `name` alone; the function reads and writes no other state.
pub fn greet(name: &str) -> (greeting: String)
    ensures
        greeting@ == spec_greeting(name@),
{
    let mut greeting = String::from_str("Hello, ");
    greeting.append(name);
    greeting.append("! You've been greeted from Rust!");
    greeting
}

/// Repeated invocation is unobservable: the greeting is a function of the
/// name alone, so two calls of `greet` on equal names return equal
/// greetings, whatever other calls happen in between.
pub proof fn lemma_greeting_deterministic(first: Seq<char>, second: Seq<char>)
    requires
        first == second,
    ensures
        spec_greeting(first) == spec_greeting(second),
{
}

} // verus!
