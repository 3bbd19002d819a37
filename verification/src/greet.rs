//! The one invokable command of the shell: a pure greeting over text input.

use vstd::prelude::*;
use vstd::string::StringExecFns;

verus! {

/// Fixed text placed before the caller's name in the greeting.
pub open spec fn greet_prefix() -> Seq<char> {
    "Hello, "@
}

/// Fixed text placed after the caller's name in the greeting.
pub open spec fn greet_suffix() -> Seq<char> {
    "! You've been greeted from Rust!"@
}

/// The full greeting for a given name: prefix, the name verbatim, suffix.
pub open spec fn greet_message(name: Seq<char>) -> Seq<char> {
    greet_prefix() + name + greet_suffix()
}

/// Build the greeting for `name`. Pure: the result is a function of the
/// input alone, so identical inputs give identical outputs.
pub fn greet(name: &str) -> (r: String)
    ensures
        r@ == greet_message(name@),
{
    let mut r = String::from_str("Hello, ");
    r.append(name);
    r.append("! You've been greeted from Rust!");
    proof {
        assert(r@ =~= greet_message(name@));
    }
    r
}

/// The greeting always contains the input name as a contiguous substring,
/// starting right after the fixed prefix.
pub proof fn lemma_greet_contains_input(name: Seq<char>)
    ensures
        greet_message(name).len() == name.len() + greet_prefix().len() + greet_suffix().len(),
        greet_message(name).subrange(
            greet_prefix().len() as int,
            greet_prefix().len() + name.len() as int,
        ) =~= name,
{
}

} // verus!
