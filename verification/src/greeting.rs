//! The greeting command: format a fixed message around a caller-supplied name.

use vstd::prelude::*;

verus! {

/// The full greeting for a given name: a fixed prefix, the name, a fixed suffix.
pub open spec fn greet_message(name: Seq<char>) -> Seq<char> {
    "Hello, "@ + name + "! You've been greeted from Rust!"@
}

/// `pattern` occurs contiguously somewhere inside `text`.
pub open spec fn contains_substring(text: Seq<char>, pattern: Seq<char>) -> bool {
    exists|i: int|
        0 <= i && i + pattern.len() <= text.len() && #[trigger] text.subrange(
            i,
            i + pattern.len() as int,
        ) == pattern
}

/// Build the greeting for `name`. Never fails.
pub fn greet(name: &str) -> (r: String)
    ensures
        r@ == greet_message(name@),
{
    let mut r = String::from_str("Hello, ");
    r.append(name);
    r.append("! You've been greeted from Rust!");
    r
}

/// Law: the greeting built for a name always contains that name.
pub proof fn lemma_greet_contains_name(name: Seq<char>)
    ensures
        contains_substring(greet_message(name), name),
{
    let prefix = "Hello, "@;
    let text = greet_message(name);
    let i = prefix.len() as int;
    assert(text.subrange(i, i + name.len() as int) =~= name);
}

} // verus!
