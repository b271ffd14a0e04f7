//! The greeting request handler: a pure formatter from a name to the
//! greeting shown to the user.

use vstd::prelude::*;
use vstd::string::StringExecFns;

verus! {

/// The text placed before the name.
pub open spec fn greeting_prefix() -> Seq<char> {
    "Hello, "@
}

/// The text placed after the name.
pub open spec fn greeting_suffix() -> Seq<char> {
    "! You've been greeted from Rust!"@
}

/// The full greeting for `name`: the prefix, the name unchanged, the suffix.
pub open spec fn spec_greet(name: Seq<char>) -> Seq<char> {
    greeting_prefix() + name + greeting_suffix()
}

/// Formats the greeting for `name`. Always succeeds, and the result is
/// never empty: it holds the name between a fixed prefix and suffix.
pub fn greet(name: String) -> (r: String)
    ensures
        r@ == spec_greet(name@),
        r@.len() == name@.len() + 39,
{
    let mut r = String::new();
    r.append("Hello, ");
    r.append(name.as_str());
    r.append("! You've been greeted from Rust!");
    proof {
        reveal_strlit("Hello, ");
        reveal_strlit("! You've been greeted from Rust!");
        assert(r@ =~= spec_greet(name@));
    }
    r
}

} // verus!
