//! The fixed lines of text that a console front end writes.

use vstd::prelude::*;

verus! {

/// The text that the front end writes when its public entry point is called.
pub fn public_text() -> (text: &'static str)
    ensures
        text@ == "public"@,
{
    "public"
}

/// The text that the front end writes from its internal routine.
pub fn top_level_text() -> (text: &'static str)
    ensures
        text@ == "top level"@,
{
    "top level"
}

} // verus!
