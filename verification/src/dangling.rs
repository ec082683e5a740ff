//! A value made inside a function leaves it by ownership.
//!
//! A reference to such a value would point at storage that is given back when
//! the function ends. The value itself can be moved out: the caller becomes
//! its owner and nothing is left behind to dangle.

use vstd::prelude::*;
use crate::console::{print_line, printed};

verus! {

/// What `dangling_references` writes to the console.
pub open spec fn dangling_references_output() -> Seq<char> {
    printed("Dangler!"@)
}

/// Makes a text and moves it out to the caller.
pub fn dangler() -> (dangle: String)
    ensures
        dangle@ == "Dangler!"@,
{
    let dangle = String::from_str("Dangler!");
    dangle
}

/// Takes over the text that `dangler` made and prints it.
pub fn dangling_references(console: &mut String)
    ensures
        final(console)@ == old(console)@ + dangling_references_output(),
{
    let no_content = dangler();
    print_line(console, no_content.as_str());
}

} // verus!
