//! The console: a text that grows line by line.

use vstd::prelude::*;

verus! {

/// What one printed line adds to the console: the text and a line break.
pub open spec fn printed(text: Seq<char>) -> Seq<char> {
    text.push('\n')
}

/// Writes `text` and a line break at the end of `console`. What stood there
/// before stays in front, untouched.
pub fn print_line(console: &mut String, text: &str)
    ensures
        final(console)@ == old(console)@ + printed(text@),
{
    console.append(text);
    console.append("\n");
    proof {
        reveal_strlit("\n");
    }
}

} // verus!
