//! Changing a text through an exclusive reference.
//!
//! To change a borrowed value the borrower needs an exclusive reference, and
//! while it lives no other reference to the value may exist. The change is
//! then the only thing that happened to the value.

use vstd::prelude::*;
use crate::console::{print_line, printed};
use crate::references::{byte_length, lemma_byte_length_ascii, lemma_byte_length_concat};
use crate::scopes::{preventative_scopes, preventative_scopes_output};

verus! {

/// What `mutable_reference` writes to the console, with all that follows.
pub open spec fn mutable_reference_output() -> Seq<char> {
    printed("Hello world again! but I'm changed!"@) + preventative_scopes_output()
}

/// `text` with the mark of a change behind it.
pub open spec fn changed(text: Seq<char>) -> Seq<char> {
    text + " but I'm changed!"@
}

/// A changed text starts with the text as it was, which can be cut off
/// again, and is 17 characters and 17 bytes longer.
pub proof fn lemma_changed(text: Seq<char>)
    ensures
        changed(text).len() == text.len() + 17,
        changed(text).take(text.len() as int) == text,
        changed(text).skip(text.len() as int) == " but I'm changed!"@,
        byte_length(changed(text)) == byte_length(text) + 17,
{
    let mark = " but I'm changed!"@;
    reveal_strlit(" but I'm changed!");
    lemma_byte_length_ascii(mark);
    lemma_byte_length_concat(text, mark);
}

/// Puts the mark of a change behind the text that `s` refers to.
pub fn change(s: &mut String)
    ensures
        final(s)@ == changed(old(s)@),
{
    s.append(" but I'm changed!");
}

/// Lends a text out exclusively to have it changed, and prints it when the
/// loan is over. Goes on with `preventative_scopes`.
pub fn mutable_reference(console: &mut String)
    ensures
        final(console)@ == old(console)@ + mutable_reference_output(),
{
    let mut s2 = String::from_str("Hello world again!");

    change(&mut s2);

    proof {
        reveal_strlit("Hello world again!");
        reveal_strlit(" but I'm changed!");
        reveal_strlit("Hello world again! but I'm changed!");
    }
    print_line(console, s2.as_str());

    preventative_scopes(console);
}

} // verus!
