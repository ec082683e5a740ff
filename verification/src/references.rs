//! Reading a text through a shared reference.
//!
//! A function that only needs to look at a value borrows it. The owner keeps
//! the value and can go on using it after the call.

use vstd::prelude::*;
use vstd::utf8::{encode_utf8, is_ascii_chars, is_ascii_chars_encode_utf8};
use crate::console::{print_line, printed};
use crate::decimal::{decimal, decimal_text};
use crate::mutable::{mutable_reference, mutable_reference_output};

verus! {

/// What `immutable_reference` writes to the console, with all that follows.
pub open spec fn immutable_reference_output() -> Seq<char> {
    printed("The length of 'Hello world!' is 12."@) + mutable_reference_output()
}

/// From the first walk to the last, six lines reach the console, in this
/// order.
pub proof fn lemma_immutable_reference_output()
    ensures
        immutable_reference_output()
            == "The length of 'Hello world!' is 12.\n\
Hello world again! but I'm changed!\n \
We used two mutable references r1 and r2. r2 works: Hello world again again!\n\
Hello world again again again! and Hello world again again again! will never be used again!\n\
Hello world again again again! but I'm changed! and that's fine!\n\
Dangler!\n"@,
{
    reveal_strlit("The length of 'Hello world!' is 12.");
    reveal_strlit("Hello world again! but I'm changed!");
    reveal_strlit(" We used two mutable references r1 and r2. r2 works: Hello world again again!");
    reveal_strlit(
        "Hello world again again again! and Hello world again again again! will never be used again!",
    );
    reveal_strlit("Hello world again again again! but I'm changed! and that's fine!");
    reveal_strlit("Dangler!");
    reveal_strlit(
        "The length of 'Hello world!' is 12.\n\
Hello world again! but I'm changed!\n \
We used two mutable references r1 and r2. r2 works: Hello world again again!\n\
Hello world again again again! and Hello world again again again! will never be used again!\n\
Hello world again again again! but I'm changed! and that's fine!\n\
Dangler!\n",
    );
}

/// The number of bytes that `text` takes up in UTF-8.
pub open spec fn byte_length(text: Seq<char>) -> nat {
    encode_utf8(text).len()
}

/// A text of ASCII characters takes one byte for each character.
pub proof fn lemma_byte_length_ascii(text: Seq<char>)
    requires
        is_ascii_chars(text),
    ensures
        byte_length(text) == text.len(),
{
    is_ascii_chars_encode_utf8(text);
}

/// The bytes of two texts put together are the bytes of the first followed
/// by the bytes of the second.
pub proof fn lemma_encode_concat(front: Seq<char>, back: Seq<char>)
    ensures
        encode_utf8(front + back) == encode_utf8(front) + encode_utf8(back),
    decreases front.len(),
{
    if front.len() == 0 {
    } else {
        lemma_encode_concat(front.drop_first(), back);
        assert((front + back).drop_first() =~= front.drop_first() + back);
    }
}

/// Two texts put together are as long as both of them.
pub proof fn lemma_byte_length_concat(front: Seq<char>, back: Seq<char>)
    ensures
        byte_length(front + back) == byte_length(front) + byte_length(back),
{
    lemma_encode_concat(front, back);
}

/// The length of `s` in bytes. The text is only borrowed: the caller still
/// owns it when the call is over.
pub fn calculate_length(s: &String) -> (len: usize)
    ensures
        len == byte_length(s@),
{
    s.as_str().as_bytes().len()
}

/// Has the length of a text measured through a shared reference, and prints
/// the text, which it still owns, with its length. Goes on with
/// `mutable_reference`.
pub fn immutable_reference(console: &mut String)
    ensures
        final(console)@ == old(console)@ + immutable_reference_output(),
{
    let s1 = String::from_str("Hello world!");

    let len = calculate_length(&s1);

    let mut message = String::from_str("The length of '");
    message.append(s1.as_str());
    message.append("' is ");
    message.append(decimal(len).as_str());
    message.append(".");
    proof {
        reveal_strlit("Hello world!");
        reveal_strlit("The length of '");
        reveal_strlit("' is ");
        reveal_strlit(".");
        reveal_strlit("0123456789");
        reveal_strlit("The length of 'Hello world!' is 12.");
        lemma_byte_length_ascii("Hello world!"@);
        assert(decimal_text(12) =~= seq!['1', '2']) by {
            reveal_with_fuel(decimal_text, 2);
        }
    }
    print_line(console, message.as_str());

    mutable_reference(console);
}

} // verus!
