//! One exclusive reference after another.
//!
//! Two exclusive references to one value may not live at the same time, but
//! they may follow each other. A reference lives from where it is made to
//! where it is used last, so a scope of its own, or simply no later use, ends
//! it early enough for the next one.

use vstd::prelude::*;
use crate::console::{print_line, printed};
use crate::dangling::{dangling_references, dangling_references_output};
use crate::mutable::change;

verus! {

/// What `preventative_scopes` writes to the console, with all that follows.
pub open spec fn preventative_scopes_output() -> Seq<char> {
    printed(" We used two mutable references r1 and r2. r2 works: Hello world again again!"@)
        + preventative_scopes_2_output()
}

/// What `preventative_scopes_2` writes to the console, with all that follows.
pub open spec fn preventative_scopes_2_output() -> Seq<char> {
    printed(
        "Hello world again again again! and Hello world again again again! will never be used again!"@,
    ) + printed("Hello world again again again! but I'm changed! and that's fine!"@)
        + dangling_references_output()
}

/// Borrows a text exclusively inside a scope of its own, then once more when
/// that scope has ended, and prints the text as the second reference sees
/// it. Goes on with `preventative_scopes_2`.
pub fn preventative_scopes(console: &mut String)
    ensures
        final(console)@ == old(console)@ + preventative_scopes_output(),
{
    let mut s3 = String::from_str("Hello world again again!");
    {
        let _r1 = &mut s3;
    }
    let r2 = &mut s3;

    let mut message = String::from_str(" We used two mutable references r1 and r2. r2 works: ");
    message.append(r2.as_str());
    proof {
        reveal_strlit("Hello world again again!");
        reveal_strlit(" We used two mutable references r1 and r2. r2 works: ");
        reveal_strlit(
            " We used two mutable references r1 and r2. r2 works: Hello world again again!",
        );
    }
    print_line(console, message.as_str());

    preventative_scopes_2(console);
}

/// Reads a text through two shared references, prints what they see, and
/// only after their last use borrows the text exclusively to change it.
/// Prints the changed text and goes on with `dangling_references`.
pub fn preventative_scopes_2(console: &mut String)
    ensures
        final(console)@ == old(console)@ + preventative_scopes_2_output(),
{
    let mut s4 = String::from_str("Hello world again again again!");

    let r4 = &s4;
    let r5 = &s4;
    let mut unused = String::from_str(r4.as_str());
    unused.append(" and ");
    unused.append(r5.as_str());
    unused.append(" will never be used again!");
    proof {
        reveal_strlit("Hello world again again again!");
        reveal_strlit(" and ");
        reveal_strlit(" will never be used again!");
        reveal_strlit(
            "Hello world again again again! and Hello world again again again! will never be used again!",
        );
    }
    print_line(console, unused.as_str());

    let r6 = &mut s4;
    change(r6);
    let mut fine = String::from_str(r6.as_str());
    fine.append(" and that's fine!");
    proof {
        reveal_strlit(" but I'm changed!");
        reveal_strlit(" and that's fine!");
        reveal_strlit("Hello world again again again! but I'm changed! and that's fine!");
    }
    print_line(console, fine.as_str());

    dangling_references(console);
}

} // verus!
