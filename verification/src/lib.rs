//! Borrowing, step by step.
//!
//! Four short walks show what a reference may do: read a text that someone
//! else owns, change it while nobody else looks, follow one exclusive
//! reference with another once the first is out of scope, and hand a value
//! out by ownership where a reference would outlive it. Each walk writes what
//! it finds to a console, a growing text that the caller lends it, and every
//! contract says exactly which characters arrive there.

pub mod console;
pub mod dangling;
pub mod decimal;
pub mod mutable;
pub mod references;
pub mod scopes;
