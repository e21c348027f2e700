//! Terminal output, behind trusted wrappers. Printing is the one effect of
//! the executor that is not modelled: no contract speaks of it.

use std::io::Write;

use vstd::prelude::*;

verus! {

/// Relies on std::io::Stdout::write_fmt: prints one buffer line to standard
/// output, newline-terminated.
#[verifier::external_body]
pub(crate) fn print_line(s: &str) {
    let _ = writeln!(std::io::stdout(), "{}", s);
}

/// Relies on std::io::Stdout::write_fmt: prints one buffer line to standard
/// output, prefixed by its 1-based line number and a tab.
#[verifier::external_body]
pub(crate) fn print_numbered_line(n: usize, s: &str) {
    let _ = writeln!(std::io::stdout(), "{}\t{}", n, s);
}

} // verus!
