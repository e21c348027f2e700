//! The start-up choices, as the surrounding program hands them in after
//! parsing its argument list.

use vstd::prelude::*;

verus! {

/// A file to edit, if any, and the text to use as an interactive prompt.
#[derive(Debug)]
pub struct Cli {
    /// file
    pub path: Option<String>,
    /// use this text as an interactive prompt
    pub prompt: String,
}

} // verus!
