//! The command-line arguments as plain data. Parsing the real command
//! line is I/O and lives with the surrounding application.
use vstd::prelude::*;

verus! {

/// The one argument the tool takes: a track / album / playlist /
/// artist reference, URL, id or search term.
#[derive(Clone, Debug, PartialEq, Eq)]
pub struct Args {
    pub input: String,
}

} // verus!
