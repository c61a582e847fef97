//! The command-line options of the picker, as plain values.
use vstd::prelude::*;

verus! {

/// The options the picker is started with.
pub struct Args {
    /// Character used to separate fields in the value
    pub delim: String,
    /// Default position of the cursor (one-based)
    pub index: usize,
    /// Maximum number of list lines to display
    pub lines: u32,
    /// Comment shown above the list
    pub comment: Option<String>,
    /// Search query to start with
    pub search_default: Option<String>,
    /// Turns the search bar off
    pub no_search: bool,
}

} // verus!
