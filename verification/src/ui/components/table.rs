//! A table with column headers and a highlighted row.
use vstd::prelude::*;

verus! {

/// A table widget.
pub struct Table {
    /// Column headers.
    pub headers: Vec<String>,
    /// Index of the highlighted row.
    pub selected: usize,
}

impl Table {
    /// A table with the given headers, the first row highlighted.
    pub fn new(headers: Vec<String>) -> (t: Table)
        ensures
            t.headers == headers,
            t.selected == 0,
    {
        Table { headers, selected: 0 }
    }
}

} // verus!
