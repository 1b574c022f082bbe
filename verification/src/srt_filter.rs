//! SRT packet filters.

use vstd::prelude::*;

verus! {

/// The matrix of an SRT forward-error-correction filter.
#[derive(Debug, Clone, Copy, PartialEq, Eq)]
pub struct FilterMatrix {
    pub cols: usize,
    pub rows: usize,
}

/// What the SRT protocol library makes of a filter specification.
#[derive(Debug, Clone, PartialEq)]
pub enum FilterParse {
    Matrix(FilterMatrix),
    /// The text of the library's complaint.
    Invalid(String),
}

/// A packet filter: its specification, e.g. `fec,cols:10,rows:5`, with the
/// protocol library's reading of it.
#[derive(Debug, Clone, PartialEq)]
pub struct PacketFilter {
    pub spec_text: String,
    pub parsed: FilterParse,
}

} // verus!
