//! Rows of the writer listing.
use vstd::prelude::*;

verus! {

/// A writer as the listing returns it.
#[derive(Debug)]
pub struct Writer {
    pub name: String,
    pub ipi: i64,
    pub pro: String,
}

} // verus!
