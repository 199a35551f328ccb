//! Dump rows read by their column headers.
use vstd::prelude::*;

use crate::text::text_eq;

verus! {

/// A party row, read by its column headers.
#[derive(Debug)]
pub struct Party {
    pub id: i64,
    pub email: Option<String>,
    pub isni: Option<String>,
    pub cisac_id: Option<String>,
    pub dpid: Option<String>,
    pub ipi: Option<i64>,
    pub contact_name: Option<String>,
    pub full_name: String,
    pub last_name: Option<String>,
    pub first_name: Option<String>,
}

/// A release row, read by its column headers.
#[derive(Debug)]
pub struct Release {
    pub id: i64,
    pub title: String,
    pub artist_name: String,
    pub label_name: String,
    pub distro_name: String,
}

/// The flag that a dump boolean spells: `TRUE` or `FALSE`, nothing else.
pub open spec fn spec_named_bool(s: Seq<char>) -> Result<bool, ()> {
    if s == "TRUE"@ {
        Ok(true)
    } else if s == "FALSE"@ {
        Ok(false)
    } else {
        Err(())
    }
}

/// Reads a dump boolean; any text but `TRUE` or `FALSE` is refused
/// ("invalid bool").
pub fn named_bool(s: &str) -> (r: Result<bool, ()>)
    ensures
        r == spec_named_bool(s@),
{
    if text_eq(s, "TRUE") {
        Ok(true)
    } else if text_eq(s, "FALSE") {
        Ok(false)
    } else {
        Err(())
    }
}

} // verus!
