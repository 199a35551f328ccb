//! A short form of a party.
use vstd::prelude::*;

pub use crate::types::WriterSearch;
use crate::tis::SocietyCode;
use crate::types::IpiNameNum;

verus! {

/// A party by its full name, IPI name number and society.
#[derive(Debug)]
pub struct Party {
    pub full_name: String,
    pub ipi_name_num: Option<IpiNameNum>,
    pub pro: Option<SocietyCode>,
}

} // verus!
