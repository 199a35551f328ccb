//! MLC BWARM catalogue: reading the dump files, planning and decoding the
//! catalogue queries, and the TIS code tables they use.
use vstd::prelude::*;

pub mod additional;
pub mod bwarm;
pub mod cli;
pub mod config;
pub mod migration;
pub mod mutations;
pub mod ops;
pub mod server;
pub mod text;
pub mod tis;
pub mod types;

use crate::tis::SocietyCode;

verus! {

/// One line of a society update file: the party id and its society.
#[derive(Debug)]
pub struct Update {
    pub id: i64,
    pub pro: SocietyCode,
}

} // verus!
