//! The choices that the command line offers.
use vstd::prelude::*;

verus! {

/// Which derived data `enrich` computes.
#[derive(Debug, Clone, Copy, PartialEq, Eq, Structural)]
pub enum EnrichMode {
    Writer,
    Publisher,
    Role,
    Share,
}

/// Which discovery `discover` runs.
#[derive(Debug, Clone, Copy, PartialEq, Eq, Structural)]
pub enum DiscoverMode {
    Writer,
}

} // verus!
