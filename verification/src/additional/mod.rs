//! Derived relation tables.
use vstd::prelude::*;

pub mod search;

verus! {

/// The `publisher_relations` table: how often a party's share precedes
/// another party's share (publisher over writer, or over sub-publisher).
#[derive(Debug)]
pub struct PublisherRelations {}

/// The `writer_relations` table: how often two writers hold root shares of
/// the same work.
#[derive(Debug)]
pub struct WriterRelations {}

} // verus!
