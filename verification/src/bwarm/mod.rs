//! BWARM TSV records: how a row of each dump file is read into a record.
//! A row is handed over as its fields, in file order.
use vstd::prelude::*;

pub mod party;
pub mod release;
pub mod resource;
pub mod share;
pub mod types;
pub mod work_resource;
pub mod works;

verus! {

/// Why a row could not be read.
#[derive(Debug, Clone, Copy, PartialEq, Eq, Structural)]
pub enum RecordError {
    /// The row has no field at this position.
    MissingField(usize),
    /// The field at this position is not a valid integer.
    InvalidNumber(usize),
}

/// The text of an optional string.
pub open spec fn opt_text(o: Option<String>) -> Option<Seq<char>> {
    match o {
        Some(s) => Some(s@),
        None => None,
    }
}

/// The text of field `i` of a row, when the row has one.
pub open spec fn field_text(fields: Seq<String>, i: int) -> Option<Seq<char>> {
    if 0 <= i < fields.len() {
        Some(fields[i]@)
    } else {
        None
    }
}

/// Field `i` of a row, when the row has one (`StringRecord::get`).
pub fn field(fields: &[String], i: usize) -> (r: Option<String>)
    ensures
        opt_text(r) == field_text(fields@, i as int),
{
    if i < fields.len() {
        Some(fields[i].clone())
    } else {
        None
    }
}

/// Field `i` of a row, which the row must have (`StringRecord` indexing).
pub fn field_at(fields: &[String], i: usize) -> (r: String)
    requires
        i < fields@.len(),
    ensures
        r@ == fields@[i as int]@,
{
    fields[i].clone()
}

/// Pads a row with empty fields up to `n` fields, so that a short row reads
/// like a full one (a row already that long is left as it is).
pub fn pad_fields(fields: &mut Vec<String>, n: usize)
    ensures
        final(fields)@.len() == if old(fields)@.len() < n {
            n as nat
        } else {
            old(fields)@.len()
        },
        forall|i: int| 0 <= i < old(fields)@.len() ==> #[trigger] final(fields)@[i] == old(fields)@[i],
        forall|i: int|
            old(fields)@.len() <= i < final(fields)@.len() ==> (#[trigger] final(fields)@[i])@.len()
                == 0,
{
    let ghost start = fields@;
    while fields.len() < n
        invariant
            start.len() <= fields@.len(),
            start.len() < n ==> fields@.len() <= n,
            start.len() >= n ==> fields@ == start,
            forall|i: int| 0 <= i < start.len() ==> #[trigger] fields@[i] == start[i],
            forall|i: int| start.len() <= i < fields@.len() ==> (#[trigger] fields@[i])@.len() == 0,
        decreases n - fields@.len(),
    {
        fields.push(String::new());
    }
}

} // verus!
