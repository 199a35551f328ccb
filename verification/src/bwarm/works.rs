//! Rows of `musicalworks.tsv`.
use vstd::prelude::*;

use super::{field, field_at, field_text, opt_text};
use crate::text::{parse_i64, spec_parse_i64, text_eq};

verus! {

/// A musical work as the dump lists it. The nominal duration is kept as the
/// text of its field; it is read as a number where it is stored.
#[derive(Debug)]
pub struct Work {
    pub id: String,
    pub title: String,
    pub duration_text: String,
    pub iswc: Option<String>,
    pub in_dispute: bool,
    pub alt_id: Option<i64>,
    pub is_arrangement: bool,
    pub territory: Option<String>,
}

impl Work {
    /// The dump file that holds musical works.
    pub fn filename() -> (r: String)
        ensures
            r@ == "musicalworks.tsv"@,
    {
        String::from_str("musicalworks.tsv")
    }

    /// Reads a work row: id (0), ISWC (1), title (2), nominal duration (6),
    /// right share in dispute (7, `TRUE` for yes), territory of public
    /// domain (8), arrangement of a traditional work (9, `TRUE` for yes),
    /// alternative work id (10, kept when an integer). The row must have
    /// eleven fields.
    pub fn from_csv(fields: &[String]) -> (r: Work)
        requires
            fields@.len() > 10,
        ensures
            r.id@ == fields@[0]@,
            opt_text(r.iswc) == field_text(fields@, 1),
            r.title@ == fields@[2]@,
            r.duration_text@ == fields@[6]@,
            r.in_dispute == (fields@[7]@ == "TRUE"@),
            opt_text(r.territory) == field_text(fields@, 8),
            r.is_arrangement == (fields@[9]@ == "TRUE"@),
            r.alt_id == spec_parse_i64(fields@[10]@),
    {
        Work {
            id: field_at(fields, 0),
            title: field_at(fields, 2),
            duration_text: field_at(fields, 6),
            iswc: field(fields, 1),
            in_dispute: text_eq(fields[7].as_str(), "TRUE"),
            alt_id: parse_i64(fields[10].as_str()),
            is_arrangement: text_eq(fields[9].as_str(), "TRUE"),
            territory: field(fields, 8),
        }
    }
}

} // verus!
