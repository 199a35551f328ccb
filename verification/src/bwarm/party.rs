//! Rows of `parties.tsv`.
use vstd::prelude::*;

use super::{RecordError, field, field_text, opt_text};
use crate::text::{parse_i64, spec_parse_i64};

verus! {

/// A party as the dump lists it.
#[derive(Debug)]
pub struct Party {
    pub id: i64,
    pub email: Option<String>,
    pub isni: Option<String>,
    pub cisac_id: Option<String>,
    pub dpid: Option<String>,
    pub ipi: Option<i64>,
    pub contact_name: Option<String>,
    pub full_name: String,
    pub last_name: Option<String>,
    pub first_name: Option<String>,
}

/// An optional integer field: `None` when the field is absent or not an integer.
pub open spec fn spec_opt_i64(t: Option<Seq<char>>) -> Option<i64> {
    match t {
        Some(s) => spec_parse_i64(s),
        None => None,
    }
}

impl Party {
    /// The dump file that holds parties.
    pub fn filename() -> (r: String)
        ensures
            r@ == "parties.tsv"@,
    {
        String::from_str("parties.tsv")
    }

    /// Reads a party row: id (0, a required integer), ISNI (1), IPI (2, kept
    /// when an integer), CISAC id (3), DPID (4), full name (5, required),
    /// first name (6), last name (7), contact name (9), email (10).
    pub fn from_csv(fields: &[String]) -> (r: Result<Party, RecordError>)
        ensures
            fields@.len() == 0 ==> r == Err::<Party, RecordError>(RecordError::MissingField(0)),
            fields@.len() > 0 && spec_parse_i64(fields@[0]@) is None ==> r == Err::<
                Party,
                RecordError,
            >(RecordError::InvalidNumber(0)),
            fields@.len() > 0 && spec_parse_i64(fields@[0]@) is Some && fields@.len() <= 5 ==> r
                == Err::<Party, RecordError>(RecordError::MissingField(5)),
            fields@.len() > 5 && spec_parse_i64(fields@[0]@) is Some ==> (r matches Ok(p) && {
                &&& Some(p.id) == spec_parse_i64(fields@[0]@)
                &&& opt_text(p.isni) == field_text(fields@, 1)
                &&& p.ipi == spec_opt_i64(field_text(fields@, 2))
                &&& opt_text(p.cisac_id) == field_text(fields@, 3)
                &&& opt_text(p.dpid) == field_text(fields@, 4)
                &&& p.full_name@ == fields@[5]@
                &&& opt_text(p.first_name) == field_text(fields@, 6)
                &&& opt_text(p.last_name) == field_text(fields@, 7)
                &&& opt_text(p.contact_name) == field_text(fields@, 9)
                &&& opt_text(p.email) == field_text(fields@, 10)
            }),
    {
        let id = match field(fields, 0) {
            None => {
                return Err(RecordError::MissingField(0));
            },
            Some(s) => match parse_i64(s.as_str()) {
                None => {
                    return Err(RecordError::InvalidNumber(0));
                },
                Some(v) => v,
            },
        };
        let isni = field(fields, 1);
        let ipi = match field(fields, 2) {
            Some(s) => parse_i64(s.as_str()),
            None => None,
        };
        let email = field(fields, 10);
        let cisac_id = field(fields, 3);
        let dpid = field(fields, 4);
        let contact_name = field(fields, 9);
        let full_name = match field(fields, 5) {
            None => {
                return Err(RecordError::MissingField(5));
            },
            Some(s) => s,
        };
        let last_name = field(fields, 7);
        let first_name = field(fields, 6);
        Ok(
            Party {
                id,
                email,
                isni,
                cisac_id,
                dpid,
                ipi,
                contact_name,
                full_name,
                last_name,
                first_name,
            },
        )
    }
}

} // verus!
