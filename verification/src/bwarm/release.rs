//! Rows of `releases.tsv`.
use vstd::prelude::*;

use super::{RecordError, field, field_at, field_text, opt_text};
use crate::text::{parse_i64, spec_parse_i64};

verus! {

/// A release as the dump lists it.
#[derive(Debug)]
pub struct Release {
    pub id: i64,
    pub title: String,
    pub artist_name: String,
    pub label_name: String,
    pub release_date: Option<String>,
    pub distro_name: String,
}

impl Release {
    /// The dump file that holds releases.
    pub fn filename() -> (r: String)
        ensures
            r@ == "releases.tsv"@,
    {
        String::from_str("releases.tsv")
    }

    /// Reads a release row: id (0, an integer), title (2), artist (5),
    /// label (7), distributor (8), release date (9). The row must have its
    /// first field, and the fields up to the distributor once the id is read.
    pub fn from_csv(fields: &[String]) -> (r: Result<Release, RecordError>)
        requires
            fields@.len() > 0,
            spec_parse_i64(fields@[0]@) is Some ==> fields@.len() > 8,
        ensures
            spec_parse_i64(fields@[0]@) is None ==> r == Err::<Release, RecordError>(
                RecordError::InvalidNumber(0),
            ),
            spec_parse_i64(fields@[0]@) is Some ==> (r matches Ok(x) && {
                &&& Some(x.id) == spec_parse_i64(fields@[0]@)
                &&& x.title@ == fields@[2]@
                &&& x.artist_name@ == fields@[5]@
                &&& x.label_name@ == fields@[7]@
                &&& x.distro_name@ == fields@[8]@
                &&& opt_text(x.release_date) == field_text(fields@, 9)
            }),
    {
        let id = match parse_i64(fields[0].as_str()) {
            None => {
                return Err(RecordError::InvalidNumber(0));
            },
            Some(v) => v,
        };
        Ok(
            Release {
                id,
                title: field_at(fields, 2),
                artist_name: field_at(fields, 5),
                label_name: field_at(fields, 7),
                release_date: field(fields, 9),
                distro_name: field_at(fields, 8),
            },
        )
    }
}

} // verus!
