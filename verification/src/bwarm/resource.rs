//! Rows of `resources.tsv`.
use vstd::prelude::*;

use super::{RecordError, field, field_at, field_text, opt_text};
use crate::text::{parse_u64, spec_parse_u64};

verus! {

/// A resource (a recording on a release) as the dump lists it.
#[derive(Debug)]
pub struct Resource {
    pub id: String,
    pub data_provider: String,
    pub release_id: u64,
    pub resource_type: String,
    pub isrc: Option<String>,
    pub title: String,
}

impl Resource {
    /// The dump file that holds resources.
    pub fn filename() -> (r: String)
        ensures
            r@ == "resources.tsv"@,
    {
        String::from_str("resources.tsv")
    }

    /// Reads a resource row: id (0), type (1), ISRC (2), title (3), release
    /// id (11, an unsigned integer), data provider (14). The row must have
    /// fifteen fields.
    pub fn from_csv(fields: &[String]) -> (r: Result<Resource, RecordError>)
        requires
            fields@.len() > 14,
        ensures
            spec_parse_u64(fields@[11]@) is None ==> r == Err::<Resource, RecordError>(
                RecordError::InvalidNumber(11),
            ),
            spec_parse_u64(fields@[11]@) is Some ==> (r matches Ok(x) && {
                &&& x.id@ == fields@[0]@
                &&& x.resource_type@ == fields@[1]@
                &&& opt_text(x.isrc) == field_text(fields@, 2)
                &&& x.title@ == fields@[3]@
                &&& Some(x.release_id) == spec_parse_u64(fields@[11]@)
                &&& x.data_provider@ == fields@[14]@
            }),
    {
        let id = field_at(fields, 0);
        let data_provider = field_at(fields, 14);
        let release_id = match parse_u64(fields[11].as_str()) {
            None => {
                return Err(RecordError::InvalidNumber(11));
            },
            Some(v) => v,
        };
        Ok(
            Resource {
                id,
                data_provider,
                release_id,
                resource_type: field_at(fields, 1),
                isrc: field(fields, 2),
                title: field_at(fields, 3),
            },
        )
    }
}

} // verus!
