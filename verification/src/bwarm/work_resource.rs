//! Rows of `workresourcelinks.tsv`.
use vstd::prelude::*;

use super::{RecordError, field};
use crate::text::{parse_u64, spec_parse_u64};

verus! {

/// A link between a musical work and a resource.
#[derive(Debug)]
pub struct WorkResource {
    pub id: u64,
    pub work_id: String,
    pub resource_id: String,
}

impl WorkResource {
    /// The dump file that holds work / resource links.
    pub fn filename() -> (r: String)
        ensures
            r@ == "workresourcelinks.tsv"@,
    {
        String::from_str("workresourcelinks.tsv")
    }

    /// Reads a link row: id (0, a required unsigned integer), work id (1,
    /// required), resource id (2, required).
    pub fn from_csv(fields: &[String]) -> (r: Result<WorkResource, RecordError>)
        ensures
            fields@.len() == 0 ==> r == Err::<WorkResource, RecordError>(
                RecordError::MissingField(0),
            ),
            fields@.len() > 0 && spec_parse_u64(fields@[0]@) is None ==> r == Err::<
                WorkResource,
                RecordError,
            >(RecordError::InvalidNumber(0)),
            fields@.len() > 0 && spec_parse_u64(fields@[0]@) is Some && fields@.len() <= 2 ==> r
                == Err::<WorkResource, RecordError>(RecordError::MissingField(fields@.len() as usize)),
            fields@.len() > 2 && spec_parse_u64(fields@[0]@) is Some ==> (r matches Ok(x) && {
                &&& Some(x.id) == spec_parse_u64(fields@[0]@)
                &&& x.work_id@ == fields@[1]@
                &&& x.resource_id@ == fields@[2]@
            }),
    {
        let id = match field(fields, 0) {
            None => {
                return Err(RecordError::MissingField(0));
            },
            Some(s) => match parse_u64(s.as_str()) {
                None => {
                    return Err(RecordError::InvalidNumber(0));
                },
                Some(v) => v,
            },
        };
        let work_id = match field(fields, 1) {
            None => {
                return Err(RecordError::MissingField(1));
            },
            Some(s) => s,
        };
        let resource_id = match field(fields, 2) {
            None => {
                return Err(RecordError::MissingField(2));
            },
            Some(s) => s,
        };
        Ok(WorkResource { id, work_id, resource_id })
    }
}

} // verus!
