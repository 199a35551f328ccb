//! Settings read from the environment.
use vstd::prelude::*;

use crate::text::text_eq;

verus! {

/// Whether a database URL names a local file: it starts with `file:`.
pub open spec fn spec_is_local_db_url(url: Seq<char>) -> bool {
    url.len() >= 5 && url.take(5) == "file:"@
}

/// Whether a database URL names a local database file (`file:` URLs) rather
/// than a remote server.
pub fn is_local_db_url(url: &str) -> (r: bool)
    ensures
        r == spec_is_local_db_url(url@),
{
    if url.unicode_len() < 5 {
        return false;
    }
    let head = url.substring_char(0, 5);
    assert(head@ =~= url@.take(5));
    text_eq(head, "file:")
}

} // verus!
