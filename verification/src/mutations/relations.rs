//! Writer / publisher relations: what a relation key means and how a related
//! party row becomes a [`Party`].
use vstd::prelude::*;

use crate::mutations::parties::{
    ipi_from_column, role_from_column, society_from_column, spec_role_from_column,
    spec_society_from_column,
};
use crate::text::{parse_u64, spec_parse_u64};
use crate::types::{IpiNameNum, Party};

verus! {

/// The party whose relations are fetched: by party id, or by IPI name number.
#[derive(Debug)]
pub enum RelatedPartyInput {
    Id(String),
    Ipi(IpiNameNum),
}

impl RelatedPartyInput {
    /// `From<String>`: a text that parses as a `u64` and that `check` accepts
    /// as an IPI name number is an IPI key; any other text is a party id.
    pub fn from_text<F: Fn(u64) -> Option<IpiNameNum>>(value: String, check: F) -> (r:
        RelatedPartyInput)
        requires
            forall|x: u64| #[trigger] check.requires((x,)),
        ensures
            match spec_parse_u64(value@) {
                Some(x) => exists|o: Option<IpiNameNum>|
                    #[trigger] check.ensures((x,), o) && match r {
                        RelatedPartyInput::Ipi(i) => o == Some(i),
                        RelatedPartyInput::Id(s) => s@ == value@ && o.is_none(),
                    },
                None => r == RelatedPartyInput::Id(value),
            },
    {
        match parse_u64(value.as_str()) {
            Some(x) => {
                let o = check(x);
                match o {
                    Some(ipi) => RelatedPartyInput::Ipi(ipi),
                    None => RelatedPartyInput::Id(value),
                }
            },
            None => RelatedPartyInput::Id(value),
        }
    }
}

/// Whether a related party row has no usable first and last name: no first
/// name (or an empty one) and an empty last name.
pub open spec fn lacks_split_name(first_name: Option<String>, last_name: String) -> bool {
    (first_name.is_none() || (first_name matches Some(f) && f@.len() == 0)) && last_name@.len()
        == 0
}

/// The first and last name that a related party is shown with: its own when
/// it has them, otherwise no first name and its full name as last name.
/// `None` when the full name is needed and the row has none.
pub open spec fn spec_shown_name(
    first_name: Option<String>,
    last_name: String,
    full_name: Option<String>,
) -> Option<(Option<String>, String)> {
    if lacks_split_name(first_name, last_name) {
        match full_name {
            Some(f) => Some((None, f)),
            None => None,
        }
    } else {
        Some((first_name, last_name))
    }
}

/// A related party keeps its own first and last name whenever it has a
/// non-empty first name or a non-empty last name, whatever its full name is;
/// only a row with neither is shown by its full name (no first name), and
/// such a row without a full name cannot be shown.
pub proof fn lemma_shown_name_prefers_split_name(
    first_name: Option<String>,
    last_name: String,
    full_name: Option<String>,
)
    ensures
        (first_name matches Some(f) && f@.len() > 0) || last_name@.len() > 0 ==> spec_shown_name(
            first_name,
            last_name,
            full_name,
        ) == Some((first_name, last_name)),
        (first_name.is_none() || (first_name matches Some(f) && f@.len() == 0)) && last_name@.len()
            == 0 ==> spec_shown_name(first_name, last_name, full_name) == match full_name {
            Some(f) => Some((None::<String>, f)),
            None => None,
        },
{
}

/// The party of a relation row (id, first name, full name, last name, ipi,
/// pro, role). `None` when the row needs its full name and has none.
pub fn related_party_from_row<F: Fn(u64) -> Option<IpiNameNum>>(
    id: u64,
    first_name: Option<String>,
    full_name: Option<String>,
    last_name: String,
    ipi: Option<i64>,
    pro: Option<i64>,
    role: Option<String>,
    check: &F,
) -> (r: Option<Party>)
    requires
        forall|x: u64| #[trigger] check.requires((x,)),
    ensures
        match spec_shown_name(first_name, last_name, full_name) {
            None => r.is_none(),
            Some((first, last)) => r matches Some(p) && {
                &&& p.id == id
                &&& p.first_name == first
                &&& p.last_name == last
                &&& match ipi {
                    Some(x) => check.ensures((x as u64,), p.ipi_name_num),
                    None => p.ipi_name_num.is_none(),
                }
                &&& p.pro == spec_society_from_column(pro)
                &&& p.role == spec_role_from_column(role)
            },
        },
        (first_name matches Some(f) && f@.len() > 0) || last_name@.len() > 0 ==> (r matches Some(
            p,
        ) && p.first_name == first_name && p.last_name == last_name),
        (first_name.is_none() || (first_name matches Some(f) && f@.len() == 0)) && last_name@.len()
            == 0 ==> match full_name {
            Some(f) => r matches Some(p) && p.first_name.is_none() && p.last_name == f,
            None => r.is_none(),
        },
        r matches Some(p) ==> (role.is_none() ==> p.role.is_none()),
{
    let lacks = match &first_name {
        None => true,
        Some(f) => f.as_str().unicode_len() == 0,
    } && last_name.as_str().unicode_len() == 0;
    let (first, last) = if lacks {
        match full_name {
            Some(f) => (None, f),
            None => {
                return None;
            },
        }
    } else {
        (first_name, last_name)
    };
    Some(
        Party {
            id,
            first_name: first,
            last_name: last,
            ipi_name_num: ipi_from_column(ipi, check),
            pro: society_from_column(pro),
            role: role_from_column(role),
        },
    )
}

} // verus!
