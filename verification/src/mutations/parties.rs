//! Party search: what a search input means, which statement and arguments
//! a search runs, and how a result row becomes a [`Party`].
use vstd::prelude::*;

use crate::text::{clean_search_name, parse_u64, spec_clean_search_name, spec_parse_u64};
use crate::tis::SocietyCode;
use crate::types::{IpiNameNum, Party, Role, lemma_role_name_roundtrip};

verus! {

/// A party search input: a name, or an IPI name number.
#[derive(Debug, Clone)]
pub enum PartyInput {
    Name(String),
    Ipi(IpiNameNum),
}

/// What a search input means, given the results of the IPI check on each
/// number: the IPI when the whole text is a number that the check accepts,
/// the name otherwise.
pub open spec fn party_input_meaning(
    value: Seq<char>,
    ipi: Option<IpiNameNum>,
    r: PartyInput,
) -> bool {
    match r {
        PartyInput::Ipi(i) => spec_parse_u64(value).is_some() && ipi == Some(i),
        PartyInput::Name(n) => n@ == value && (spec_parse_u64(value).is_some() ==> ipi.is_none()),
    }
}

impl PartyInput {
    /// `From<String>`: a text that parses as a `u64` and that `check` accepts
    /// as an IPI name number is an IPI search; any other text is a name
    /// search. `check` is the IPI name number validation.
    pub fn from_text<F: Fn(u64) -> Option<IpiNameNum>>(value: String, check: F) -> (r: PartyInput)
        requires
            forall|x: u64| #[trigger] check.requires((x,)),
        ensures
            match spec_parse_u64(value@) {
                Some(x) => exists|o: Option<IpiNameNum>|
                    #[trigger] check.ensures((x,), o) && party_input_meaning(value@, o, r),
                None => r == PartyInput::Name(value),
            },
    {
        match parse_u64(value.as_str()) {
            Some(x) => {
                let o = check(x);
                match o {
                    Some(ipi) => PartyInput::Ipi(ipi),
                    None => PartyInput::Name(value),
                }
            },
            None => PartyInput::Name(value),
        }
    }
}

/// What a party search matches on: the full-text index with a cleaned name,
/// or the `ipi` column with a number.
#[derive(Debug)]
pub enum PartyKey {
    Name(String),
    Ipi(i64),
}

/// The statement and arguments of a party search. With a role, the search
/// keeps parties of that role, of role `both`, or of no role.
#[derive(Debug)]
pub struct PartySearchPlan {
    pub key: PartyKey,
    pub role: Option<String>,
    pub limit: i64,
}

/// Why a search was refused before it reached the database.
#[derive(Debug, Clone, Copy, PartialEq, Eq, Structural)]
pub enum SearchError {
    /// "search name must not be empty"
    EmptyName,
}

/// The plan of a party search: a name search with an empty name is refused;
/// a name is cleaned before it reaches the full-text index; an IPI is matched
/// as a signed integer; the role filter is the role's name; the limit is
/// passed as a signed integer.
pub fn plan_party_search(param: PartyInput, role: Option<Role>, limit: usize) -> (r: Result<
    PartySearchPlan,
    SearchError,
>)
    ensures
        match param {
            PartyInput::Name(n) => n@.len() == 0 <==> r == Err::<PartySearchPlan, SearchError>(
                SearchError::EmptyName,
            ),
            PartyInput::Ipi(_) => r.is_ok(),
        },
        r matches Ok(p) ==> {
            &&& p.limit == limit as i64
            &&& match role {
                Some(x) => p.role matches Some(s) && s@ == x.spec_name(),
                None => p.role.is_none(),
            }
            &&& match param {
                PartyInput::Name(n) => p.key matches PartyKey::Name(s) && s@
                    == spec_clean_search_name(n@),
                PartyInput::Ipi(i) => p.key == PartyKey::Ipi(i.0 as i64),
            }
        },
{
    let key = match param {
        PartyInput::Name(name) => {
            if name.as_str().unicode_len() == 0 {
                return Err(SearchError::EmptyName);
            }
            PartyKey::Name(clean_search_name(name.as_str()))
        },
        PartyInput::Ipi(ipi) => PartyKey::Ipi(ipi.0 as i64),
    };
    let role = match role {
        Some(x) => Some(x.to_string()),
        None => None,
    };
    Ok(PartySearchPlan { key, role, limit: limit as i64 })
}

/// The society that a stored `pro` column names: its low 16 bits read as a
/// society code; `None` for a null column or an unknown code.
pub open spec fn spec_society_from_column(v: Option<i64>) -> Option<SocietyCode> {
    match v {
        Some(x) => SocietyCode::spec_from_code(x as u16),
        None => None,
    }
}

/// Reads the `pro` column of a party row.
pub fn society_from_column(v: Option<i64>) -> (r: Option<SocietyCode>)
    ensures
        r == spec_society_from_column(v),
{
    match v {
        Some(x) => SocietyCode::from_code(x as u16),
        None => None,
    }
}

/// The role that a stored `role` column names; `None` for a null column or a
/// name that is not a role (such as `both`).
pub open spec fn spec_role_from_column(v: Option<String>) -> Option<Role> {
    match v {
        Some(s) => match Role::spec_from_name(s@) {
            Ok(r) => Some(r),
            Err(_) => None,
        },
        None => None,
    }
}

/// A null role column gives no role; a role is given only for a column that
/// holds exactly that role's name, and the names `writer` and `publisher`
/// give the writer and publisher roles.
pub proof fn lemma_role_column_meaning(v: Option<String>)
    ensures
        v.is_none() ==> spec_role_from_column(v).is_none(),
        spec_role_from_column(v) matches Some(x) ==> (v matches Some(s) && s@ == x.spec_name()),
        v matches Some(s) && s@ == "writer"@ ==> spec_role_from_column(v) == Some(Role::Writer),
        v matches Some(s) && s@ == "publisher"@ ==> spec_role_from_column(v) == Some(
            Role::Publisher,
        ),
{
    match v {
        Some(s) => {
            match Role::spec_from_name(s@) {
                Ok(x) => {
                    lemma_role_name_roundtrip(x, s@);
                },
                Err(_) => {},
            }
            lemma_role_name_roundtrip(Role::Writer, s@);
            lemma_role_name_roundtrip(Role::Publisher, s@);
        },
        None => {},
    }
}

/// Reads the `role` column of a party row.
pub fn role_from_column(v: Option<String>) -> (r: Option<Role>)
    ensures
        r == spec_role_from_column(v),
        v.is_none() ==> r.is_none(),
        r matches Some(x) ==> (v matches Some(s) && s@ == x.spec_name()),
        v matches Some(s) && s@ == "writer"@ ==> r == Some(Role::Writer),
        v matches Some(s) && s@ == "publisher"@ ==> r == Some(Role::Publisher),
{
    proof {
        lemma_role_column_meaning(v);
    }
    match v {
        Some(s) => match Role::from_str(s.as_str()) {
            Ok(x) => Some(x),
            Err(_) => None,
        },
        None => None,
    }
}

/// Reads the `ipi` column of a party row: the number as a `u64`, kept when
/// `check` accepts it as an IPI name number.
pub fn ipi_from_column<F: Fn(u64) -> Option<IpiNameNum>>(v: Option<i64>, check: &F) -> (r: Option<
    IpiNameNum,
>)
    requires
        forall|x: u64| #[trigger] check.requires((x,)),
    ensures
        match v {
            Some(x) => check.ensures((x as u64,), r),
            None => r.is_none(),
        },
{
    match v {
        Some(x) => check(x as u64),
        None => None,
    }
}

/// The party of a search result row (id, first name, last name, ipi, pro,
/// role).
pub fn party_from_row<F: Fn(u64) -> Option<IpiNameNum>>(
    id: u64,
    first_name: Option<String>,
    last_name: String,
    ipi: Option<i64>,
    pro: Option<i64>,
    role: Option<String>,
    check: &F,
) -> (r: Party)
    requires
        forall|x: u64| #[trigger] check.requires((x,)),
    ensures
        r.id == id,
        r.first_name == first_name,
        r.last_name == last_name,
        match ipi {
            Some(x) => check.ensures((x as u64,), r.ipi_name_num),
            None => r.ipi_name_num.is_none(),
        },
        r.pro == spec_society_from_column(pro),
        r.role == spec_role_from_column(role),
        role.is_none() ==> r.role.is_none(),
        r.role matches Some(x) ==> (role matches Some(s) && s@ == x.spec_name()),
{
    Party {
        id,
        first_name,
        last_name,
        ipi_name_num: ipi_from_column(ipi, check),
        pro: society_from_column(pro),
        role: role_from_column(role),
    }
}

/// The party of a row of the unsigned-writer listing: its society and role
/// are left unset.
pub fn unsigned_writer_from_row<F: Fn(u64) -> Option<IpiNameNum>>(
    id: u64,
    first_name: Option<String>,
    last_name: String,
    ipi: Option<i64>,
    check: &F,
) -> (r: Party)
    requires
        forall|x: u64| #[trigger] check.requires((x,)),
    ensures
        r.id == id,
        r.first_name == first_name,
        r.last_name == last_name,
        match ipi {
            Some(x) => check.ensures((x as u64,), r.ipi_name_num),
            None => r.ipi_name_num.is_none(),
        },
        r.pro.is_none(),
        r.role.is_none(),
{
    Party {
        id,
        first_name,
        last_name,
        ipi_name_num: ipi_from_column(ipi, check),
        pro: None,
        role: None,
    }
}

} // verus!
