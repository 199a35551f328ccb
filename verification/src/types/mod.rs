//! Shared party and role types.
use vstd::prelude::*;

use crate::text::text_eq;
use crate::tis::SocietyCode;

verus! {

/// An IPI name number: the CISAC identifier of a party's name, as stored in
/// the `ipi` column.
#[derive(Debug, Clone, Copy, PartialEq, Eq, Structural)]
pub struct IpiNameNum(pub u64);

/// How a writer is looked up: by IPI name number or by name.
#[derive(Debug)]
pub enum WriterSearch {
    Ipi(IpiNameNum),
    Name(String),
}

/// A party (writer or publisher) as the query functions return it.
#[derive(Debug)]
pub struct Party {
    pub id: u64,
    pub first_name: Option<String>,
    pub last_name: String,
    pub ipi_name_num: Option<IpiNameNum>,
    pub pro: Option<SocietyCode>,
    pub role: Option<Role>,
}

/// Whether a party acts mainly as a publisher or as a writer.
#[derive(Debug, Clone, Copy, PartialEq, Eq, Structural)]
pub enum Role {
    Publisher,
    Writer,
}

impl Role {
    /// The name under which a role is stored and printed.
    pub open spec fn spec_name(self) -> Seq<char> {
        match self {
            Role::Publisher => "publisher"@,
            Role::Writer => "writer"@,
        }
    }

    /// The role that a stored name denotes: exactly `"publisher"` or
    /// `"writer"`; any other text is refused.
    pub open spec fn spec_from_name(s: Seq<char>) -> Result<Role, ()> {
        if s == "publisher"@ {
            Ok(Role::Publisher)
        } else if s == "writer"@ {
            Ok(Role::Writer)
        } else {
            Err(())
        }
    }

    /// The name of this role, as `Display` writes it.
    pub fn as_str(&self) -> (r: &'static str)
        ensures
            r@ == self.spec_name(),
    {
        match self {
            Role::Publisher => "publisher",
            Role::Writer => "writer",
        }
    }

    /// The name of this role as an owned string (what `to_string` gives).
    pub fn to_string(&self) -> (r: String)
        ensures
            r@ == self.spec_name(),
    {
        String::from_str(self.as_str())
    }

    /// Reads a role from its stored name (`FromStr`).
    pub fn from_str(s: &str) -> (r: Result<Role, ()>)
        ensures
            r == Role::spec_from_name(s@),
    {
        if text_eq(s, "publisher") {
            Ok(Role::Publisher)
        } else if text_eq(s, "writer") {
            Ok(Role::Writer)
        } else {
            Err(())
        }
    }
}

impl std::str::FromStr for Role {
    type Err = ();

    fn from_str(s: &str) -> (r: Result<Role, ()>)
        ensures
            r == Role::spec_from_name(s@),
    {
        Role::from_str(s)
    }
}

/// Each role is read back from its own name, and a name that is read as a
/// role is that role's name.
pub proof fn lemma_role_name_roundtrip(r: Role, s: Seq<char>)
    ensures
        Role::spec_from_name(r.spec_name()) == Ok::<Role, ()>(r),
        Role::spec_from_name(s) == Ok::<Role, ()>(r) ==> s == r.spec_name(),
{
    reveal_strlit("publisher");
    reveal_strlit("writer");
    assert("publisher"@.len() != "writer"@.len());
}

} // verus!
pub mod territory;
