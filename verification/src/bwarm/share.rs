//! Rows of `musicalworkrightshares.tsv`, and the roles a party holds in a share.
use vstd::prelude::*;

use super::{RecordError, field, field_text, opt_text};
use crate::text::{parse_i64, spec_parse_i64, text_eq};

verus! {

/// The role in which a party holds a right share.
#[derive(Debug, Clone, Copy, PartialEq, Eq, Structural)]
pub enum PartyRole {
    OriginalPublisher,
    RightsAdministrator,
    Composer,
    SubPublisher,
    SubstitutedPublisher,
    Arranger,
    ComposerLyricist,
    Lyricist,
    SubLyricist,
    Translator,
    Adapter,
    SubArranger,
}

impl PartyRole {
    /// The snake-case name of a role, as it is printed and parsed.
    pub open spec fn spec_name(self) -> Seq<char> {
        match self {
            PartyRole::OriginalPublisher => "original_publisher"@,
            PartyRole::RightsAdministrator => "rights_administrator"@,
            PartyRole::Composer => "composer"@,
            PartyRole::SubPublisher => "sub_publisher"@,
            PartyRole::SubstitutedPublisher => "substituted_publisher"@,
            PartyRole::Arranger => "arranger"@,
            PartyRole::ComposerLyricist => "composer_lyricist"@,
            PartyRole::Lyricist => "lyricist"@,
            PartyRole::SubLyricist => "sub_lyricist"@,
            PartyRole::Translator => "translator"@,
            PartyRole::Adapter => "adapter"@,
            PartyRole::SubArranger => "sub_arranger"@,
        }
    }

    /// The role that a snake-case name denotes; any other text is refused.
    pub open spec fn spec_from_name(s: Seq<char>) -> Result<PartyRole, ()> {
        if s == "original_publisher"@ {
            Ok(PartyRole::OriginalPublisher)
        } else if s == "rights_administrator"@ {
            Ok(PartyRole::RightsAdministrator)
        } else if s == "composer"@ {
            Ok(PartyRole::Composer)
        } else if s == "sub_publisher"@ {
            Ok(PartyRole::SubPublisher)
        } else if s == "substituted_publisher"@ {
            Ok(PartyRole::SubstitutedPublisher)
        } else if s == "arranger"@ {
            Ok(PartyRole::Arranger)
        } else if s == "composer_lyricist"@ {
            Ok(PartyRole::ComposerLyricist)
        } else if s == "lyricist"@ {
            Ok(PartyRole::Lyricist)
        } else if s == "sub_lyricist"@ {
            Ok(PartyRole::SubLyricist)
        } else if s == "translator"@ {
            Ok(PartyRole::Translator)
        } else if s == "adapter"@ {
            Ok(PartyRole::Adapter)
        } else if s == "sub_arranger"@ {
            Ok(PartyRole::SubArranger)
        } else {
            Err(())
        }
    }

    /// The snake-case name of this role (`Display`).
    pub fn as_str(&self) -> (r: &'static str)
        ensures
            r@ == self.spec_name(),
    {
        match self {
            PartyRole::OriginalPublisher => "original_publisher",
            PartyRole::RightsAdministrator => "rights_administrator",
            PartyRole::Composer => "composer",
            PartyRole::SubPublisher => "sub_publisher",
            PartyRole::SubstitutedPublisher => "substituted_publisher",
            PartyRole::Arranger => "arranger",
            PartyRole::ComposerLyricist => "composer_lyricist",
            PartyRole::Lyricist => "lyricist",
            PartyRole::SubLyricist => "sub_lyricist",
            PartyRole::Translator => "translator",
            PartyRole::Adapter => "adapter",
            PartyRole::SubArranger => "sub_arranger",
        }
    }

    /// Reads a role from its snake-case name (`FromStr`).
    pub fn from_str(s: &str) -> (r: Result<PartyRole, ()>)
        ensures
            r == PartyRole::spec_from_name(s@),
    {
        if text_eq(s, "original_publisher") {
            Ok(PartyRole::OriginalPublisher)
        } else if text_eq(s, "rights_administrator") {
            Ok(PartyRole::RightsAdministrator)
        } else if text_eq(s, "composer") {
            Ok(PartyRole::Composer)
        } else if text_eq(s, "sub_publisher") {
            Ok(PartyRole::SubPublisher)
        } else if text_eq(s, "substituted_publisher") {
            Ok(PartyRole::SubstitutedPublisher)
        } else if text_eq(s, "arranger") {
            Ok(PartyRole::Arranger)
        } else if text_eq(s, "composer_lyricist") {
            Ok(PartyRole::ComposerLyricist)
        } else if text_eq(s, "lyricist") {
            Ok(PartyRole::Lyricist)
        } else if text_eq(s, "sub_lyricist") {
            Ok(PartyRole::SubLyricist)
        } else if text_eq(s, "translator") {
            Ok(PartyRole::Translator)
        } else if text_eq(s, "adapter") {
            Ok(PartyRole::Adapter)
        } else if text_eq(s, "sub_arranger") {
            Ok(PartyRole::SubArranger)
        } else {
            Err(())
        }
    }
}

impl std::str::FromStr for PartyRole {
    type Err = ();

    fn from_str(s: &str) -> (r: Result<PartyRole, ()>)
        ensures
            r == PartyRole::spec_from_name(s@),
    {
        PartyRole::from_str(s)
    }
}

/// Each share role is read back from its own name, and a name that is read
/// as a role is that role's name.
pub proof fn lemma_party_role_name_roundtrip(r: PartyRole, s: Seq<char>)
    ensures
        PartyRole::spec_from_name(r.spec_name()) == Ok::<PartyRole, ()>(r),
        PartyRole::spec_from_name(s) == Ok::<PartyRole, ()>(r) ==> s == r.spec_name(),
{
    reveal_strlit("original_publisher");
    reveal_strlit("rights_administrator");
    reveal_strlit("composer");
    reveal_strlit("sub_publisher");
    reveal_strlit("substituted_publisher");
    reveal_strlit("arranger");
    reveal_strlit("composer_lyricist");
    reveal_strlit("lyricist");
    reveal_strlit("sub_lyricist");
    reveal_strlit("translator");
    reveal_strlit("adapter");
    reveal_strlit("sub_arranger");
    match r {
        PartyRole::OriginalPublisher => {
        },
        PartyRole::RightsAdministrator => {
            assert("original_publisher"@.len() != "rights_administrator"@.len());
        },
        PartyRole::Composer => {
            assert("original_publisher"@.len() != "composer"@.len());
            assert("rights_administrator"@.len() != "composer"@.len());
        },
        PartyRole::SubPublisher => {
            assert("original_publisher"@.len() != "sub_publisher"@.len());
            assert("rights_administrator"@.len() != "sub_publisher"@.len());
            assert("composer"@.len() != "sub_publisher"@.len());
        },
        PartyRole::SubstitutedPublisher => {
            assert("original_publisher"@.len() != "substituted_publisher"@.len());
            assert("rights_administrator"@.len() != "substituted_publisher"@.len());
            assert("composer"@.len() != "substituted_publisher"@.len());
            assert("sub_publisher"@.len() != "substituted_publisher"@.len());
        },
        PartyRole::Arranger => {
            assert("original_publisher"@.len() != "arranger"@.len());
            assert("rights_administrator"@.len() != "arranger"@.len());
            assert("composer"@[0] != "arranger"@[0]);
            assert("sub_publisher"@.len() != "arranger"@.len());
            assert("substituted_publisher"@.len() != "arranger"@.len());
        },
        PartyRole::ComposerLyricist => {
            assert("original_publisher"@.len() != "composer_lyricist"@.len());
            assert("rights_administrator"@.len() != "composer_lyricist"@.len());
            assert("composer"@.len() != "composer_lyricist"@.len());
            assert("sub_publisher"@.len() != "composer_lyricist"@.len());
            assert("substituted_publisher"@.len() != "composer_lyricist"@.len());
            assert("arranger"@.len() != "composer_lyricist"@.len());
        },
        PartyRole::Lyricist => {
            assert("original_publisher"@.len() != "lyricist"@.len());
            assert("rights_administrator"@.len() != "lyricist"@.len());
            assert("composer"@[0] != "lyricist"@[0]);
            assert("sub_publisher"@.len() != "lyricist"@.len());
            assert("substituted_publisher"@.len() != "lyricist"@.len());
            assert("arranger"@[0] != "lyricist"@[0]);
            assert("composer_lyricist"@.len() != "lyricist"@.len());
        },
        PartyRole::SubLyricist => {
            assert("original_publisher"@.len() != "sub_lyricist"@.len());
            assert("rights_administrator"@.len() != "sub_lyricist"@.len());
            assert("composer"@.len() != "sub_lyricist"@.len());
            assert("sub_publisher"@.len() != "sub_lyricist"@.len());
            assert("substituted_publisher"@.len() != "sub_lyricist"@.len());
            assert("arranger"@.len() != "sub_lyricist"@.len());
            assert("composer_lyricist"@.len() != "sub_lyricist"@.len());
            assert("lyricist"@.len() != "sub_lyricist"@.len());
        },
        PartyRole::Translator => {
            assert("original_publisher"@.len() != "translator"@.len());
            assert("rights_administrator"@.len() != "translator"@.len());
            assert("composer"@.len() != "translator"@.len());
            assert("sub_publisher"@.len() != "translator"@.len());
            assert("substituted_publisher"@.len() != "translator"@.len());
            assert("arranger"@.len() != "translator"@.len());
            assert("composer_lyricist"@.len() != "translator"@.len());
            assert("lyricist"@.len() != "translator"@.len());
            assert("sub_lyricist"@.len() != "translator"@.len());
        },
        PartyRole::Adapter => {
            assert("original_publisher"@.len() != "adapter"@.len());
            assert("rights_administrator"@.len() != "adapter"@.len());
            assert("composer"@.len() != "adapter"@.len());
            assert("sub_publisher"@.len() != "adapter"@.len());
            assert("substituted_publisher"@.len() != "adapter"@.len());
            assert("arranger"@.len() != "adapter"@.len());
            assert("composer_lyricist"@.len() != "adapter"@.len());
            assert("lyricist"@.len() != "adapter"@.len());
            assert("sub_lyricist"@.len() != "adapter"@.len());
            assert("translator"@.len() != "adapter"@.len());
        },
        PartyRole::SubArranger => {
            assert("original_publisher"@.len() != "sub_arranger"@.len());
            assert("rights_administrator"@.len() != "sub_arranger"@.len());
            assert("composer"@.len() != "sub_arranger"@.len());
            assert("sub_publisher"@.len() != "sub_arranger"@.len());
            assert("substituted_publisher"@.len() != "sub_arranger"@.len());
            assert("arranger"@.len() != "sub_arranger"@.len());
            assert("composer_lyricist"@.len() != "sub_arranger"@.len());
            assert("lyricist"@.len() != "sub_arranger"@.len());
            assert("sub_lyricist"@[4] != "sub_arranger"@[4]);
            assert("translator"@.len() != "sub_arranger"@.len());
            assert("adapter"@.len() != "sub_arranger"@.len());
        },
    }
}

/// A right share as the dump lists it. The share percentage is kept as the
/// text of its field; it is read as a number where it is stored.
#[derive(Debug)]
pub struct Share {
    pub id: String,
    pub work_id: String,
    pub party_id: i64,
    pub role: String,
    pub rights_type: Option<String>,
    pub share: Option<String>,
    pub territory: String,
    pub preceding_id: Option<String>,
}

impl Share {
    /// The dump file that holds right shares.
    pub fn filename() -> (r: String)
        ensures
            r@ == "musicalworkrightshares.tsv"@,
    {
        String::from_str("musicalworkrightshares.tsv")
    }

    /// Reads a share row: id (0), work id (1), party id (2, an integer),
    /// role (3) and territory (7) are required; share (4), rights type (5) and
    /// preceding share id (8) are optional.
    pub fn from_csv(fields: &[String]) -> (r: Result<Share, RecordError>)
        ensures
            fields@.len() <= 2 ==> r == Err::<Share, RecordError>(
                RecordError::MissingField(fields@.len() as usize),
            ),
            fields@.len() > 2 && spec_parse_i64(fields@[2]@) is None ==> r == Err::<
                Share,
                RecordError,
            >(RecordError::InvalidNumber(2)),
            fields@.len() > 2 && spec_parse_i64(fields@[2]@) is Some && fields@.len() <= 3 ==> r
                == Err::<Share, RecordError>(RecordError::MissingField(3)),
            fields@.len() > 3 && spec_parse_i64(fields@[2]@) is Some && fields@.len() <= 7 ==> r
                == Err::<Share, RecordError>(RecordError::MissingField(7)),
            fields@.len() > 7 && spec_parse_i64(fields@[2]@) is Some ==> (r matches Ok(x) && {
                &&& x.id@ == fields@[0]@
                &&& x.work_id@ == fields@[1]@
                &&& Some(x.party_id) == spec_parse_i64(fields@[2]@)
                &&& x.role@ == fields@[3]@
                &&& opt_text(x.share) == field_text(fields@, 4)
                &&& opt_text(x.rights_type) == field_text(fields@, 5)
                &&& x.territory@ == fields@[7]@
                &&& opt_text(x.preceding_id) == field_text(fields@, 8)
            }),
    {
        let id = match field(fields, 0) {
            None => {
                return Err(RecordError::MissingField(0));
            },
            Some(s) => s,
        };
        let work_id = match field(fields, 1) {
            None => {
                return Err(RecordError::MissingField(1));
            },
            Some(s) => s,
        };
        let party_id = match field(fields, 2) {
            None => {
                return Err(RecordError::MissingField(2));
            },
            Some(s) => match parse_i64(s.as_str()) {
                None => {
                    return Err(RecordError::InvalidNumber(2));
                },
                Some(v) => v,
            },
        };
        let role = match field(fields, 3) {
            None => {
                return Err(RecordError::MissingField(3));
            },
            Some(s) => s,
        };
        let share = field(fields, 4);
        let rights_type = field(fields, 5);
        let territory = match field(fields, 7) {
            None => {
                return Err(RecordError::MissingField(7));
            },
            Some(s) => s,
        };
        let preceding_id = field(fields, 8);
        Ok(Share { id, work_id, party_id, role, rights_type, share, territory, preceding_id })
    }
}

} // verus!
