//! The team identifier shared by the player list and the event payloads.

use vstd::prelude::*;
use crate::json::{
    spec_lookup, sp_string, DecodeErrView, DecodeError, JsonValue, obj_get, mismatch_for,
};
use crate::strutil::str_eq;

verus! {

/// Which side an entity belongs to.
#[derive(Debug, Clone, Copy, PartialEq, Eq, Structural)]
pub enum TeamId {
    All,
    /// Blue / left side.
    Order,
    /// Red / right side.
    Chaos,
    Neutral,
    Unknown,
}

/// Which team an upstream literal names; unrecognized literals are
/// `Unknown`.
pub open spec fn team_of(s: Seq<char>) -> TeamId {
    if s == "ALL"@ {
        TeamId::All
    } else if s == "ORDER"@ {
        TeamId::Order
    } else if s == "CHAOS"@ {
        TeamId::Chaos
    } else if s == "NEUTRAL"@ {
        TeamId::Neutral
    } else {
        TeamId::Unknown
    }
}

/// Specification of a required team field.
pub open spec fn sp_team(fs: Seq<(String, JsonValue)>, k: Seq<char>) -> Result<
    TeamId,
    DecodeErrView,
> {
    match sp_string(fs, k) {
        Ok(s) => Ok(team_of(s@)),
        Err(e) => Err(e),
    }
}

impl TeamId {
    /// Classify a team literal; never fails.
    pub fn from_str(s: &str) -> (r: TeamId)
        ensures
            r == team_of(s@),
    {
        if str_eq(s, "ALL") {
            TeamId::All
        } else if str_eq(s, "ORDER") {
            TeamId::Order
        } else if str_eq(s, "CHAOS") {
            TeamId::Chaos
        } else if str_eq(s, "NEUTRAL") {
            TeamId::Neutral
        } else {
            TeamId::Unknown
        }
    }
}

impl TeamId {
    /// The upstream literal for this team: the variant's name in upper
    /// case. Classifying the literal yields the team back.
    pub fn as_literal(&self) -> (r: &'static str)
        ensures
            team_of(r@) == *self,
            match self {
                TeamId::All => r@ == "ALL"@,
                TeamId::Order => r@ == "ORDER"@,
                TeamId::Chaos => r@ == "CHAOS"@,
                TeamId::Neutral => r@ == "NEUTRAL"@,
                TeamId::Unknown => r@ == "UNKNOWN"@,
            },
    {
        let r: &'static str = match self {
            TeamId::All => "ALL",
            TeamId::Order => "ORDER",
            TeamId::Chaos => "CHAOS",
            TeamId::Neutral => "NEUTRAL",
            TeamId::Unknown => "UNKNOWN",
        };
        proof {
            reveal_strlit("ALL");
            reveal_strlit("ORDER");
            reveal_strlit("CHAOS");
            reveal_strlit("NEUTRAL");
            reveal_strlit("UNKNOWN");
            assert("ALL"@.len() == 3);
            assert("ORDER"@.len() == 5 && "ORDER"@[0] == 'O');
            assert("CHAOS"@.len() == 5 && "CHAOS"@[0] == 'C');
            assert("NEUTRAL"@.len() == 7 && "NEUTRAL"@[0] == 'N');
            assert("UNKNOWN"@.len() == 7 && "UNKNOWN"@[0] == 'U');
        }
        r
    }
}

/// Decode a required team field.
pub fn get_team(fields: &Vec<(String, JsonValue)>, k: &str) -> (r: Result<TeamId, DecodeError>)
    ensures
        crate::json::decoded(r) == sp_team(fields@, k@),
{
    match obj_get(fields, k) {
        Some(JsonValue::Str(s)) => Ok(TeamId::from_str(s.as_str())),
        _ => Err(mismatch_for(k)),
    }
}

} // verus!
