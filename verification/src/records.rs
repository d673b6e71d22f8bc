//! Match records as they are stored: a match's stage, its players and
//! their teams.

use vstd::prelude::*;
use crate::text::str_eq;

verus! {

/// Stage of a recorded match, stored as text.
#[derive(Debug, Clone, Copy, PartialEq, Eq, Structural)]
pub enum MatchStatus {
    Forming,
    Confirmed,
    InProgress,
    Ended,
}

/// How a stage is stored.
pub open spec fn status_text_spec(s: MatchStatus) -> Seq<char> {
    match s {
        MatchStatus::Forming => "forming"@,
        MatchStatus::Confirmed => "confirmed"@,
        MatchStatus::InProgress => "in_progress"@,
        MatchStatus::Ended => "ended"@,
    }
}

impl MatchStatus {
    /// How the stage is stored.
    pub fn as_text(&self) -> (r: &'static str)
        ensures
            r@ == status_text_spec(*self),
    {
        match self {
            MatchStatus::Forming => "forming",
            MatchStatus::Confirmed => "confirmed",
            MatchStatus::InProgress => "in_progress",
            MatchStatus::Ended => "ended",
        }
    }

    /// The stage stored as `s`, if any.
    pub fn from_text(s: &str) -> (r: Option<MatchStatus>)
        ensures
            match r {
                Some(st) => status_text_spec(st) == s@,
                None => forall|st: MatchStatus| status_text_spec(st) != s@,
            },
    {
        if str_eq(s, "forming") {
            Some(MatchStatus::Forming)
        } else if str_eq(s, "confirmed") {
            Some(MatchStatus::Confirmed)
        } else if str_eq(s, "in_progress") {
            Some(MatchStatus::InProgress)
        } else if str_eq(s, "ended") {
            Some(MatchStatus::Ended)
        } else {
            proof {
                assert forall|st: MatchStatus| status_text_spec(st) != s@ by {
                    match st {
                        MatchStatus::Forming => {},
                        MatchStatus::Confirmed => {},
                        MatchStatus::InProgress => {},
                        MatchStatus::Ended => {},
                    }
                }
            }
            None
        }
    }
}

/// Team of a recorded player, stored as `RED` or `BLU`.
#[derive(Debug, Clone, Copy, PartialEq, Eq, Structural)]
pub enum Team {
    Red,
    Blu,
}

/// How a team is stored.
pub open spec fn team_text_spec(t: Team) -> Seq<char> {
    match t {
        Team::Red => "RED"@,
        Team::Blu => "BLU"@,
    }
}

impl Team {
    /// How the team is stored.
    pub fn as_text(&self) -> (r: &'static str)
        ensures
            r@ == team_text_spec(*self),
    {
        match self {
            Team::Red => "RED",
            Team::Blu => "BLU",
        }
    }
}

/// A player of a recorded match.
#[derive(Debug, Clone, Copy, PartialEq, Eq, Structural)]
pub struct MatchPlayer {
    pub id: i64,
    pub match_id: i64,
    pub user_id: i64,
    pub team: Team,
}

/// A match to record.
#[derive(Debug, Clone)]
pub struct CreateMatch {
    pub match_uuid: String,
    pub red_team_channel_id: Option<String>,
    pub blu_team_channel_id: Option<String>,
    pub server_channel: Option<String>,
}

/// The user ids of each team of a match.
#[derive(Debug, Clone)]
pub struct TeamAssignment {
    pub red_team: Vec<i64>,
    pub blu_team: Vec<i64>,
}

} // verus!
