//! The stages and teams of a game as the earlier group queues kept them.

use vstd::prelude::*;
use crate::text::str_eq;

verus! {

/// Stage of a game.
#[derive(Debug, Clone, Copy, PartialEq, Eq, Structural)]
pub enum GameStatus {
    /// Waiting for enough players to join
    Idle,
    /// Waiting for runners to start the game
    Hot,
    /// Moving players to the team channels
    Push,
    /// Game is active
    Live,
    /// Moving players back to the queue
    Pull,
}

/// Team of a player of a game, before and after teams are made.
#[derive(Debug, Clone, Copy, PartialEq, Eq, Structural)]
pub enum Team {
    Unassigned,
    Red,
    Blu,
}

/// The team a stored name stands for.
pub open spec fn team_of_spec(s: Seq<char>) -> Option<Team> {
    if s == "UNASSIGNED"@ {
        Some(Team::Unassigned)
    } else if s == "RED"@ {
        Some(Team::Red)
    } else if s == "BLU"@ {
        Some(Team::Blu)
    } else {
        None
    }
}

impl Team {
    /// Reads a stored team name; an unknown one is refused with
    /// `Unknown : {s}`.
    pub fn from_str(s: &str) -> (r: Result<Team, String>)
        ensures
            match r {
                Ok(t) => team_of_spec(s@) == Some(t),
                Err(m) => team_of_spec(s@) is None && m@ == "Unknown : "@ + s@,
            },
    {
        if str_eq(s, "UNASSIGNED") {
            Ok(Team::Unassigned)
        } else if str_eq(s, "RED") {
            Ok(Team::Red)
        } else if str_eq(s, "BLU") {
            Ok(Team::Blu)
        } else {
            let mut m = String::from_str("Unknown : ");
            m.append(s);
            Err(m)
        }
    }
}

/// Division of a player in the earliest queues.
#[derive(Debug, Clone, Copy, PartialEq, Eq, Structural)]
pub enum DivName {
    Newcomer,
    Journey,
}

/// A configuration entry as stored: key, value and description.
#[derive(Debug, Clone)]
pub struct ConfigFormat {
    pub key: String,
    pub value: Option<String>,
    pub description: Option<String>,
}

} // verus!
