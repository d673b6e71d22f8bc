//! The queue session model: players waiting in a format's queue and the
//! life cycle of a game built from them.

use vstd::prelude::*;
use vstd::string::*;

verus! {

/// Team assignment for a player in a session.
#[derive(Debug, Clone, Copy, PartialEq, Eq)]
pub enum Team {
    /// Red team
    Red,
    /// Blue team
    Blu,
}

/// The team a stored name stands for.
pub open spec fn team_of_spec(s: Seq<char>) -> Option<Team> {
    if s == "RED"@ {
        Some(Team::Red)
    } else if s == "BLU"@ {
        Some(Team::Blu)
    } else {
        None
    }
}

impl Team {
    /// Reads a stored team name; an unknown one is refused with
    /// `Unknown : {s}`.
    pub fn from_str(s: &str) -> (r: Result<Team, String>)
        ensures
            match r {
                Ok(t) => team_of_spec(s@) == Some(t),
                Err(m) => team_of_spec(s@) is None && m@ == "Unknown : "@ + s@,
            },
    {
        if crate::text::str_eq(s, "RED") {
            Ok(Team::Red)
        } else if crate::text::str_eq(s, "BLU") {
            Ok(Team::Blu)
        } else {
            let mut m = String::from_str("Unknown : ");
            m.append(s);
            Err(m)
        }
    }
}

/// Life-cycle stage of a session.
#[derive(Debug, Clone, Copy, PartialEq, Eq)]
pub enum SessionStatus {
    /// Waiting for enough players to join
    Idle,
    /// Waiting for runners to start the session
    Hot,
    /// Moving players to the team channels
    Push,
    /// Game is active
    Live,
    /// Moving players back to the queue
    Pull,
}

impl SessionStatus {
    /// Whether a game is under way: players are being moved, playing, or
    /// being moved back.
    pub open spec fn spec_is_active(self) -> bool {
        self matches SessionStatus::Push || self matches SessionStatus::Live || self matches SessionStatus::Pull
    }

    /// Whether a game is under way (Push, Live or Pull).
    pub fn is_active(&self) -> (r: bool)
        ensures
            r == self.spec_is_active(),
    {
        match self {
            SessionStatus::Push | SessionStatus::Live | SessionStatus::Pull => true,
            _ => false,
        }
    }
}

/// A player waiting in, or playing from, a session's pool.
#[derive(Debug, Clone, Copy)]
pub struct SessionPlayer {
    /// Discord user id
    pub user_id: u64,
    /// Manual (legacy) ELO
    pub elo: u16,
    /// Dynamic ELO, when one has been established
    pub dynamic_elo: Option<u16>,
    /// Team assignment, once teams are generated
    pub team: Option<Team>,
    /// Whether the player sits in the queue voice channel
    pub in_vc: bool,
    /// Minutes after joining at which the player leaves the queue (0: never)
    pub queue_expiration: u8,
    /// When the player joined the queue, in milliseconds since the Unix epoch
    pub joined_at_ms: u64,
}

impl SessionPlayer {
    /// The ELO shown for the player: the dynamic one when dynamic ELO is
    /// active and established, else the manual one.
    pub open spec fn spec_shown_elo(self, dynamic_elo_active: bool) -> u16 {
        if dynamic_elo_active {
            match self.dynamic_elo {
                Some(e) => e,
                None => self.elo,
            }
        } else {
            self.elo
        }
    }

    /// The ELO shown for the player.
    pub fn shown_elo(&self, dynamic_elo_active: bool) -> (r: u16)
        ensures
            r == self.spec_shown_elo(dynamic_elo_active),
            dynamic_elo_active && self.dynamic_elo is Some ==> r == self.dynamic_elo.unwrap(),
            !dynamic_elo_active || self.dynamic_elo is None ==> r == self.elo,
    {
        if dynamic_elo_active {
            match self.dynamic_elo {
                Some(e) => e,
                None => self.elo,
            }
        } else {
            self.elo
        }
    }
}

/// The shown ELO is the dynamic one exactly when dynamic ELO is active and
/// the player has one; otherwise it is the manual ELO.
pub proof fn lemma_shown_elo(p: SessionPlayer, dynamic_elo_active: bool)
    ensures
        dynamic_elo_active && p.dynamic_elo is Some ==> p.spec_shown_elo(dynamic_elo_active) == p.dynamic_elo.unwrap(),
        !dynamic_elo_active ==> p.spec_shown_elo(dynamic_elo_active) == p.elo,
        p.dynamic_elo is None ==> p.spec_shown_elo(dynamic_elo_active) == p.elo,
{
}

} // verus!
