//! Fatkid immunity: who may be left out of a game when more players wait
//! than it takes.

use vstd::prelude::*;

verus! {

/// Three days, in seconds: how long immunity lasts after being left out.
pub const THREE_DAYS_SECONDS: i64 = 259200;

/// Below this many games a player is immune.
pub const IMMUNITY_GAMES_THRESHOLD: u32 = 2;

/// Whether a player is immune, and how often they were left out (higher:
/// more recently).
#[derive(Debug, Clone, Copy, PartialEq, Eq, Structural)]
pub struct PlayerImmunityInfo {
    pub has_immunity: bool,
    pub immunity_level: u32,
}

/// A player's immunity from what is stored of them: `games` is their game
/// count (none for a player without a record), `level` and
/// `last_fatkidded` (seconds since the Unix epoch) their fatkid record.
/// New players and players with fewer than two games are immune; so is a
/// player left out less than three days before `now`. A player whose
/// immunity ran out with a level above zero has it reset: the second part
/// of the result says whether the stored level must be reset.
pub open spec fn immunity_spec(games: Option<u32>, level: u32, last_fatkidded: Option<i64>, now: i64) -> (PlayerImmunityInfo, bool) {
    match games {
        None => (PlayerImmunityInfo { has_immunity: true, immunity_level: 0 }, false),
        Some(g) => if g < IMMUNITY_GAMES_THRESHOLD {
            (PlayerImmunityInfo { has_immunity: true, immunity_level: 0 }, false)
        } else {
            match last_fatkidded {
                Some(t) => if now - t < THREE_DAYS_SECONDS {
                    (PlayerImmunityInfo { has_immunity: true, immunity_level: level }, false)
                } else if level > 0 {
                    (PlayerImmunityInfo { has_immunity: false, immunity_level: 0 }, true)
                } else {
                    (PlayerImmunityInfo { has_immunity: false, immunity_level: level }, false)
                },
                None => (PlayerImmunityInfo { has_immunity: false, immunity_level: level }, false),
            }
        },
    }
}

/// A player's immunity, and whether their stored level must be reset.
pub fn immunity_decision(games: Option<u32>, level: u32, last_fatkidded: Option<i64>, now: i64) -> (r: (PlayerImmunityInfo, bool))
    requires
        last_fatkidded matches Some(t) ==> i64::MIN <= now - t <= i64::MAX,
    ensures
        r == immunity_spec(games, level, last_fatkidded, now),
{
    match games {
        None => (PlayerImmunityInfo { has_immunity: true, immunity_level: 0 }, false),
        Some(g) => {
            if g < IMMUNITY_GAMES_THRESHOLD {
                return (PlayerImmunityInfo { has_immunity: true, immunity_level: 0 }, false);
            }
            match last_fatkidded {
                Some(t) => {
                    let since = now - t;
                    if since < THREE_DAYS_SECONDS {
                        (PlayerImmunityInfo { has_immunity: true, immunity_level: level }, false)
                    } else if level > 0 {
                        (PlayerImmunityInfo { has_immunity: false, immunity_level: 0 }, true)
                    } else {
                        (PlayerImmunityInfo { has_immunity: false, immunity_level: level }, false)
                    }
                },
                None => (PlayerImmunityInfo { has_immunity: false, immunity_level: level }, false),
            }
        },
    }
}

/// Who is immune: a player without a record, or with fewer than two games,
/// always is; a player with two games or more is immune exactly when they
/// were left out less than three days (259200 seconds) ago. The stored
/// level is reset exactly when such a player's immunity ran out while their
/// level is above zero; a recently left-out player keeps their level.
pub proof fn lemma_immunity_rules(games: Option<u32>, level: u32, last_fatkidded: Option<i64>, now: i64)
    ensures
        games is None ==> immunity_spec(games, level, last_fatkidded, now).0.has_immunity,
        games is Some && games.unwrap() < 2 ==> immunity_spec(games, level, last_fatkidded, now).0.has_immunity,
        games is Some && games.unwrap() >= 2 ==> (immunity_spec(games, level, last_fatkidded, now).0.has_immunity
            <==> (last_fatkidded is Some && now - last_fatkidded.unwrap() < 3 * 24 * 60 * 60)),
        immunity_spec(games, level, last_fatkidded, now).1 <==> (games is Some && games.unwrap() >= 2
            && last_fatkidded is Some && now - last_fatkidded.unwrap() >= 3 * 24 * 60 * 60 && level > 0),
        (games is Some && games.unwrap() >= 2 && last_fatkidded is Some && now - last_fatkidded.unwrap() < 3 * 24 * 60 * 60)
            ==> immunity_spec(games, level, last_fatkidded, now).0.immunity_level == level,
        !immunity_spec(games, level, last_fatkidded, now).0.has_immunity
            ==> immunity_spec(games, level, last_fatkidded, now).0.immunity_level
                == (if immunity_spec(games, level, last_fatkidded, now).1 { 0 } else { level }),
{
}

} // verus!
