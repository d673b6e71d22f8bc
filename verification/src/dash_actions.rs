//! What the dashboard's buttons decide and change in a category: joining
//! again, the queue timeout, shuffling, starting, ending and cancelling a
//! game.

use vstd::prelude::*;
use crate::session::{SessionPlayer, SessionStatus};
use crate::category::{
    kept_sessions, Session, Category, in_pool, first_index, format_index, session_index, find_player, lemma_first_index,
    lemma_format_index, lemma_session_index,
};
use crate::dashboard::{
    any_hot, any_active, any_live, first_active, first_status, find_status, find_active, some_hot, some_live,
    some_active, lemma_first_active, lemma_first_status,
};

verus! {

/// `b` is `a` but for session `s` of format `f`, whose stage, pool and
/// times are described apart; every other format, session and field is
/// unchanged.
pub open spec fn only_session_changed(a: Category, b: Category, f: int, s: int) -> bool {
    &&& b.id == a.id
    &&& b.name == a.name
    &&& b.restarting == a.restarting
    &&& b.require_score_report == a.require_score_report
    &&& b.confirm_time == a.confirm_time
    &&& b.last_action == a.last_action
    &&& b.last_ping_ms == a.last_ping_ms
    &&& 0 <= f < a.formats@.len()
    &&& b.formats@.len() == a.formats@.len()
    &&& forall|i: int| 0 <= i < a.formats@.len() && i != f ==> #[trigger] b.formats@[i] == a.formats@[i]
    &&& b.formats@[f].id == a.formats@[f].id
    &&& b.formats@[f].name == a.formats@[f].name
    &&& b.formats@[f].quota == a.formats@[f].quota
    &&& b.formats@[f].connect_info == a.formats@[f].connect_info
    &&& 0 <= s < a.formats@[f].sessions@.len()
    &&& b.formats@[f].sessions@.len() == a.formats@[f].sessions@.len()
    &&& forall|j: int| 0 <= j < a.formats@[f].sessions@.len() && j != s
        ==> #[trigger] b.formats@[f].sessions@[j] == a.formats@[f].sessions@[j]
}

/// Sessions `x` and `y` agree on everything but their stage and the time
/// of the last runner action.
pub open spec fn same_but_stage(x: Session, y: Session) -> bool {
    &&& y.pool@ == x.pool@
    &&& y.started_at_ms == x.started_at_ms
    &&& y.ready_at_ms == x.ready_at_ms
    &&& y.match_ended_at_ms == x.match_ended_at_ms
    &&& y.score_reported == x.score_reported
    &&& y.pre_match_pool == x.pre_match_pool
}

/// `b` is `a` with player `k` of session `s` of format `f` replaced by `p`.
pub open spec fn player_replaced(a: Category, b: Category, f: int, s: int, k: int, p: SessionPlayer) -> bool {
    let x = a.formats@[f].sessions@[s];
    let y = b.formats@[f].sessions@[s];
    &&& only_session_changed(a, b, f, s)
    &&& 0 <= k < x.pool@.len()
    &&& y.pool@ == x.pool@.update(k, p)
    &&& y.status == x.status
    &&& y.started_at_ms == x.started_at_ms
    &&& y.ready_at_ms == x.ready_at_ms
    &&& y.match_ended_at_ms == x.match_ended_at_ms
    &&& y.score_reported == x.score_reported
    &&& y.pre_match_pool == x.pre_match_pool
    &&& y.last_action_at_ms == x.last_action_at_ms
}

/// Index of the first format of `fs[i..]` with a session that holds
/// `user` (or the length).
pub open spec fn format_with_user(fs: Seq<crate::category::Format>, user: u64, i: int) -> int
    decreases fs.len() - i,
{
    if 0 <= i < fs.len() && session_index(fs[i].sessions@, user, 0) >= fs[i].sessions@.len() {
        format_with_user(fs, user, i + 1)
    } else {
        i
    }
}

pub proof fn lemma_format_with_user(fs: Seq<crate::category::Format>, user: u64, i: int)
    requires
        0 <= i <= fs.len(),
    ensures
        i <= format_with_user(fs, user, i) <= fs.len(),
        forall|k: int| i <= k < format_with_user(fs, user, i)
            ==> session_index(#[trigger] fs[k].sessions@, user, 0) >= fs[k].sessions@.len(),
        format_with_user(fs, user, i) < fs.len()
            ==> session_index(fs[format_with_user(fs, user, i)].sessions@, user, 0) < fs[format_with_user(fs, user, i)].sessions@.len(),
    decreases fs.len() - i,
{
    if i < fs.len() && session_index(fs[i].sessions@, user, 0) >= fs[i].sessions@.len() {
        lemma_format_with_user(fs, user, i + 1);
    }
}

/// The queue timeout a `set_expiry` button names, in minutes.
pub open spec fn expiry_spec(arg: Option<Seq<char>>) -> Option<u8> {
    match arg {
        Some(a) => if a == "30m"@ {
            Some(30u8)
        } else if a == "1h"@ {
            Some(60u8)
        } else if a == "2h"@ {
            Some(120u8)
        } else if a == "3h"@ {
            Some(180u8)
        } else if a == "4h"@ {
            Some(240u8)
        } else {
            None
        },
        None => None,
    }
}

/// The timeouts a `set_expiry` button names: `30m` is 30 minutes, and
/// `{n}h` for a digit `n` from 1 to 4 is `n` hours; every other argument
/// names none.
pub proof fn lemma_expiry_readings(a: Seq<char>, n: int)
    ensures
        expiry_spec(Some("30m"@)) == Some(30u8),
        1 <= n <= 4 ==> expiry_spec(Some(seq![(48 + n) as char, 'h'])) == Some((60 * n) as u8),
        expiry_spec(Some(a)) is Some ==> a == "30m"@ || (a.len() == 2 && a[1] == 'h' && 49 <= a[0] as int <= 52
            && expiry_spec(Some(a)) == Some((60 * (a[0] as int - 48)) as u8)),
{
    reveal_strlit("30m");
    reveal_strlit("1h");
    reveal_strlit("2h");
    reveal_strlit("3h");
    reveal_strlit("4h");
    if 1 <= n <= 4 {
        let h = seq![(48 + n) as char, 'h'];
        assert(h.len() == 2);
        if n == 1 {
            assert(h =~= "1h"@);
        } else if n == 2 {
            assert(h =~= "2h"@);
            assert(h != "1h"@ && h != "30m"@);
        } else if n == 3 {
            assert(h =~= "3h"@);
            assert(h[0] != "1h"@[0] && h[0] != "2h"@[0] && h != "30m"@);
        } else {
            assert(h =~= "4h"@);
            assert(h[0] != "1h"@[0] && h[0] != "2h"@[0] && h[0] != "3h"@[0] && h != "30m"@);
        }
    }
}

/// The queue timeout a `set_expiry` button names: 30 minutes or 1 to 4
/// hours, in minutes.
pub fn expiry_minutes(arg: Option<&str>) -> (r: Option<u8>)
    ensures
        r == expiry_spec(match arg { Some(a) => Some(a@), None => None }),
{
    match arg {
        Some(a) => {
            if crate::text::str_eq(a, "30m") {
                Some(30)
            } else if crate::text::str_eq(a, "1h") {
                Some(60)
            } else if crate::text::str_eq(a, "2h") {
                Some(120)
            } else if crate::text::str_eq(a, "3h") {
                Some(180)
            } else if crate::text::str_eq(a, "4h") {
                Some(240)
            } else {
                None
            }
        },
        None => None,
    }
}

/// What a player pressing Join in a format is told.
#[derive(Debug, Clone, Copy, PartialEq, Eq, Structural)]
pub enum JoinCheck {
    /// The player waits in the format already; their join time is refreshed
    AlreadyQueued,
    /// No session of the format takes players: a game is under way
    MatchInProgress,
    /// The player may be queued
    Proceed,
}

/// Whether some session of `ss` is idle or hot.
pub open spec fn any_joinable(ss: Seq<Session>) -> bool {
    exists|j: int| 0 <= j < ss.len() && (#[trigger] ss[j].status == SessionStatus::Idle || ss[j].status == SessionStatus::Hot)
}

/// What pressing Shuffle is told.
#[derive(Debug, Clone, Copy, PartialEq, Eq, Structural)]
pub enum ShuffleCheck {
    /// A game is live: teams cannot change
    Live,
    /// No idle or hot session holds the quota of players
    NotReady { quota: u8 },
    /// Teams may be made again
    Ready,
}

/// Whether some idle or hot session of `ss` holds at least `quota` players.
pub open spec fn any_full(ss: Seq<Session>, quota: int) -> bool {
    exists|j: int| 0 <= j < ss.len() && (#[trigger] ss[j].status == SessionStatus::Idle
        || ss[j].status == SessionStatus::Hot) && ss[j].pool@.len() >= quota
}

/// What pressing Start is told.
#[derive(Debug, Clone, Copy, PartialEq, Eq, Structural)]
pub enum StartCheck {
    /// No session of the format is ready to start
    NoHotGame,
    /// A game of the format is already under way
    GameInProgress,
    /// The first ready session is started
    Start,
}

/// What pressing End is told.
#[derive(Debug, Clone, Copy, PartialEq, Eq, Structural)]
pub enum EndCheck {
    /// Neither a live nor a ready session
    NoActiveMatch,
    /// The category asks for the score: the score form is shown
    ReportScore,
    /// The runner chooses the winning team
    ChooseWinner,
}

/// What pressing Cancel did.
#[derive(Debug, Clone, Copy, PartialEq, Eq, Structural)]
pub enum CancelOutcome {
    /// No live session to cancel
    NoActiveMatch,
    /// The game started five minutes ago or more
    TooLate,
    /// The game was cancelled; `restored` tells whether the queue order
    /// from before the game came back (else the pool was emptied), and
    /// `removed` how many empty idle sessions were dropped
    Cancelled { restored: bool, removed: usize },
}

fn status_is(s: SessionStatus, a: SessionStatus, b: SessionStatus) -> (r: bool)
    ensures
        r == (s == a || s == b),
{
    match (s, a, b) {
        (SessionStatus::Idle, SessionStatus::Idle, _) | (SessionStatus::Idle, _, SessionStatus::Idle) => true,
        (SessionStatus::Hot, SessionStatus::Hot, _) | (SessionStatus::Hot, _, SessionStatus::Hot) => true,
        (SessionStatus::Push, SessionStatus::Push, _) | (SessionStatus::Push, _, SessionStatus::Push) => true,
        (SessionStatus::Live, SessionStatus::Live, _) | (SessionStatus::Live, _, SessionStatus::Live) => true,
        (SessionStatus::Pull, SessionStatus::Pull, _) | (SessionStatus::Pull, _, SessionStatus::Pull) => true,
        _ => false,
    }
}

impl Category {
    /// Whether `user` waits in some session of format `fmt_id`.
    pub open spec fn spec_in_format(&self, fmt_id: u8, user: u64) -> bool {
        let f = format_index(self.formats@, fmt_id, 0);
        f < self.formats@.len() && session_index(self.formats@[f].sessions@, user, 0) < self.formats@[f].sessions@.len()
    }

    /// A player presses Join in format `fmt_id`: one already waiting there
    /// only has their join time refreshed; otherwise joining needs an idle
    /// or hot session of the format.
    pub fn join_check(&self, fmt_id: u8, user: u64) -> (r: JoinCheck)
        ensures
            ({
                let fs = self.formats@;
                let f = format_index(fs, fmt_id, 0);
                if self.spec_in_format(fmt_id, user) {
                    r == JoinCheck::AlreadyQueued
                } else if f < fs.len() && any_joinable(fs[f].sessions@) {
                    r == JoinCheck::Proceed
                } else {
                    r == JoinCheck::MatchInProgress
                }
            }),
    {
        let f = match self.find_format(fmt_id) {
            Some(f) => f,
            None => {
                return JoinCheck::MatchInProgress;
            },
        };
        if self.find_user_session(f, user).is_some() {
            return JoinCheck::AlreadyQueued;
        }
        let ss = &self.formats[f].sessions;
        let n = ss.len();
        let mut i: usize = 0;
        while i < n
            invariant
                f < self.formats@.len(),
                f as int == format_index(self.formats@, fmt_id, 0),
                ss@ == self.formats@[f as int].sessions@,
                !self.spec_in_format(fmt_id, user),
                n == ss@.len(),
                i <= n,
                forall|k: int| 0 <= k < i ==> !(#[trigger] ss@[k].status == SessionStatus::Idle || ss@[k].status == SessionStatus::Hot),
            decreases n - i,
        {
            if status_is(ss[i].status, SessionStatus::Idle, SessionStatus::Hot) {
                assert(any_joinable(ss@));
                return JoinCheck::Proceed;
            }
            i = i + 1;
        }
        JoinCheck::MatchInProgress
    }

    /// Replaces player `k` of session `s` of format `f` by `p`.
    fn replace_player(&mut self, f: usize, s: usize, k: usize, p: SessionPlayer)
        requires
            f < old(self).formats@.len(),
            s < old(self).formats@[f as int].sessions@.len(),
            k < old(self).formats@[f as int].sessions@[s as int].pool@.len(),
        ensures
            player_replaced(*old(self), *final(self), f as int, s as int, k as int, p),
    {
        self.formats[f].sessions[s].pool.set(k, p);
    }

    /// A player already waiting in format `fmt_id` presses Join again: the
    /// first entry of the player, in the first session that holds them,
    /// gets `now` as its join time. Nothing changes when the player does
    /// not wait in the format.
    pub fn refresh_join(&mut self, fmt_id: u8, user: u64, now: u64)
        ensures
            ({
                let a = *old(self);
                let f = format_index(a.formats@, fmt_id, 0);
                if a.spec_in_format(fmt_id, user) {
                    let s = session_index(a.formats@[f].sessions@, user, 0);
                    let pool = a.formats@[f].sessions@[s].pool@;
                    let k = first_index(pool, user, 0);
                    player_replaced(a, *final(self), f, s, k, SessionPlayer { joined_at_ms: now, ..pool[k] })
                } else {
                    *final(self) == a
                }
            }),
    {
        let f = match self.find_format(fmt_id) {
            Some(f) => f,
            None => {
                return;
            },
        };
        let s = match self.find_user_session(f, user) {
            Some(s) => s,
            None => {
                return;
            },
        };
        proof {
            lemma_session_index(self.formats@[f as int].sessions@, user, 0);
        }
        let k = match find_player(&self.formats[f].sessions[s].pool, user) {
            Some(k) => k,
            None => {
                return;
            },
        };
        let p = self.formats[f].sessions[s].pool[k];
        self.replace_player(f, s, k, SessionPlayer { joined_at_ms: now, ..p });
    }

    /// Whether `user` waits in any session of any format.
    pub open spec fn spec_in_any_queue(&self, user: u64) -> bool {
        format_with_user(self.formats@, user, 0) < self.formats@.len()
    }

    /// Whether `user` waits in any session of any format (asked before
    /// offering the queue timeout choices).
    pub fn is_in_any_queue(&self, user: u64) -> (r: bool)
        ensures
            r == self.spec_in_any_queue(user),
    {
        proof {
            lemma_format_with_user(self.formats@, user, 0);
        }
        self.find_user_format(user).is_some()
    }

    fn find_user_format(&self, user: u64) -> (r: Option<usize>)
        ensures
            match r {
                Some(f) => f as int == format_with_user(self.formats@, user, 0) && f < self.formats@.len(),
                None => format_with_user(self.formats@, user, 0) == self.formats@.len(),
            },
    {
        let n = self.formats.len();
        let mut i: usize = 0;
        while i < n
            invariant
                n == self.formats@.len(),
                i <= n,
                format_with_user(self.formats@, user, 0) == format_with_user(self.formats@, user, i as int),
            decreases n - i,
        {
            if self.find_user_session(i, user).is_some() {
                return Some(i);
            }
            i = i + 1;
        }
        None
    }

    /// A player picks a queue timeout of `minutes`: the first entry of the
    /// player, in the first session of the first format that holds them,
    /// gets it. Gives that format's id, or `None` (nothing changed) when
    /// the player waits nowhere.
    pub fn set_expiry(&mut self, user: u64, minutes: u8) -> (r: Option<u8>)
        ensures
            ({
                let a = *old(self);
                let fs = a.formats@;
                let f = format_with_user(fs, user, 0);
                if f < fs.len() {
                    let s = session_index(fs[f].sessions@, user, 0);
                    let pool = fs[f].sessions@[s].pool@;
                    let k = first_index(pool, user, 0);
                    &&& r == Some(fs[f].id)
                    &&& player_replaced(a, *final(self), f, s, k, SessionPlayer { queue_expiration: minutes, ..pool[k] })
                } else {
                    r is None && *final(self) == a
                }
            }),
    {
        proof {
            lemma_format_with_user(self.formats@, user, 0);
        }
        let f = match self.find_user_format(user) {
            Some(f) => f,
            None => {
                return None;
            },
        };
        let s = match self.find_user_session(f, user) {
            Some(s) => s,
            None => {
                return None;
            },
        };
        proof {
            lemma_session_index(self.formats@[f as int].sessions@, user, 0);
        }
        let k = match find_player(&self.formats[f].sessions[s].pool, user) {
            Some(k) => k,
            None => {
                return None;
            },
        };
        let id = self.formats[f].id;
        let p = self.formats[f].sessions[s].pool[k];
        self.replace_player(f, s, k, SessionPlayer { queue_expiration: minutes, ..p });
        Some(id)
    }

    /// A runner presses Shuffle in format `fmt_id`: refused while a game is
    /// live, and until an idle or hot session holds the format's quota
    /// (0 for an unknown format).
    pub fn shuffle_check(&self, fmt_id: u8) -> (r: ShuffleCheck)
        ensures
            ({
                let fs = self.formats@;
                let f = format_index(fs, fmt_id, 0);
                let quota: u8 = if f < fs.len() { fs[f].quota } else { 0 };
                if f < fs.len() && any_live(fs[f].sessions@) {
                    r == ShuffleCheck::Live
                } else if f < fs.len() && any_full(fs[f].sessions@, quota as int) {
                    r == ShuffleCheck::Ready
                } else {
                    r == (ShuffleCheck::NotReady { quota })
                }
            }),
    {
        let f = match self.find_format(fmt_id) {
            Some(f) => f,
            None => {
                return ShuffleCheck::NotReady { quota: 0 };
            },
        };
        let ss = &self.formats[f].sessions;
        let quota = self.formats[f].quota;
        if some_live(ss) {
            return ShuffleCheck::Live;
        }
        let n = ss.len();
        let mut i: usize = 0;
        while i < n
            invariant
                f < self.formats@.len(),
                f as int == format_index(self.formats@, fmt_id, 0),
                ss@ == self.formats@[f as int].sessions@,
                quota == self.formats@[f as int].quota,
                !any_live(ss@),
                n == ss@.len(),
                i <= n,
                forall|k: int| 0 <= k < i ==> !((#[trigger] ss@[k].status == SessionStatus::Idle
                    || ss@[k].status == SessionStatus::Hot) && ss@[k].pool@.len() >= quota),
            decreases n - i,
        {
            if status_is(ss[i].status, SessionStatus::Idle, SessionStatus::Hot) && ss[i].pool.len() >= quota as usize {
                assert(any_full(ss@, quota as int));
                return ShuffleCheck::Ready;
            }
            i = i + 1;
        }
        ShuffleCheck::NotReady { quota }
    }

    /// A runner presses Start in format `fmt_id`: a ready session is
    /// needed, and no game of the format may be under way.
    pub fn start_check(&self, fmt_id: u8) -> (r: StartCheck)
        ensures
            ({
                let fs = self.formats@;
                let f = format_index(fs, fmt_id, 0);
                if !(f < fs.len() && any_hot(fs[f].sessions@)) {
                    r == StartCheck::NoHotGame
                } else if any_active(fs[f].sessions@) {
                    r == StartCheck::GameInProgress
                } else {
                    r == StartCheck::Start
                }
            }),
    {
        let f = match self.find_format(fmt_id) {
            Some(f) => f,
            None => {
                return StartCheck::NoHotGame;
            },
        };
        let ss = &self.formats[f].sessions;
        if !some_hot(ss) {
            StartCheck::NoHotGame
        } else if some_active(ss) {
            StartCheck::GameInProgress
        } else {
            StartCheck::Start
        }
    }

    /// Moves the first session of format `f` in stage `from` to stage
    /// `to`, recording `at` as the last runner action when given.
    fn restage(&mut self, f: usize, from: SessionStatus, to: SessionStatus, at: Option<u64>) -> (r: bool)
        requires
            f < old(self).formats@.len(),
        ensures
            ({
                let a = *old(self);
                let ss = a.formats@[f as int].sessions@;
                let s = first_status(ss, from, 0);
                if s < ss.len() {
                    let x = ss[s];
                    let y = final(self).formats@[f as int].sessions@[s];
                    &&& r
                    &&& only_session_changed(a, *final(self), f as int, s)
                    &&& same_but_stage(x, y)
                    &&& y.status == to
                    &&& y.last_action_at_ms == (match at { Some(t) => Some(t), None => x.last_action_at_ms })
                } else {
                    !r && *final(self) == a
                }
            }),
    {
        proof {
            lemma_first_status(self.formats@[f as int].sessions@, from, 0);
        }
        match find_status(&self.formats[f].sessions, from) {
            Some(s) => {
                self.formats[f].sessions[s].status = to;
                match at {
                    Some(t) => {
                        self.formats[f].sessions[s].last_action_at_ms = Some(t);
                    },
                    None => {},
                }
                true
            },
            None => false,
        }
    }

    /// Starting a game of format `fmt_id`: its first ready session moves
    /// to Push at once (so that a second press finds no ready session),
    /// with `now` as the last runner action. Gives whether a session moved.
    pub fn begin_start(&mut self, fmt_id: u8, now: u64) -> (r: bool)
        ensures
            ({
                let a = *old(self);
                let f = format_index(a.formats@, fmt_id, 0);
                if f < a.formats@.len() && first_status(a.formats@[f].sessions@, SessionStatus::Hot, 0) < a.formats@[f].sessions@.len() {
                    let s = first_status(a.formats@[f].sessions@, SessionStatus::Hot, 0);
                    let y = final(self).formats@[f].sessions@[s];
                    &&& r
                    &&& only_session_changed(a, *final(self), f, s)
                    &&& same_but_stage(a.formats@[f].sessions@[s], y)
                    &&& y.status == SessionStatus::Push
                    &&& y.last_action_at_ms == Some(now)
                } else {
                    !r && *final(self) == a
                }
            }),
    {
        match self.find_format(fmt_id) {
            Some(f) => self.restage(f, SessionStatus::Hot, SessionStatus::Push, Some(now)),
            None => false,
        }
    }

    /// Moving the players failed: the first session of format `fmt_id` in
    /// Push goes back to Hot. Gives whether a session moved.
    pub fn revert_start(&mut self, fmt_id: u8) -> (r: bool)
        ensures
            ({
                let a = *old(self);
                let f = format_index(a.formats@, fmt_id, 0);
                if f < a.formats@.len() && first_status(a.formats@[f].sessions@, SessionStatus::Push, 0) < a.formats@[f].sessions@.len() {
                    let s = first_status(a.formats@[f].sessions@, SessionStatus::Push, 0);
                    let y = final(self).formats@[f].sessions@[s];
                    &&& r
                    &&& only_session_changed(a, *final(self), f, s)
                    &&& same_but_stage(a.formats@[f].sessions@[s], y)
                    &&& y.status == SessionStatus::Hot
                    &&& y.last_action_at_ms == a.formats@[f].sessions@[s].last_action_at_ms
                } else {
                    !r && *final(self) == a
                }
            }),
    {
        match self.find_format(fmt_id) {
            Some(f) => self.restage(f, SessionStatus::Push, SessionStatus::Hot, None),
            None => false,
        }
    }

    /// A runner presses End in format `fmt_id`: a live or ready session is
    /// needed; then the score form when the category asks for the score,
    /// else the choice of the winning team.
    pub fn end_check(&self, fmt_id: u8) -> (r: EndCheck)
        ensures
            ({
                let fs = self.formats@;
                let f = format_index(fs, fmt_id, 0);
                if !(f < fs.len() && (any_live(fs[f].sessions@) || any_hot(fs[f].sessions@))) {
                    r == EndCheck::NoActiveMatch
                } else if self.require_score_report {
                    r == EndCheck::ReportScore
                } else {
                    r == EndCheck::ChooseWinner
                }
            }),
    {
        let f = match self.find_format(fmt_id) {
            Some(f) => f,
            None => {
                return EndCheck::NoActiveMatch;
            },
        };
        let ss = &self.formats[f].sessions;
        if !(some_live(ss) || some_hot(ss)) {
            EndCheck::NoActiveMatch
        } else if self.require_score_report {
            EndCheck::ReportScore
        } else {
            EndCheck::ChooseWinner
        }
    }
}

/// Session `z` is session `x` after its game was cancelled: back to idle,
/// with the queue order from before the game when one was kept, else
/// with an empty pool.
pub open spec fn reset_after_cancel(x: Session, z: Session) -> bool {
    &&& z.status == SessionStatus::Idle
    &&& z.pool@ == (match x.pre_match_pool { Some(p) => p@, None => Seq::empty() })
    &&& z.pre_match_pool is None
    &&& z.started_at_ms == x.started_at_ms
    &&& z.ready_at_ms == x.ready_at_ms
    &&& z.match_ended_at_ms == x.match_ended_at_ms
    &&& z.score_reported == x.score_reported
    &&& z.last_action_at_ms == x.last_action_at_ms
}

/// Category `b` is category `a` once the live session `s` of format `f`
/// was cancelled: `restored` tells whether a queue order from before the
/// game was kept, and `removed` how many empty idle sessions were dropped.
pub open spec fn cancelled_spec(a: Category, b: Category, f: int, s: int, restored: bool, removed: usize) -> bool {
    let ss = a.formats@[f].sessions@;
    &&& restored == ss[s].pre_match_pool is Some
    &&& removed + b.formats@[f].sessions@.len() == ss.len()
    &&& b.id == a.id && b.name == a.name && b.restarting == a.restarting
    &&& b.require_score_report == a.require_score_report
    &&& b.confirm_time == a.confirm_time && b.last_action == a.last_action
    &&& b.last_ping_ms == a.last_ping_ms
    &&& b.formats@.len() == a.formats@.len()
    &&& forall|i: int| 0 <= i < a.formats@.len() && i != f ==> #[trigger] b.formats@[i] == a.formats@[i]
    &&& b.formats@[f].id == a.formats@[f].id
    &&& b.formats@[f].name == a.formats@[f].name
    &&& b.formats@[f].quota == a.formats@[f].quota
    &&& b.formats@[f].connect_info == a.formats@[f].connect_info
    &&& exists|z: Session| #[trigger] reset_after_cancel(ss[s], z)
        && b.formats@[f].sessions@ == kept_sessions(ss.update(s, z))
}

/// What cancelling the game of format `fmt_id` at `now` gives and leaves,
/// from category `a` to category `b`.
pub open spec fn cancel_spec(a: Category, b: Category, fmt_id: u8, now: u64, r: CancelOutcome) -> bool {
    let f = format_index(a.formats@, fmt_id, 0);
    let ss = if f < a.formats@.len() { a.formats@[f].sessions@ } else { Seq::empty() };
    let s = first_status(ss, SessionStatus::Live, 0);
    if !(f < a.formats@.len() && s < ss.len()) {
        r == CancelOutcome::NoActiveMatch && b == a
    } else if !ss[s].spec_can_cancel_match(now) {
        r == CancelOutcome::TooLate && b == a
    } else {
        r matches CancelOutcome::Cancelled { restored, removed } && cancelled_spec(a, b, f, s, restored, removed)
    }
}

impl Category {
    /// A runner presses Cancel in format `fmt_id` at `now`: the first live
    /// session, if its game started less than five minutes ago, goes back
    /// to idle with the queue order from before the game (or empty when
    /// none was kept); then the format's empty idle sessions are dropped.
    pub fn cancel_match(&mut self, fmt_id: u8, now: u64) -> (r: CancelOutcome)
        ensures
            cancel_spec(*old(self), *final(self), fmt_id, now, r),
    {
        let f = match self.find_format(fmt_id) {
            Some(f) => f,
            None => {
                return CancelOutcome::NoActiveMatch;
            },
        };
        proof {
            lemma_first_status(self.formats@[f as int].sessions@, SessionStatus::Live, 0);
        }
        let s = match find_status(&self.formats[f].sessions, SessionStatus::Live) {
            Some(s) => s,
            None => {
                return CancelOutcome::NoActiveMatch;
            },
        };
        if !self.formats[f].sessions[s].can_cancel_match(now) {
            return CancelOutcome::TooLate;
        }
        let ghost a = *self;
        let ghost x = self.formats@[f as int].sessions@[s as int];
        let restored = match self.formats[f].sessions[s].pre_match_pool.take() {
            Some(p) => {
                self.formats[f].sessions[s].pool = p;
                true
            },
            None => {
                self.formats[f].sessions[s].pool.clear();
                false
            },
        };
        self.formats[f].sessions[s].idle();
        let ghost mid = self.formats@[f as int].sessions@;
        assert(reset_after_cancel(x, mid[s as int]));
        assert(mid =~= a.formats@[f as int].sessions@.update(s as int, mid[s as int]));
        let removed = self.formats[f].cleanup_empty_idle_sessions();
        let r = CancelOutcome::Cancelled { restored, removed };
        assert(self.formats@[f as int].quota == a.formats@[f as int].quota);
        assert(cancelled_spec(a, *self, f as int, s as int, restored, removed));
        assert(cancel_spec(a, *self, fmt_id, now, r));
        r
    }
}

} // verus!
