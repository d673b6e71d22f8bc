//! Queue categories, their formats and the sessions of each format, with
//! the state changes that players' and runners' buttons cause.

use vstd::prelude::*;
use vstd::string::*;
use crate::session::{SessionPlayer, SessionStatus};

verus! {

/// Milliseconds during which a started match can still be cancelled.
pub const CANCEL_WINDOW_MS: u64 = 300000;

/// A queue session of one format: its pool of players and its stage.
pub struct Session {
    pub status: SessionStatus,
    pub pool: Vec<SessionPlayer>,
    /// When the game was started, in milliseconds since the Unix epoch
    pub started_at_ms: Option<u64>,
    /// When the session went hot
    pub ready_at_ms: Option<u64>,
    /// When the previous match of these players ended
    pub match_ended_at_ms: Option<u64>,
    /// Whether the result was reported already
    pub score_reported: bool,
    /// The queue order before the match started
    pub pre_match_pool: Option<Vec<SessionPlayer>>,
    /// When a runner last acted on the session
    pub last_action_at_ms: Option<u64>,
}

/// Whether `user` is in the pool `p`.
pub open spec fn in_pool(p: Seq<SessionPlayer>, user: u64) -> bool {
    exists|i: int| 0 <= i < p.len() && #[trigger] p[i].user_id == user
}

/// Index of the first player of `p[i..]` who is `user` (or the length).
pub open spec fn first_index(p: Seq<SessionPlayer>, user: u64, i: int) -> int
    decreases p.len() - i,
{
    if 0 <= i < p.len() && p[i].user_id != user {
        first_index(p, user, i + 1)
    } else {
        i
    }
}

/// The pool without the first occurrence of `user` (unchanged when absent).
pub open spec fn pool_without(p: Seq<SessionPlayer>, user: u64) -> Seq<SessionPlayer> {
    let k = first_index(p, user, 0);
    if k < p.len() {
        p.remove(k)
    } else {
        p
    }
}

pub proof fn lemma_first_index(p: Seq<SessionPlayer>, user: u64, i: int)
    requires
        0 <= i <= p.len(),
    ensures
        i <= first_index(p, user, i) <= p.len(),
        forall|k: int| i <= k < first_index(p, user, i) ==> #[trigger] p[k].user_id != user,
        first_index(p, user, i) < p.len() ==> p[first_index(p, user, i)].user_id == user,
    decreases p.len() - i,
{
    if i < p.len() && p[i].user_id != user {
        lemma_first_index(p, user, i + 1);
    }
}

/// Finds `user` in `pool`.
pub fn find_player(pool: &Vec<SessionPlayer>, user: u64) -> (r: Option<usize>)
    ensures
        match r {
            Some(i) => i as int == first_index(pool@, user, 0) && i < pool@.len()
                && pool@[i as int].user_id == user && in_pool(pool@, user),
            None => first_index(pool@, user, 0) == pool@.len() && !in_pool(pool@, user),
        },
{
    let n = pool.len();
    let mut i: usize = 0;
    while i < n
        invariant
            n == pool@.len(),
            i <= n,
            first_index(pool@, user, 0) == first_index(pool@, user, i as int),
            forall|k: int| 0 <= k < i ==> #[trigger] pool@[k].user_id != user,
        decreases n - i,
    {
        if pool[i].user_id == user {
            assert(pool@[i as int].user_id == user);
            return Some(i);
        }
        i = i + 1;
    }
    None
}

impl Session {
    /// An idle session with the given pool.
    pub fn new(pool: Vec<SessionPlayer>) -> (r: Session)
        ensures
            r.status == SessionStatus::Idle,
            r.pool@ == pool@,
            r.started_at_ms is None,
            r.pre_match_pool is None,
            !r.score_reported,
    {
        Session {
            status: SessionStatus::Idle,
            pool,
            started_at_ms: None,
            ready_at_ms: None,
            match_ended_at_ms: None,
            score_reported: false,
            pre_match_pool: None,
            last_action_at_ms: None,
        }
    }

    /// Whether the session is waiting for runners to start it.
    pub fn is_hot(&self) -> (r: bool)
        ensures
            r == (self.status == SessionStatus::Hot),
    {
        match self.status {
            SessionStatus::Hot => true,
            _ => false,
        }
    }

    /// Whether the session is waiting for enough players.
    pub fn is_idle(&self) -> (r: bool)
        ensures
            r == (self.status == SessionStatus::Idle),
    {
        match self.status {
            SessionStatus::Idle => true,
            _ => false,
        }
    }

    /// Whether a game is under way (Push, Live or Pull).
    pub fn is_active(&self) -> (r: bool)
        ensures
            r == self.status.spec_is_active(),
    {
        self.status.is_active()
    }

    /// Back to waiting for players.
    pub fn idle(&mut self)
        ensures
            final(self).status == SessionStatus::Idle,
            final(self).pool@ == old(self).pool@,
            final(self).started_at_ms == old(self).started_at_ms,
            final(self).ready_at_ms == old(self).ready_at_ms,
            final(self).match_ended_at_ms == old(self).match_ended_at_ms,
            final(self).score_reported == old(self).score_reported,
            final(self).pre_match_pool == old(self).pre_match_pool,
            final(self).last_action_at_ms == old(self).last_action_at_ms,
    {
        self.status = SessionStatus::Idle;
    }

    /// Ready to start.
    pub fn hot(&mut self)
        ensures
            final(self).status == SessionStatus::Hot,
            final(self).pool@ == old(self).pool@,
            final(self).started_at_ms == old(self).started_at_ms,
            final(self).ready_at_ms == old(self).ready_at_ms,
            final(self).match_ended_at_ms == old(self).match_ended_at_ms,
            final(self).score_reported == old(self).score_reported,
            final(self).pre_match_pool == old(self).pre_match_pool,
            final(self).last_action_at_ms == old(self).last_action_at_ms,
    {
        self.status = SessionStatus::Hot;
    }

    /// Moving players to the team channels.
    pub fn push(&mut self)
        ensures
            final(self).status == SessionStatus::Push,
            final(self).pool@ == old(self).pool@,
            final(self).started_at_ms == old(self).started_at_ms,
            final(self).ready_at_ms == old(self).ready_at_ms,
            final(self).match_ended_at_ms == old(self).match_ended_at_ms,
            final(self).score_reported == old(self).score_reported,
            final(self).pre_match_pool == old(self).pre_match_pool,
            final(self).last_action_at_ms == old(self).last_action_at_ms,
    {
        self.status = SessionStatus::Push;
    }

    /// Game under way.
    pub fn live(&mut self)
        ensures
            final(self).status == SessionStatus::Live,
            final(self).pool@ == old(self).pool@,
            final(self).started_at_ms == old(self).started_at_ms,
            final(self).ready_at_ms == old(self).ready_at_ms,
            final(self).match_ended_at_ms == old(self).match_ended_at_ms,
            final(self).score_reported == old(self).score_reported,
            final(self).pre_match_pool == old(self).pre_match_pool,
            final(self).last_action_at_ms == old(self).last_action_at_ms,
    {
        self.status = SessionStatus::Live;
    }

    /// Moving players back to the queue.
    pub fn pull(&mut self)
        ensures
            final(self).status == SessionStatus::Pull,
            final(self).pool@ == old(self).pool@,
            final(self).started_at_ms == old(self).started_at_ms,
            final(self).ready_at_ms == old(self).ready_at_ms,
            final(self).match_ended_at_ms == old(self).match_ended_at_ms,
            final(self).score_reported == old(self).score_reported,
            final(self).pre_match_pool == old(self).pre_match_pool,
            final(self).last_action_at_ms == old(self).last_action_at_ms,
    {
        self.status = SessionStatus::Pull;
    }

    /// Removes the first entry of `user` from the pool, if any; gives whether
    /// one was removed.
    pub fn remove_player(&mut self, user: u64) -> (r: bool)
        ensures
            r == in_pool(old(self).pool@, user),
            final(self).pool@ == pool_without(old(self).pool@, user),
            final(self).status == old(self).status,
            final(self).started_at_ms == old(self).started_at_ms,
            final(self).pre_match_pool == old(self).pre_match_pool,
            final(self).ready_at_ms == old(self).ready_at_ms,
            final(self).match_ended_at_ms == old(self).match_ended_at_ms,
            final(self).score_reported == old(self).score_reported,
            final(self).last_action_at_ms == old(self).last_action_at_ms,
    {
        proof {
            lemma_first_index(self.pool@, user, 0);
        }
        match find_player(&self.pool, user) {
            Some(i) => {
                self.pool.remove(i);
                true
            },
            None => false,
        }
    }

    /// Whether the match started less than five minutes before `now` (or
    /// has no start time), so that it can still be cancelled.
    pub open spec fn spec_can_cancel_match(&self, now: u64) -> bool {
        match self.started_at_ms {
            Some(t) => !(now >= t && now - t >= CANCEL_WINDOW_MS),
            None => true,
        }
    }

    /// Whether the match can still be cancelled at `now` (milliseconds).
    pub fn can_cancel_match(&self, now: u64) -> (r: bool)
        ensures
            r == self.spec_can_cancel_match(now),
    {
        match self.started_at_ms {
            Some(t) => !(now >= t && now - t >= CANCEL_WINDOW_MS),
            None => true,
        }
    }
}

/// A started match can be cancelled exactly while less than five minutes
/// (300000 ms) have passed since its start, and once that time is over it
/// stays over; a match without a start time can always be cancelled.
pub proof fn lemma_cancel_window(s: Session, now: u64, later: u64)
    ensures
        s.started_at_ms is None ==> s.spec_can_cancel_match(now),
        s.started_at_ms is Some && s.started_at_ms.unwrap() <= now
            ==> (s.spec_can_cancel_match(now) <==> now - s.started_at_ms.unwrap() < 5 * 60 * 1000),
        now <= later && !s.spec_can_cancel_match(now) ==> !s.spec_can_cancel_match(later),
{
}

/// A format of a category (such as 6v6 or 4v4) with its own queue.
pub struct Format {
    pub id: u8,
    pub name: String,
    pub quota: u8,
    pub sessions: Vec<Session>,
    pub connect_info: Option<String>,
}

/// Whether a session stays when empty idle sessions are dropped.
pub open spec fn keep_session(s: Session) -> bool {
    !(s.status == SessionStatus::Idle && s.pool@.len() == 0)
}

/// The sessions of `ss` that stay, in order, when empty idle sessions
/// are dropped.
pub open spec fn kept_sessions(ss: Seq<Session>) -> Seq<Session> {
    ss.filter(|s: Session| keep_session(s))
}

impl Format {
    /// Removes the idle sessions whose pool is empty, keeping the others in
    /// order; gives how many were removed.
    pub fn cleanup_empty_idle_sessions(&mut self) -> (r: usize)
        ensures
            final(self).sessions@ == kept_sessions(old(self).sessions@),
            r + final(self).sessions@.len() == old(self).sessions@.len(),
            final(self).id == old(self).id,
            final(self).quota == old(self).quota,
            final(self).name == old(self).name,
            final(self).connect_info == old(self).connect_info,
    {
        let n = self.sessions.len();
        let mut kept: Vec<Session> = Vec::new();
        let mut removed: usize = 0;
        let mut old_sessions: Vec<Session> = Vec::new();
        std::mem::swap(&mut old_sessions, &mut self.sessions);
        let ghost orig = old_sessions@;
        let mut i: usize = 0;
        while i < n
            invariant
                n == orig.len(),
                old_sessions@.len() == n - i,
                forall|k: int| 0 <= k < old_sessions@.len() ==> #[trigger] old_sessions@[k] == orig[i + k],
                i <= n,
                removed + kept@.len() == i,
                kept@ == kept_sessions(orig.take(i as int)),
            decreases n - i,
        {
            let ghost before = old_sessions@;
            let s = old_sessions.remove(0);
            assert(s == orig[i as int]);
            assert forall|k: int| 0 <= k < old_sessions@.len() implies #[trigger] old_sessions@[k] == orig[i + 1 + k] by {
                assert(old_sessions@[k] == before[k + 1]);
            }
            assert(orig.take(i as int + 1).drop_last() =~= orig.take(i as int));
            assert(orig.take(i as int + 1).last() == s);
            proof {
                reveal(Seq::filter);
            }
            if s.is_idle() && s.pool.len() == 0 {
                removed = removed + 1;
            } else {
                kept.push(s);
            }
            i = i + 1;
        }
        assert(orig.take(n as int) =~= orig);
        self.sessions = kept;
        removed
    }
}

/// A game is stale after this many milliseconds.
pub const SESSION_MAX_AGE_MS: u64 = 3600000;

/// Whether a session is kept after a restart at `now`: it was not started
/// more than an hour before.
pub open spec fn fresh_session(s: Session, now: u64) -> bool {
    match s.started_at_ms {
        Some(t) => !(now >= t && now - t > SESSION_MAX_AGE_MS),
        None => true,
    }
}

impl Format {
    /// Drops the sessions started more than an hour before `now`, keeping
    /// the others in order.
    pub fn drop_stale_sessions(&mut self, now: u64)
        ensures
            final(self).sessions@ == old(self).sessions@.filter(|s: Session| fresh_session(s, now)),
            final(self).id == old(self).id,
            final(self).quota == old(self).quota,
            final(self).name == old(self).name,
            final(self).connect_info == old(self).connect_info,
    {
        let n = self.sessions.len();
        let mut kept: Vec<Session> = Vec::new();
        let mut old_sessions: Vec<Session> = Vec::new();
        std::mem::swap(&mut old_sessions, &mut self.sessions);
        let ghost orig = old_sessions@;
        let mut i: usize = 0;
        while i < n
            invariant
                n == orig.len(),
                old_sessions@.len() == n - i,
                forall|k: int| 0 <= k < old_sessions@.len() ==> #[trigger] old_sessions@[k] == orig[i + k],
                i <= n,
                kept@ == orig.take(i as int).filter(|s: Session| fresh_session(s, now)),
            decreases n - i,
        {
            let ghost before = old_sessions@;
            let s = old_sessions.remove(0);
            assert(s == orig[i as int]);
            assert forall|k: int| 0 <= k < old_sessions@.len() implies #[trigger] old_sessions@[k] == orig[i + 1 + k] by {
                assert(old_sessions@[k] == before[k + 1]);
            }
            assert(orig.take(i as int + 1).drop_last() =~= orig.take(i as int));
            assert(orig.take(i as int + 1).last() == s);
            proof {
                reveal(Seq::filter);
            }
            let stale = match s.started_at_ms {
                Some(t) => now >= t && now - t > SESSION_MAX_AGE_MS,
                None => false,
            };
            if !stale {
                kept.push(s);
            }
            i = i + 1;
        }
        assert(orig.take(n as int) =~= orig);
        self.sessions = kept;
    }
}

/// A queue category: its formats and dashboard state.
pub struct Category {
    pub id: u8,
    pub name: Option<String>,
    pub formats: Vec<Format>,
    /// Whether the bot is restarting (only live games can be ended)
    pub restarting: bool,
    /// Whether ending a match asks for the score
    pub require_score_report: bool,
    /// Seconds players have to join when a game is ready
    pub confirm_time: u16,
    /// (user tag, action description, time in milliseconds) of the last
    /// dashboard action
    pub last_action: Option<(String, String, u64)>,
    /// When the last ping went out, in milliseconds
    pub last_ping_ms: Option<u64>,
}

impl Category {
    /// Records `user_tag` doing `action` at `now` (milliseconds) as the
    /// last action shown on the dashboard.
    pub fn set_last_action(&mut self, user_tag: String, action: &str, now: u64)
        ensures
            final(self).last_action matches Some((t, a, ts)) && t == user_tag && a@ == action@ && ts == now,
            final(self).formats == old(self).formats,
            final(self).id == old(self).id,
            final(self).name == old(self).name,
            final(self).restarting == old(self).restarting,
            final(self).require_score_report == old(self).require_score_report,
            final(self).confirm_time == old(self).confirm_time,
            final(self).last_ping_ms == old(self).last_ping_ms,
    {
        self.last_action = Some((user_tag, String::from_str(action), now));
    }
}

/// Index of the first format with id `fmt_id` in `fs[i..]` (or the length).
pub open spec fn format_index(fs: Seq<Format>, fmt_id: u8, i: int) -> int
    decreases fs.len() - i,
{
    if 0 <= i < fs.len() && fs[i].id != fmt_id {
        format_index(fs, fmt_id, i + 1)
    } else {
        i
    }
}

/// Index of the first session of `ss[i..]` whose pool holds `user` (or the
/// length).
pub open spec fn session_index(ss: Seq<Session>, user: u64, i: int) -> int
    decreases ss.len() - i,
{
    if 0 <= i < ss.len() && !in_pool(ss[i].pool@, user) {
        session_index(ss, user, i + 1)
    } else {
        i
    }
}

/// Whether `user` is queued in a format of `fs` other than `fmt_id`.
pub open spec fn in_other_formats(fs: Seq<Format>, fmt_id: u8, user: u64) -> bool {
    exists|i: int, j: int| 0 <= i < fs.len() && fs[i].id != fmt_id && 0 <= j < fs[i].sessions@.len()
        && #[trigger] in_pool(fs[i].sessions@[j].pool@, user)
}

pub proof fn lemma_format_index(fs: Seq<Format>, fmt_id: u8, i: int)
    requires
        0 <= i <= fs.len(),
    ensures
        i <= format_index(fs, fmt_id, i) <= fs.len(),
        forall|k: int| i <= k < format_index(fs, fmt_id, i) ==> #[trigger] fs[k].id != fmt_id,
        format_index(fs, fmt_id, i) < fs.len() ==> fs[format_index(fs, fmt_id, i)].id == fmt_id,
    decreases fs.len() - i,
{
    if i < fs.len() && fs[i].id != fmt_id {
        lemma_format_index(fs, fmt_id, i + 1);
    }
}

pub proof fn lemma_session_index(ss: Seq<Session>, user: u64, i: int)
    requires
        0 <= i <= ss.len(),
    ensures
        i <= session_index(ss, user, i) <= ss.len(),
        forall|k: int| i <= k < session_index(ss, user, i) ==> !in_pool(#[trigger] ss[k].pool@, user),
        session_index(ss, user, i) < ss.len() ==> in_pool(ss[session_index(ss, user, i)].pool@, user),
    decreases ss.len() - i,
{
    if i < ss.len() && !in_pool(ss[i].pool@, user) {
        lemma_session_index(ss, user, i + 1);
    }
}

/// Outcome of a player pressing Leave.
#[derive(Debug, Clone, Copy, PartialEq, Eq)]
pub enum LeaveOutcome {
    /// The player is not queued in the format
    NotInQueue,
    /// The player's match is live; leaving is refused
    LiveMatch,
    /// The player is disconnected from voice, which removes them
    DisconnectFromVoice,
    /// The player was removed; teams must be made again when asked
    Left { regenerate_teams: bool },
}

/// The reply the player gets for an outcome of Leave: only a refused
/// leave is answered.
pub open spec fn leave_reply_spec(o: LeaveOutcome) -> Option<Seq<char>> {
    match o {
        LeaveOutcome::LiveMatch => Some("You cannot leave during a live match. Please find a substitute if needed."@),
        _ => None,
    }
}

impl LeaveOutcome {
    /// The reply the player gets for this outcome, if any.
    pub fn reply(&self) -> (r: Option<&'static str>)
        ensures
            match leave_reply_spec(*self) {
                Some(t) => r is Some && r.unwrap()@ == t,
                None => r is None,
            },
    {
        match self {
            LeaveOutcome::LiveMatch => Some("You cannot leave during a live match. Please find a substitute if needed."),
            _ => None,
        }
    }
}

/// `b` is `a` but for its formats.
pub open spec fn same_but_formats(a: Category, b: Category) -> bool {
    &&& b.id == a.id
    &&& b.name == a.name
    &&& b.restarting == a.restarting
    &&& b.require_score_report == a.require_score_report
    &&& b.confirm_time == a.confirm_time
    &&& b.last_action == a.last_action
    &&& b.last_ping_ms == a.last_ping_ms
}

impl Category {
    /// Index of the format with id `fmt_id`.
    pub fn find_format(&self, fmt_id: u8) -> (r: Option<usize>)
        ensures
            match r {
                Some(i) => i as int == format_index(self.formats@, fmt_id, 0) && i < self.formats@.len(),
                None => format_index(self.formats@, fmt_id, 0) == self.formats@.len(),
            },
    {
        let n = self.formats.len();
        let mut i: usize = 0;
        while i < n
            invariant
                n == self.formats@.len(),
                i <= n,
                format_index(self.formats@, fmt_id, 0) == format_index(self.formats@, fmt_id, i as int),
            decreases n - i,
        {
            if self.formats[i].id == fmt_id {
                return Some(i);
            }
            i = i + 1;
        }
        None
    }

    /// Index of the first session of format `f` that holds `user`.
    pub fn find_user_session(&self, f: usize, user: u64) -> (r: Option<usize>)
        requires
            f < self.formats@.len(),
        ensures
            match r {
                Some(s) => s as int == session_index(self.formats@[f as int].sessions@, user, 0)
                    && s < self.formats@[f as int].sessions@.len(),
                None => session_index(self.formats@[f as int].sessions@, user, 0) == self.formats@[f as int].sessions@.len(),
            },
    {
        let ss = &self.formats[f].sessions;
        let n = ss.len();
        let mut i: usize = 0;
        while i < n
            invariant
                f < self.formats@.len(),
                ss@ == self.formats@[f as int].sessions@,
                n == ss@.len(),
                i <= n,
                session_index(ss@, user, 0) == session_index(ss@, user, i as int),
            decreases n - i,
        {
            if find_player(&ss[i].pool, user).is_some() {
                assert(in_pool(ss@[i as int].pool@, user));
                return Some(i);
            }
            i = i + 1;
        }
        None
    }

    /// Whether `user` is queued in a format other than `fmt_id`.
    pub fn is_user_in_other_fmts(&self, fmt_id: u8, user: u64) -> (r: bool)
        ensures
            r == in_other_formats(self.formats@, fmt_id, user),
    {
        let n = self.formats.len();
        let mut i: usize = 0;
        while i < n
            invariant
                n == self.formats@.len(),
                i <= n,
                forall|a: int, b: int| 0 <= a < i && self.formats@[a].id != fmt_id && 0 <= b < self.formats@[a].sessions@.len()
                    ==> !#[trigger] in_pool(self.formats@[a].sessions@[b].pool@, user),
            decreases n - i,
        {
            if self.formats[i].id != fmt_id {
                let ss = &self.formats[i].sessions;
                let m = ss.len();
                let mut j: usize = 0;
                while j < m
                    invariant
                        n == self.formats@.len(),
                        i < n,
                        self.formats@[i as int].id != fmt_id,
                        m == ss@.len(),
                        ss@ == self.formats@[i as int].sessions@,
                        j <= m,
                        forall|b: int| 0 <= b < j ==> !#[trigger] in_pool(ss@[b].pool@, user),
                    decreases m - j,
                {
                    if find_player(&ss[j].pool, user).is_some() {
                        assert(in_pool(self.formats@[i as int].sessions@[j as int].pool@, user));
                        assert(in_other_formats(self.formats@, fmt_id, user));
                        return true;
                    }
                    j = j + 1;
                }
            }
            i = i + 1;
        }
        false
    }

    /// A player presses Leave in format `fmt_id`. Refused during a live
    /// match. A player sitting in the queue voice channel and queued in no
    /// other format, who asked to leave voice with the queue
    /// (`vc_auto_leave`), is disconnected instead (the voice handler then
    /// removes them). Otherwise the player is removed from their session;
    /// a hot session that drops below the quota goes back to idle, and one
    /// that still meets it needs new teams.
    pub fn leave_queue(&mut self, fmt_id: u8, user: u64, vc_auto_leave: bool) -> (r: LeaveOutcome)
        ensures
            ({
                let fs = old(self).formats@;
                let f = format_index(fs, fmt_id, 0);
                let s = if f < fs.len() { session_index(fs[f].sessions@, user, 0) } else { 0 };
                if f >= fs.len() || s >= fs[f].sessions@.len() {
                    r == LeaveOutcome::NotInQueue && final(self).formats@ == fs
                } else {
                    let sess = fs[f].sessions@[s];
                    let p = sess.pool@[first_index(sess.pool@, user, 0)];
                    if sess.status == SessionStatus::Live {
                        r == LeaveOutcome::LiveMatch && final(self).formats@ == fs
                    } else if p.in_vc && !in_other_formats(fs, fmt_id, user) && vc_auto_leave {
                        r == LeaveOutcome::DisconnectFromVoice && final(self).formats@ == fs
                    } else {
                        let new_pool = pool_without(sess.pool@, user);
                        let quota = fs[f].quota as int;
                        let ns = final(self).formats@[f].sessions@[s];
                        &&& final(self).formats@.len() == fs.len()
                        &&& forall|i: int| 0 <= i < fs.len() && i != f ==> #[trigger] final(self).formats@[i] == fs[i]
                        &&& final(self).formats@[f].sessions@.len() == fs[f].sessions@.len()
                        &&& forall|j: int| 0 <= j < fs[f].sessions@.len() && j != s ==> #[trigger] final(self).formats@[f].sessions@[j] == fs[f].sessions@[j]
                        &&& final(self).formats@[f].id == fs[f].id
                        &&& final(self).formats@[f].quota == fs[f].quota
                        &&& ns.pool@ == new_pool
                        &&& ns.started_at_ms == sess.started_at_ms
                        &&& ns.pre_match_pool == sess.pre_match_pool
                        &&& if sess.status == SessionStatus::Hot {
                            if new_pool.len() < quota {
                                ns.status == SessionStatus::Idle && r == (LeaveOutcome::Left { regenerate_teams: false })
                            } else {
                                ns.status == SessionStatus::Hot && r == (LeaveOutcome::Left { regenerate_teams: true })
                            }
                        } else {
                            ns.status == sess.status && r == (LeaveOutcome::Left { regenerate_teams: false })
                        }
                    }
                }
            }),
            same_but_formats(*old(self), *final(self)),
    {
        let f = match self.find_format(fmt_id) {
            Some(f) => f,
            None => {
                return LeaveOutcome::NotInQueue;
            },
        };
        let s = match self.find_user_session(f, user) {
            Some(s) => s,
            None => {
                return LeaveOutcome::NotInQueue;
            },
        };
        proof {
            lemma_format_index(self.formats@, fmt_id, 0);
            lemma_session_index(self.formats@[f as int].sessions@, user, 0);
        }
        let quota = self.formats[f].quota as usize;
        let live = match self.formats[f].sessions[s].status {
            SessionStatus::Live => true,
            _ => false,
        };
        if live {
            return LeaveOutcome::LiveMatch;
        }
        proof {
            lemma_first_index(self.formats@[f as int].sessions@[s as int].pool@, user, 0);
        }
        let k = match find_player(&self.formats[f].sessions[s].pool, user) {
            Some(k) => k,
            None => {
                return LeaveOutcome::NotInQueue;
            },
        };
        let in_vc = self.formats[f].sessions[s].pool[k].in_vc;
        let other = self.is_user_in_other_fmts(fmt_id, user);
        if in_vc && !other && vc_auto_leave {
            return LeaveOutcome::DisconnectFromVoice;
        }
        let was_hot = self.formats[f].sessions[s].is_hot();
        self.formats[f].sessions[s].remove_player(user);
        let pool_len = self.formats[f].sessions[s].pool.len();
        if was_hot {
            if pool_len < quota {
                self.formats[f].sessions[s].idle();
                LeaveOutcome::Left { regenerate_teams: false }
            } else {
                LeaveOutcome::Left { regenerate_teams: true }
            }
        } else {
            LeaveOutcome::Left { regenerate_teams: false }
        }
    }
}

} // verus!
