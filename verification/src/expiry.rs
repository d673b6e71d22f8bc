//! A player's queue timeout running out: they leave every format they wait
//! in, and a ready session that no longer holds its quota waits again.

use vstd::prelude::*;
use crate::session::SessionStatus;
use crate::category::{Session, Format, Category, session_index, pool_without, lemma_session_index, find_player, in_pool};

use crate::guilds::{guild_index, find_guild};
use crate::manager::Manager;

verus! {

/// Identifies the queue timeout of a player in a format.
#[derive(Debug, Clone, Copy, PartialEq, Eq, Structural)]
pub struct QueueExpirationKey {
    pub guild_id: u64,
    pub category_id: u8,
    pub format_id: u8,
    pub user_id: u64,
}

impl QueueExpirationKey {
    /// The key of a player's timeout in a format.
    pub fn new(guild_id: u64, category_id: u8, format_id: u8, user_id: u64) -> (r: Self)
        ensures
            r == (QueueExpirationKey { guild_id, category_id, format_id, user_id }),
    {
        QueueExpirationKey { guild_id, category_id, format_id, user_id }
    }
}

/// The keys of `keys` that belong to guild `guild_id`, in order: the
/// timeouts to cancel when all of a guild's are.
pub fn keys_for_guild(keys: &Vec<QueueExpirationKey>, guild_id: u64) -> (r: Vec<QueueExpirationKey>)
    ensures
        r@ == keys@.filter(|k: QueueExpirationKey| k.guild_id == guild_id),
{
    let n = keys.len();
    let mut out: Vec<QueueExpirationKey> = Vec::new();
    let mut i: usize = 0;
    while i < n
        invariant
            n == keys@.len(),
            i <= n,
            out@ == keys@.take(i as int).filter(|k: QueueExpirationKey| k.guild_id == guild_id),
        decreases n - i,
    {
        assert(keys@.take(i as int + 1).drop_last() =~= keys@.take(i as int));
        proof {
            reveal(Seq::filter);
        }
        if keys[i].guild_id == guild_id {
            out.push(keys[i]);
        }
        i = i + 1;
    }
    assert(keys@.take(n as int) =~= keys@);
    out
}

/// Format `b` is format `a` once `user`'s timeout ran out: the first
/// session holding them loses their first entry, and goes back to idle if
/// it was ready and no longer holds the quota.
pub open spec fn format_expired(a: Format, b: Format, user: u64) -> bool {
    let ss = a.sessions@;
    let s = session_index(ss, user, 0);
    &&& b.id == a.id && b.name == a.name && b.quota == a.quota && b.connect_info == a.connect_info
    &&& b.sessions@.len() == ss.len()
    &&& forall|j: int| 0 <= j < ss.len() && j != s ==> #[trigger] b.sessions@[j] == ss[j]
    &&& s < ss.len() ==> {
        let x = ss[s];
        let y = b.sessions@[s];
        let left = pool_without(x.pool@, user);
        &&& y.pool@ == left
        &&& y.status == (if x.status == SessionStatus::Hot && left.len() < a.quota { SessionStatus::Idle } else { x.status })
        &&& y.started_at_ms == x.started_at_ms
        &&& y.ready_at_ms == x.ready_at_ms
        &&& y.match_ended_at_ms == x.match_ended_at_ms
        &&& y.score_reported == x.score_reported
        &&& y.pre_match_pool == x.pre_match_pool
        &&& y.last_action_at_ms == x.last_action_at_ms
    }
}

impl Format {
    fn find_session(&self, user: u64) -> (r: Option<usize>)
        ensures
            match r {
                Some(s) => s as int == session_index(self.sessions@, user, 0) && s < self.sessions@.len(),
                None => session_index(self.sessions@, user, 0) == self.sessions@.len(),
            },
    {
        let n = self.sessions.len();
        let mut i: usize = 0;
        while i < n
            invariant
                n == self.sessions@.len(),
                i <= n,
                session_index(self.sessions@, user, 0) == session_index(self.sessions@, user, i as int),
            decreases n - i,
        {
            if find_player(&self.sessions[i].pool, user).is_some() {
                return Some(i);
            }
            i = i + 1;
        }
        None
    }

    /// `user`'s timeout ran out in this format; gives whether they were
    /// waiting in it.
    pub fn expire_player(&mut self, user: u64) -> (r: bool)
        ensures
            format_expired(*old(self), *final(self), user),
            r == (session_index(old(self).sessions@, user, 0) < old(self).sessions@.len()),
    {
        proof {
            lemma_session_index(self.sessions@, user, 0);
        }
        match self.find_session(user) {
            Some(s) => {
                self.sessions[s].remove_player(user);
                let below = self.sessions[s].pool.len() < self.quota as usize;
                if self.sessions[s].is_hot() && below {
                    self.sessions[s].idle();
                }
                true
            },
            None => false,
        }
    }
}

impl Category {
    /// `user`'s queue timeout ran out: they leave the first session holding
    /// them in every format. Gives whether they waited anywhere.
    pub fn expire_player(&mut self, user: u64) -> (r: bool)
        ensures
            final(self).id == old(self).id,
            final(self).name == old(self).name,
            final(self).restarting == old(self).restarting,
            final(self).require_score_report == old(self).require_score_report,
            final(self).confirm_time == old(self).confirm_time,
            final(self).last_action == old(self).last_action,
            final(self).last_ping_ms == old(self).last_ping_ms,
            final(self).formats@.len() == old(self).formats@.len(),
            forall|f: int| 0 <= f < old(self).formats@.len() ==> #[trigger] format_expired(old(self).formats@[f], final(self).formats@[f], user),
            r == exists|f: int| 0 <= f < old(self).formats@.len()
                && session_index(#[trigger] old(self).formats@[f].sessions@, user, 0) < old(self).formats@[f].sessions@.len(),
    {
        let ghost orig = self.formats@;
        let n = self.formats.len();
        let mut any = false;
        let mut i: usize = 0;
        while i < n
            invariant
                n == orig.len(),
                self.formats@.len() == n,
                self.id == old(self).id && self.name == old(self).name && self.restarting == old(self).restarting,
                self.require_score_report == old(self).require_score_report,
                self.confirm_time == old(self).confirm_time && self.last_action == old(self).last_action,
                self.last_ping_ms == old(self).last_ping_ms,
                orig == old(self).formats@,
                i <= n,
                forall|f: int| 0 <= f < i ==> #[trigger] format_expired(orig[f], self.formats@[f], user),
                forall|f: int| i <= f < n ==> #[trigger] self.formats@[f] == orig[f],
                any == exists|f: int| 0 <= f < i && session_index(#[trigger] orig[f].sessions@, user, 0) < orig[f].sessions@.len(),
            decreases n - i,
        {
            let got = self.formats[i].expire_player(user);
            any = any || got;
            i = i + 1;
        }
        any
    }
}

/// Category `n` is category `o` once `user`'s queue timeout ran out.
pub open spec fn category_expired(o: Category, n: Category, user: u64) -> bool {
    &&& n.id == o.id
    &&& n.name == o.name
    &&& n.restarting == o.restarting
    &&& n.require_score_report == o.require_score_report
    &&& n.confirm_time == o.confirm_time
    &&& n.last_action == o.last_action
    &&& n.last_ping_ms == o.last_ping_ms
    &&& n.formats@.len() == o.formats@.len()
    &&& forall|f: int| 0 <= f < o.formats@.len() ==> #[trigger] format_expired(o.formats@[f], n.formats@[f], user)
}

/// Whether `user` waits in some format of `c`.
pub open spec fn waits_in(c: Category, user: u64) -> bool {
    exists|f: int| 0 <= f < c.formats@.len() && session_index(#[trigger] c.formats@[f].sessions@, user, 0) < c.formats@[f].sessions@.len()
}

/// Whether `user` waits in some category of `cs`.
pub open spec fn waits_in_some(cs: Seq<Category>, user: u64) -> bool
    decreases cs.len(),
{
    cs.len() > 0 && (waits_in_some(cs.drop_last(), user) || waits_in(cs.last(), user))
}

/// The categories whose dashboards are refreshed after `user`'s timeout:
/// the first category they waited in and every one after it.
pub open spec fn expiry_updates(cs: Seq<Category>, user: u64) -> Seq<u8>
    decreases cs.len(),
{
    if cs.len() == 0 {
        Seq::empty()
    } else if waits_in_some(cs, user) {
        expiry_updates(cs.drop_last(), user).push(cs.last().id)
    } else {
        expiry_updates(cs.drop_last(), user)
    }
}

impl Manager {
    /// `user`'s queue timeout ran out in guild `guild_id`: they leave every
    /// category. Gives the ids of the categories whose dashboards are to be
    /// refreshed; none when the guild is unknown.
    pub fn expire_player(&mut self, guild_id: u64, user: u64) -> (r: Option<Vec<u8>>)
        ensures
            ({
                let gs = old(self).qguilds@;
                let gi = guild_index(gs, guild_id, 0);
                if gi < gs.len() {
                    let cs = gs[gi].categories@;
                    &&& r matches Some(ids) && ids@ == expiry_updates(cs, user)
                    &&& final(self).qguilds@.len() == gs.len()
                    &&& forall|k: int| 0 <= k < gs.len() && k != gi ==> #[trigger] final(self).qguilds@[k] == gs[k]
                    &&& final(self).qguilds@[gi].id == gs[gi].id
                    &&& final(self).qguilds@[gi].name == gs[gi].name
                    &&& final(self).qguilds@[gi].categories@.len() == cs.len()
                    &&& forall|c: int| 0 <= c < cs.len()
                        ==> category_expired(cs[c], #[trigger] final(self).qguilds@[gi].categories@[c], user)
                } else {
                    r is None && final(self).qguilds@ == gs
                }
            }),
            final(self).score_submissions == old(self).score_submissions,
            final(self).match_starts == old(self).match_starts,
            final(self).interactions == old(self).interactions,
    {
        let gi = match find_guild(&self.qguilds, guild_id) {
            Some(i) => i,
            None => {
                return None;
            },
        };
        let ghost gs = self.qguilds@;
        let ghost cs = gs[gi as int].categories@;
        let n = self.qguilds[gi].categories.len();
        let mut ids: Vec<u8> = Vec::new();
        let mut seen = false;
        let mut c: usize = 0;
        while c < n
            invariant
                gi < gs.len(),
                gi as int == guild_index(gs, guild_id, 0),
                cs == gs[gi as int].categories@,
                n == cs.len(),
                c <= n,
                self.qguilds@.len() == gs.len(),
                forall|k: int| 0 <= k < gs.len() && k != gi ==> #[trigger] self.qguilds@[k] == gs[k],
                self.qguilds@[gi as int].id == gs[gi as int].id,
                self.qguilds@[gi as int].name == gs[gi as int].name,
                self.qguilds@[gi as int].categories@.len() == n,
                forall|t: int| c <= t < n ==> #[trigger] self.qguilds@[gi as int].categories@[t] == cs[t],
                forall|t: int| 0 <= t < c ==> category_expired(cs[t], #[trigger] self.qguilds@[gi as int].categories@[t], user),
                ids@ == expiry_updates(cs.take(c as int), user),
                seen == waits_in_some(cs.take(c as int), user),
                self.score_submissions == old(self).score_submissions,
                self.match_starts == old(self).match_starts,
                self.interactions == old(self).interactions,
            decreases n - c,
        {
            assert(cs.take(c as int + 1).drop_last() =~= cs.take(c as int));
            assert(cs.take(c as int + 1).last() == cs[c as int]);
            let id = self.qguilds[gi].categories[c].id;
            let here = self.qguilds[gi].categories[c].expire_player(user);
            assert(here == waits_in(cs[c as int], user));
            seen = seen || here;
            if seen {
                ids.push(id);
            }
            c = c + 1;
        }
        assert(cs.take(n as int) =~= cs);
        Some(ids)
    }
}

} // verus!
