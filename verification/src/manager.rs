//! What the manager remembers between button presses: who is reporting a
//! score or starting a match, and which interactions are being processed.
//! Times are milliseconds since the Unix epoch.

use vstd::prelude::*;
use crate::keyed::{distinct_keys, entries_map, entries_filter, lemma_entries_map, lemma_entries_push,
    lemma_entries_remove, lemma_entries_filter_step};

use crate::guilds::QGuild;

verus! {

/// After this many milliseconds a claim or a lock is stale.
pub const CLAIM_TIMEOUT_MS: u64 = 300000;

/// (guild, category, format): one match.
pub type ClaimKey = (u64, u8, u8);

/// Whether a claim made at `start` is stale at `now` when asked for: more
/// than five minutes ago (a start in the future counts as just made).
pub open spec fn stale_when_asked(now: u64, start: u64) -> bool {
    now >= start && now - start > CLAIM_TIMEOUT_MS
}

/// Whether a claim or lock made at `start` survives a cleanup at `now`:
/// less than five minutes ago (a start in the future counts as stale).
pub open spec fn survives_cleanup(now: u64, start: u64) -> bool {
    now >= start && now - start < CLAIM_TIMEOUT_MS
}

/// Who claimed each match, and when: (user, start).
pub struct ClaimTable {
    pub entries: Vec<(ClaimKey, (u64, u64))>,
}

fn same_key(a: ClaimKey, b: ClaimKey) -> (r: bool)
    ensures
        r == (a == b),
{
    a.0 == b.0 && a.1 == b.1 && a.2 == b.2
}

impl ClaimTable {
    /// Each match is claimed at most once.
    pub open spec fn wf(&self) -> bool {
        distinct_keys(self.entries@)
    }

    /// The claim of each match: (user, start).
    pub open spec fn view(&self) -> Map<ClaimKey, (u64, u64)> {
        entries_map(self.entries@)
    }

    /// No claims.
    pub fn new() -> (r: Self)
        ensures
            r.wf(),
            r.view() == Map::<ClaimKey, (u64, u64)>::empty(),
    {
        ClaimTable { entries: Vec::new() }
    }

    fn find(&self, key: ClaimKey) -> (r: Option<usize>)
        requires
            self.wf(),
        ensures
            match r {
                Some(i) => i < self.entries@.len() && self.entries@[i as int].0 == key
                    && self.view().contains_key(key) && self.view()[key] == self.entries@[i as int].1,
                None => !self.view().contains_key(key),
            },
    {
        proof {
            lemma_entries_map(self.entries@);
        }
        let n = self.entries.len();
        let mut i: usize = 0;
        while i < n
            invariant
                n == self.entries@.len(),
                self.wf(),
                i <= n,
                forall|t: int| 0 <= t < i ==> #[trigger] self.entries@[t].0 != key,
            decreases n - i,
        {
            if same_key(self.entries[i].0, key) {
                proof {
                    lemma_entries_map(self.entries@);
                    assert(self.view().contains_key(self.entries@[i as int].0));
                }
                return Some(i);
            }
            i = i + 1;
        }
        None
    }

    /// The user whose claim on match `key` is current at `now`: none when
    /// there is no claim or it is more than five minutes old.
    pub fn current(&self, key: ClaimKey, now: u64) -> (r: Option<u64>)
        requires
            self.wf(),
        ensures
            r == (if self.view().contains_key(key) && !stale_when_asked(now, self.view()[key].1) {
                Some(self.view()[key].0)
            } else {
                None::<u64>
            }),
    {
        match self.find(key) {
            Some(i) => {
                let (user, start) = self.entries[i].1;
                if now >= start && now - start > CLAIM_TIMEOUT_MS {
                    None
                } else {
                    Some(user)
                }
            },
            None => None,
        }
    }

    /// `user` claims match `key` at `now`, replacing any earlier claim.
    pub fn set(&mut self, key: ClaimKey, user: u64, now: u64)
        requires
            old(self).wf(),
        ensures
            final(self).wf(),
            final(self).view() == old(self).view().insert(key, (user, now)),
    {
        self.clear(key);
        proof {
            lemma_entries_push(self.entries@, (key, (user, now)));
        }
        self.entries.push((key, (user, now)));
        assert(self.view() =~= old(self).view().insert(key, (user, now)));
    }

    /// Drops the claim on match `key`, if any.
    pub fn clear(&mut self, key: ClaimKey)
        requires
            old(self).wf(),
        ensures
            final(self).wf(),
            final(self).view() == old(self).view().remove(key),
    {
        match self.find(key) {
            Some(i) => {
                proof {
                    lemma_entries_remove(self.entries@, i as int);
                }
                self.entries.remove(i);
            },
            None => {
                assert(self.view() =~= old(self).view().remove(key));
            },
        }
    }

    /// Drops the claims that are five minutes old or more at `now` (or
    /// made in the future); gives how many were dropped.
    pub fn cleanup(&mut self, now: u64) -> (r: usize)
        requires
            old(self).wf(),
        ensures
            final(self).wf(),
            final(self).view() == entries_filter(old(self).view(), |k: ClaimKey, v: (u64, u64)| survives_cleanup(now, v.1)),
            r + final(self).entries@.len() == old(self).entries@.len(),
    {
        let ghost keep = |k: ClaimKey, v: (u64, u64)| survives_cleanup(now, v.1);
        let ghost orig = self.entries@;
        let n = self.entries.len();
        let mut kept: Vec<(ClaimKey, (u64, u64))> = Vec::new();
        let mut i: usize = 0;
        assert(orig.take(0) =~= Seq::<(ClaimKey, (u64, u64))>::empty());
        assert(entries_map(kept@) =~= entries_filter(entries_map(orig.take(0)), keep));
        while i < n
            invariant
                keep == (|k: ClaimKey, v: (u64, u64)| survives_cleanup(now, v.1)),
                n == orig.len(),
                orig == self.entries@,
                distinct_keys(orig),
                i <= n,
                kept@.len() <= i,
                distinct_keys(kept@),
                entries_map(kept@) == entries_filter(entries_map(orig.take(i as int)), keep),
            decreases n - i,
        {
            let e = self.entries[i];
            assert(orig.take(i as int + 1) =~= orig.take(i as int).push(e));
            assert(distinct_keys(orig.take(i as int + 1))) by {
                let u = orig.take(i as int + 1);
                assert forall|x: int, y: int| 0 <= x < y < u.len() implies #[trigger] u[x].0 != #[trigger] u[y].0 by {
                    assert(u[x] == orig[x] && u[y] == orig[y]);
                }
            }
            proof {
                lemma_entries_filter_step(orig.take(i as int), kept@, e, keep);
            }
            let start = e.1.1;
            assert(keep(e.0, e.1) == (now >= start && now - start < CLAIM_TIMEOUT_MS));
            if now >= start && now - start < CLAIM_TIMEOUT_MS {
                kept.push(e);
            }
            i = i + 1;
        }
        assert(orig.take(n as int) =~= orig);
        let removed = n - kept.len();
        self.entries = kept;
        removed
    }
}

/// The interactions being processed: interaction id to (action, start).
pub struct LockTable {
    pub entries: Vec<(u64, (String, u64))>,
}

impl LockTable {
    /// Each interaction is locked at most once.
    pub open spec fn wf(&self) -> bool {
        distinct_keys(self.entries@)
    }

    /// The lock of each interaction: (action, start).
    pub open spec fn view(&self) -> Map<u64, (String, u64)> {
        entries_map(self.entries@)
    }

    /// No locks.
    pub fn new() -> (r: Self)
        ensures
            r.wf(),
            r.view() == Map::<u64, (String, u64)>::empty(),
    {
        LockTable { entries: Vec::new() }
    }

    fn find(&self, id: u64) -> (r: Option<usize>)
        requires
            self.wf(),
        ensures
            match r {
                Some(i) => i < self.entries@.len() && self.entries@[i as int].0 == id && self.view().contains_key(id),
                None => !self.view().contains_key(id),
            },
    {
        proof {
            lemma_entries_map(self.entries@);
        }
        let n = self.entries.len();
        let mut i: usize = 0;
        while i < n
            invariant
                n == self.entries@.len(),
                self.wf(),
                i <= n,
                forall|t: int| 0 <= t < i ==> #[trigger] self.entries@[t].0 != id,
            decreases n - i,
        {
            if self.entries[i].0 == id {
                proof {
                    lemma_entries_map(self.entries@);
                    assert(self.view().contains_key(self.entries@[i as int].0));
                }
                return Some(i);
            }
            i = i + 1;
        }
        None
    }

    /// Whether interaction `id` is being processed.
    pub fn is_locked(&self, id: u64) -> (r: bool)
        requires
            self.wf(),
        ensures
            r == self.view().contains_key(id),
    {
        self.find(id).is_some()
    }

    /// Drops the locks that are five minutes old or more at `now` (or made
    /// in the future); gives how many were dropped.
    pub fn cleanup(&mut self, now: u64) -> (r: usize)
        requires
            old(self).wf(),
        ensures
            final(self).wf(),
            final(self).view() == entries_filter(old(self).view(), |k: u64, v: (String, u64)| survives_cleanup(now, v.1)),
            r + final(self).entries@.len() == old(self).entries@.len(),
    {
        let ghost keep = |k: u64, v: (String, u64)| survives_cleanup(now, v.1);
        let mut old_entries: Vec<(u64, (String, u64))> = Vec::new();
        std::mem::swap(&mut old_entries, &mut self.entries);
        let ghost orig = old_entries@;
        let n = old_entries.len();
        let mut kept: Vec<(u64, (String, u64))> = Vec::new();
        let mut i: usize = 0;
        assert(orig.take(0) =~= Seq::<(u64, (String, u64))>::empty());
        assert(entries_map(kept@) =~= entries_filter(entries_map(orig.take(0)), keep));
        while i < n
            invariant
                keep == (|k: u64, v: (String, u64)| survives_cleanup(now, v.1)),
                n == orig.len(),
                distinct_keys(orig),
                old_entries@.len() == n - i,
                forall|k: int| 0 <= k < old_entries@.len() ==> #[trigger] old_entries@[k] == orig[i + k],
                i <= n,
                kept@.len() <= i,
                distinct_keys(kept@),
                entries_map(kept@) == entries_filter(entries_map(orig.take(i as int)), keep),
            decreases n - i,
        {
            let ghost before = old_entries@;
            let e = old_entries.remove(0);
            assert(e == orig[i as int]);
            assert forall|k: int| 0 <= k < old_entries@.len() implies #[trigger] old_entries@[k] == orig[i + 1 + k] by {
                assert(old_entries@[k] == before[k + 1]);
            }
            assert(orig.take(i as int + 1) =~= orig.take(i as int).push(e));
            assert(distinct_keys(orig.take(i as int + 1))) by {
                let u = orig.take(i as int + 1);
                assert forall|x: int, y: int| 0 <= x < y < u.len() implies #[trigger] u[x].0 != #[trigger] u[y].0 by {
                    assert(u[x] == orig[x] && u[y] == orig[y]);
                }
            }
            proof {
                lemma_entries_filter_step(orig.take(i as int), kept@, e, keep);
            }
            let start = e.1.1;
            assert(keep(e.0, e.1) == (now >= start && now - start < CLAIM_TIMEOUT_MS));
            if now >= start && now - start < CLAIM_TIMEOUT_MS {
                kept.push(e);
            }
            i = i + 1;
        }
        assert(orig.take(n as int) =~= orig);
        let removed = n - kept.len();
        self.entries = kept;
        removed
    }

    /// Locks interaction `id` for `action` at `now`, unless it is locked
    /// already; stale locks are dropped first. Gives whether the lock was
    /// taken.
    pub fn try_lock(&mut self, id: u64, action: String, now: u64) -> (r: bool)
        requires
            old(self).wf(),
        ensures
            final(self).wf(),
            r == !old(self).view().contains_key(id),
            r ==> final(self).view() == entries_filter(old(self).view(), |k: u64, v: (String, u64)| survives_cleanup(now, v.1))
                .insert(id, (action, now)),
            !r ==> final(self).view() == old(self).view(),
    {
        if self.is_locked(id) {
            return false;
        }
        self.cleanup(now);
        assert(!self.view().contains_key(id));
        proof {
            lemma_entries_push(self.entries@, (id, (action, now)));
        }
        self.entries.push((id, (action, now)));
        true
    }

    /// Releases the lock of interaction `id`; gives whether there was one.
    pub fn unlock(&mut self, id: u64) -> (r: bool)
        requires
            old(self).wf(),
        ensures
            final(self).wf(),
            r == old(self).view().contains_key(id),
            final(self).view() == old(self).view().remove(id),
    {
        match self.find(id) {
            Some(i) => {
                proof {
                    lemma_entries_remove(self.entries@, i as int);
                }
                self.entries.remove(i);
                true
            },
            None => {
                assert(self.view() =~= old(self).view().remove(id));
                false
            },
        }
    }
}

/// The guilds served, with the claims and locks that keep runners from
/// acting twice on one match.
pub struct Manager {
    /// The guilds and their categories
    pub qguilds: Vec<QGuild>,
    /// Who is reporting the score of each match
    pub score_submissions: ClaimTable,
    /// Who is starting each match
    pub match_starts: ClaimTable,
    /// The interactions being processed
    pub interactions: LockTable,
}

impl Manager {
    /// The tables are well formed.
    pub open spec fn wf(&self) -> bool {
        self.score_submissions.wf() && self.match_starts.wf() && self.interactions.wf()
    }

    /// A manager of guild `guild_id` alone (named `Unknown`, with no
    /// category), with nothing claimed or locked.
    pub fn new(guild_id: u64) -> (r: Self)
        ensures
            r.wf(),
            r.qguilds@.len() == 1,
            r.qguilds@[0].id == guild_id,
            r.qguilds@[0].name@ == "Unknown"@,
            r.qguilds@[0].categories@.len() == 0,
            r.score_submissions.view() == Map::<ClaimKey, (u64, u64)>::empty(),
            r.match_starts.view() == Map::<ClaimKey, (u64, u64)>::empty(),
            r.interactions.view() == Map::<u64, (String, u64)>::empty(),
    {
        let g = QGuild::new(guild_id, String::from_str("Unknown"));
        Manager { qguilds: vec![g], score_submissions: ClaimTable::new(), match_starts: ClaimTable::new(), interactions: LockTable::new() }
    }

    /// Who is reporting the score of the match, if their claim is at most
    /// five minutes old at `now`.
    pub fn get_active_score_submission(&self, guild_id: u64, category_id: u8, format_id: u8, now: u64) -> (r: Option<u64>)
        requires
            self.wf(),
        ensures
            ({
                let v = self.score_submissions.view();
                let key = (guild_id, category_id, format_id);
                r == (if v.contains_key(key) && !stale_when_asked(now, v[key].1) { Some(v[key].0) } else { None::<u64> })
            }),
    {
        self.score_submissions.current((guild_id, category_id, format_id), now)
    }

    /// `user_id` starts reporting the score of the match at `now`.
    pub fn set_active_score_submission(&mut self, guild_id: u64, category_id: u8, format_id: u8, user_id: u64, now: u64)
        requires
            old(self).wf(),
        ensures
            final(self).wf(),
            final(self).qguilds@ == old(self).qguilds@,
            final(self).score_submissions.view() == old(self).score_submissions.view().insert(
                (guild_id, category_id, format_id),
                (user_id, now),
            ),
            final(self).match_starts == old(self).match_starts,
            final(self).interactions == old(self).interactions,
    {
        self.score_submissions.set((guild_id, category_id, format_id), user_id, now);
    }

    /// The score of the match is no longer being reported.
    pub fn clear_active_score_submission(&mut self, guild_id: u64, category_id: u8, format_id: u8)
        requires
            old(self).wf(),
        ensures
            final(self).wf(),
            final(self).qguilds@ == old(self).qguilds@,
            final(self).score_submissions.view() == old(self).score_submissions.view().remove((guild_id, category_id, format_id)),
            final(self).match_starts == old(self).match_starts,
            final(self).interactions == old(self).interactions,
    {
        self.score_submissions.clear((guild_id, category_id, format_id));
    }

    /// Drops the score reports claimed five minutes ago or more.
    pub fn cleanup_stale_score_submissions(&mut self, now: u64)
        requires
            old(self).wf(),
        ensures
            final(self).wf(),
            final(self).qguilds@ == old(self).qguilds@,
            final(self).score_submissions.view() == entries_filter(
                old(self).score_submissions.view(),
                |k: ClaimKey, v: (u64, u64)| survives_cleanup(now, v.1),
            ),
            final(self).match_starts == old(self).match_starts,
            final(self).interactions == old(self).interactions,
    {
        self.score_submissions.cleanup(now);
    }

    /// Who is starting the match, if their claim is at most five minutes
    /// old at `now`.
    pub fn get_active_match_start(&self, guild_id: u64, category_id: u8, format_id: u8, now: u64) -> (r: Option<u64>)
        requires
            self.wf(),
        ensures
            ({
                let v = self.match_starts.view();
                let key = (guild_id, category_id, format_id);
                r == (if v.contains_key(key) && !stale_when_asked(now, v[key].1) { Some(v[key].0) } else { None::<u64> })
            }),
    {
        self.match_starts.current((guild_id, category_id, format_id), now)
    }

    /// `user_id` starts the match at `now`.
    pub fn set_active_match_start(&mut self, guild_id: u64, category_id: u8, format_id: u8, user_id: u64, now: u64)
        requires
            old(self).wf(),
        ensures
            final(self).wf(),
            final(self).qguilds@ == old(self).qguilds@,
            final(self).match_starts.view() == old(self).match_starts.view().insert(
                (guild_id, category_id, format_id),
                (user_id, now),
            ),
            final(self).score_submissions == old(self).score_submissions,
            final(self).interactions == old(self).interactions,
    {
        self.match_starts.set((guild_id, category_id, format_id), user_id, now);
    }

    /// The match is no longer being started.
    pub fn clear_active_match_start(&mut self, guild_id: u64, category_id: u8, format_id: u8)
        requires
            old(self).wf(),
        ensures
            final(self).wf(),
            final(self).qguilds@ == old(self).qguilds@,
            final(self).match_starts.view() == old(self).match_starts.view().remove((guild_id, category_id, format_id)),
            final(self).score_submissions == old(self).score_submissions,
            final(self).interactions == old(self).interactions,
    {
        self.match_starts.clear((guild_id, category_id, format_id));
    }

    /// Locks interaction `interaction_id` for `action_key`, unless it is
    /// being processed already. Stale locks are dropped first.
    pub fn try_lock_interaction(&mut self, interaction_id: u64, action_key: String, now: u64) -> (r: bool)
        requires
            old(self).wf(),
        ensures
            final(self).wf(),
            final(self).qguilds@ == old(self).qguilds@,
            r == !old(self).interactions.view().contains_key(interaction_id),
            r ==> final(self).interactions.view() == entries_filter(
                old(self).interactions.view(),
                |k: u64, v: (String, u64)| survives_cleanup(now, v.1),
            ).insert(interaction_id, (action_key, now)),
            !r ==> final(self).interactions.view() == old(self).interactions.view(),
            final(self).score_submissions == old(self).score_submissions,
            final(self).match_starts == old(self).match_starts,
    {
        self.interactions.try_lock(interaction_id, action_key, now)
    }

    /// Releases the lock of an interaction; gives whether there was one.
    pub fn unlock_interaction(&mut self, interaction_id: u64) -> (r: bool)
        requires
            old(self).wf(),
        ensures
            final(self).wf(),
            final(self).qguilds@ == old(self).qguilds@,
            r == old(self).interactions.view().contains_key(interaction_id),
            final(self).interactions.view() == old(self).interactions.view().remove(interaction_id),
            final(self).score_submissions == old(self).score_submissions,
            final(self).match_starts == old(self).match_starts,
    {
        self.interactions.unlock(interaction_id)
    }

    /// Whether an interaction is being processed.
    pub fn is_interaction_locked(&self, interaction_id: u64) -> (r: bool)
        requires
            self.wf(),
        ensures
            r == self.interactions.view().contains_key(interaction_id),
    {
        self.interactions.is_locked(interaction_id)
    }

    /// Drops the locks five minutes old or more; gives how many.
    pub fn cleanup_stale_interaction_locks(&mut self, now: u64) -> (r: usize)
        requires
            old(self).wf(),
        ensures
            final(self).wf(),
            final(self).qguilds@ == old(self).qguilds@,
            final(self).interactions.view() == entries_filter(
                old(self).interactions.view(),
                |k: u64, v: (String, u64)| survives_cleanup(now, v.1),
            ),
            r + final(self).interactions.entries@.len() == old(self).interactions.entries@.len(),
            final(self).score_submissions == old(self).score_submissions,
            final(self).match_starts == old(self).match_starts,
    {
        self.interactions.cleanup(now)
    }
}


/// The age of a lock started at `start`, in whole seconds at `now` (0 for
/// a start in the future).
pub open spec fn lock_age(now: u64, start: u64) -> u64 {
    if now >= start { ((now - start) / 1000) as u64 } else { 0 }
}

/// Each lock as (action, age in seconds), in table order.
pub open spec fn lock_rows(es: Seq<(u64, (String, u64))>, now: u64) -> Seq<(Seq<char>, u64)> {
    es.map_values(|e: (u64, (String, u64))| (e.1.0@, lock_age(now, e.1.1)))
}

/// First index at or after `i` whose age is below `a` (or the length).
pub open spec fn age_pos(s: Seq<(Seq<char>, u64)>, a: u64, i: int) -> int
    decreases s.len() - i,
{
    if 0 <= i < s.len() && s[i].1 >= a {
        age_pos(s, a, i + 1)
    } else {
        i
    }
}

/// Stable sort by age, oldest first: rows of equal age keep their order.
pub open spec fn sort_by_age(s: Seq<(Seq<char>, u64)>) -> Seq<(Seq<char>, u64)>
    decreases s.len(),
{
    if s.len() == 0 {
        s
    } else {
        let t = sort_by_age(s.drop_last());
        t.insert(age_pos(t, s.last().1, 0), s.last())
    }
}

/// Whether rows are ordered by age, oldest first.
pub open spec fn by_age_desc(s: Seq<(Seq<char>, u64)>) -> bool {
    forall|i: int, j: int| 0 <= i < j < s.len() ==> #[trigger] s[i].1 >= #[trigger] s[j].1
}

proof fn lemma_age_pos(s: Seq<(Seq<char>, u64)>, a: u64, i: int)
    requires
        0 <= i <= s.len(),
    ensures
        i <= age_pos(s, a, i) <= s.len(),
        forall|k: int| i <= k < age_pos(s, a, i) ==> #[trigger] s[k].1 >= a,
        age_pos(s, a, i) < s.len() ==> s[age_pos(s, a, i)].1 < a,
    decreases s.len() - i,
{
    if i < s.len() && s[i].1 >= a {
        lemma_age_pos(s, a, i + 1);
    }
}

/// The lock listing is ordered by age, oldest first, and holds exactly the
/// locks it was made from.
pub proof fn lemma_sort_by_age(s: Seq<(Seq<char>, u64)>)
    ensures
        by_age_desc(sort_by_age(s)),
        sort_by_age(s).to_multiset() == s.to_multiset(),
        sort_by_age(s).len() == s.len(),
    decreases s.len(),
{
    if s.len() > 0 {
        let t = sort_by_age(s.drop_last());
        let x = s.last();
        lemma_sort_by_age(s.drop_last());
        let p = age_pos(t, x.1, 0);
        lemma_age_pos(t, x.1, 0);
        let r = t.insert(p, x);
        t.insert_ensures(p, x);
        assert forall|i: int, j: int| 0 <= i < j < r.len() implies #[trigger] r[i].1 >= #[trigger] r[j].1 by {
            if j < p {
            } else if j == p {
                assert(r[i] == t[i]);
            } else if i < p {
                assert(r[j] == t[j - 1]);
                assert(t[i].1 >= t[j - 1].1);
            } else if i == p {
                assert(r[j] == t[j - 1]);
                assert(t[p].1 >= t[j - 1].1);
            } else {
                assert(r[i] == t[i - 1]);
                assert(r[j] == t[j - 1]);
            }
        }
        vstd::seq_lib::to_multiset_insert(t, p, x);
        vstd::seq_lib::to_multiset_build(s.drop_last(), x);
        assert(s.drop_last().push(x) =~= s);
    }
}

impl Manager {
    /// How many interactions are locked, and each lock as (action, age in
    /// seconds at `now`), oldest first; locks of equal age keep their
    /// table order.
    pub fn get_interaction_lock_stats(&self, now: u64) -> (r: (usize, Vec<(String, u64)>))
        ensures
            r.0 == self.interactions.entries@.len(),
            r.1@.map_values(|x: (String, u64)| (x.0@, x.1)) == sort_by_age(lock_rows(self.interactions.entries@, now)),
    {
        let es = &self.interactions.entries;
        let n = es.len();
        let mut out: Vec<(String, u64)> = Vec::new();
        let mut i: usize = 0;
        while i < n
            invariant
                n == es@.len(),
                es@ == self.interactions.entries@,
                i <= n,
                out@.map_values(|x: (String, u64)| (x.0@, x.1)) == sort_by_age(lock_rows(es@.take(i as int), now)),
            decreases n - i,
        {
            let ghost before = out@.map_values(|x: (String, u64)| (x.0@, x.1));
            let start = es[i].1.1;
            let age: u64 = if now >= start { (now - start) / 1000 } else { 0 };
            let row = (es[i].1.0.clone(), age);
            let ghost rv = (row.0@, row.1);
            assert(lock_rows(es@.take(i as int + 1), now) =~= lock_rows(es@.take(i as int), now).push(rv));
            let m = out.len();
            let mut p: usize = 0;
            while p < m && out[p].1 >= age
                invariant
                    m == out@.len(),
                    before == out@.map_values(|x: (String, u64)| (x.0@, x.1)),
                    p <= m,
                    age_pos(before, age, 0) == age_pos(before, age, p as int),
                decreases m - p,
            {
                assert(before[p as int].1 == out@[p as int].1);
                p = p + 1;
            }
            proof {
                if p < m {
                    assert(before[p as int].1 == out@[p as int].1);
                }
                assert(age_pos(before, age, p as int) == p as int);
                let l = lock_rows(es@.take(i as int), now);
                assert(l.push(rv).drop_last() =~= l);
                assert(l.push(rv).last() == rv);
                assert(sort_by_age(l.push(rv)) == before.insert(p as int, rv));
            }
            out.insert(p, row);
            assert(out@.map_values(|x: (String, u64)| (x.0@, x.1)) =~= before.insert(p as int, rv));
            i = i + 1;
        }
        assert(es@.take(n as int) =~= es@);
        (n, out)
    }
}

/// Once an interaction's lock is taken, a second attempt on it is refused
/// (the interaction is locked), and releasing the lock frees it again.
pub proof fn lemma_lock_excludes(m: Map<u64, (String, u64)>, id: u64, action: String, now: u64)
    ensures
        entries_filter(m, |k: u64, v: (String, u64)| survives_cleanup(now, v.1)).insert(id, (action, now)).contains_key(id),
        !entries_filter(m, |k: u64, v: (String, u64)| survives_cleanup(now, v.1)).insert(id, (action, now)).remove(id).contains_key(id),
{
}

/// A claim made at `now` is current at `now`: the claimant is reported
/// until five minutes have passed, and not after.
pub proof fn lemma_claim_current(v: Map<ClaimKey, (u64, u64)>, key: ClaimKey, user: u64, now: u64, later: u64)
    requires
        later >= now,
    ensures
        v.insert(key, (user, now)).contains_key(key),
        !stale_when_asked(now, v.insert(key, (user, now))[key].1),
        v.insert(key, (user, now))[key].0 == user,
        stale_when_asked(later, now) <==> later - now > CLAIM_TIMEOUT_MS,
{
}

} // verus!
