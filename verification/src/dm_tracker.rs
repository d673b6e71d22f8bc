//! The direct messages the bot sent each user, kept so that they can be
//! deleted: when a new one is sent, or after a time without activity.
//! Times are milliseconds since the Unix epoch.

use vstd::prelude::*;
use crate::config::INACTIVITY_TIMEOUT_SECS;
use crate::keyed::{distinct_keys, entries_map, lemma_entries_map, lemma_entries_push, lemma_entries_remove,
    lemma_entries_update, lemma_filter_distinct};

verus! {

/// The direct messages sent to one user.
pub struct DmSession {
    pub channel_id: u64,
    pub message_ids: Vec<u64>,
    pub last_activity_ms: u64,
    pub username: String,
}

/// A user's direct messages as data.
pub struct DmView {
    pub channel_id: u64,
    pub message_ids: Seq<u64>,
    pub last_activity_ms: u64,
    pub username: Seq<char>,
}

/// A session as data.
pub open spec fn dm_view(s: DmSession) -> DmView {
    DmView {
        channel_id: s.channel_id,
        message_ids: s.message_ids@,
        last_activity_ms: s.last_activity_ms,
        username: s.username@,
    }
}

/// Whether a session last active at `last` is inactive at `now`: at least
/// the inactivity timeout has passed (never when `last` is ahead of `now`).
pub open spec fn inactive(now: u64, last: u64) -> bool {
    now >= last && (now - last) / 1000 >= INACTIVITY_TIMEOUT_SECS
}

/// The direct messages of each user.
pub struct DmMessageTracker {
    pub sessions: Vec<(u64, DmSession)>,
}

impl DmMessageTracker {
    /// Each user has at most one session.
    pub open spec fn wf(&self) -> bool {
        distinct_keys(self.sessions@)
    }

    /// The sessions by user, as data.
    pub open spec fn view(&self) -> Map<u64, DmView> {
        entries_map(self.sessions@).map_values(|s: DmSession| dm_view(s))
    }

    /// No sessions.
    pub fn new() -> (r: Self)
        ensures
            r.wf(),
            r.view() == Map::<u64, DmView>::empty(),
    {
        let r = DmMessageTracker { sessions: Vec::new() };
        assert(r.view() =~= Map::<u64, DmView>::empty());
        r
    }

    fn find(&self, user: u64) -> (r: Option<usize>)
        requires
            self.wf(),
        ensures
            match r {
                Some(i) => i < self.sessions@.len() && self.sessions@[i as int].0 == user
                    && self.view().contains_key(user) && self.view()[user] == dm_view(self.sessions@[i as int].1),
                None => !self.view().contains_key(user),
            },
    {
        proof {
            lemma_entries_map(self.sessions@);
        }
        let n = self.sessions.len();
        let mut i: usize = 0;
        while i < n
            invariant
                n == self.sessions@.len(),
                self.wf(),
                i <= n,
                forall|t: int| 0 <= t < i ==> #[trigger] self.sessions@[t].0 != user,
            decreases n - i,
        {
            if self.sessions[i].0 == user {
                proof {
                    lemma_entries_map(self.sessions@);
                    assert(entries_map(self.sessions@).contains_key(self.sessions@[i as int].0));
                }
                return Some(i);
            }
            i = i + 1;
        }
        None
    }

    fn set_session(&mut self, i: usize, s: DmSession)
        requires
            old(self).wf(),
            i < old(self).sessions@.len(),
        ensures
            final(self).wf(),
            final(self).view() == old(self).view().insert(old(self).sessions@[i as int].0, dm_view(s)),
    {
        let user = self.sessions[i].0;
        proof {
            lemma_entries_update(self.sessions@, i as int, s);
        }
        self.sessions.set(i, (user, s));
        assert(self.view() =~= old(self).view().insert(old(self).sessions@[i as int].0, dm_view(s)));
    }

    /// Records message `message_id` sent to `user_id` at `now`: added to
    /// the user's session (whose activity time and name are renewed), or
    /// a new session in channel `channel_id`.
    pub fn track_message(&mut self, user_id: u64, channel_id: u64, message_id: u64, username: String, now: u64)
        requires
            old(self).wf(),
        ensures
            final(self).wf(),
            final(self).view() == old(self).view().insert(user_id, if old(self).view().contains_key(user_id) {
                DmView {
                    channel_id: old(self).view()[user_id].channel_id,
                    message_ids: old(self).view()[user_id].message_ids.push(message_id),
                    last_activity_ms: now,
                    username: username@,
                }
            } else {
                DmView { channel_id, message_ids: seq![message_id], last_activity_ms: now, username: username@ }
            }),
    {
        match self.find(user_id) {
            Some(i) => {
                let mut ids = self.sessions[i].1.message_ids.clone();
                let ghost before = ids@;
                assert(before == self.sessions@[i as int].1.message_ids@);
                ids.push(message_id);
                let ch = self.sessions[i].1.channel_id;
                self.set_session(i, DmSession { channel_id: ch, message_ids: ids, last_activity_ms: now, username });
            },
            None => {
                let mut ids: Vec<u64> = Vec::new();
                ids.push(message_id);
                assert(ids@ =~= seq![message_id]);
                proof {
                    lemma_entries_push(self.sessions@, (user_id, DmSession { channel_id, message_ids: ids, last_activity_ms: now, username }));
                }
                self.sessions.push((user_id, DmSession { channel_id, message_ids: ids, last_activity_ms: now, username }));
                assert(self.view() =~= old(self).view().insert(user_id, DmView {
                    channel_id,
                    message_ids: seq![message_id],
                    last_activity_ms: now,
                    username: old(self).view().insert(user_id, self.view()[user_id])[user_id].username,
                }));
            },
        }
    }

    /// The user acted at `now` (such as pressing a button): their session,
    /// if any, is active again.
    pub fn update_activity(&mut self, user_id: u64, now: u64)
        requires
            old(self).wf(),
        ensures
            final(self).wf(),
            final(self).view() == (if old(self).view().contains_key(user_id) {
                old(self).view().insert(user_id, DmView { last_activity_ms: now, ..old(self).view()[user_id] })
            } else {
                old(self).view()
            }),
    {
        match self.find(user_id) {
            Some(i) => {
                let s = &self.sessions[i].1;
                let copy = DmSession {
                    channel_id: s.channel_id,
                    message_ids: s.message_ids.clone(),
                    last_activity_ms: now,
                    username: s.username.clone(),
                };
                assert(dm_view(copy) == DmView { last_activity_ms: now, ..old(self).view()[user_id] });
                self.set_session(i, copy);
            },
            None => {},
        }
    }

    /// Stops tracking message `message_id` of `user_id`; a session left
    /// without messages is dropped.
    pub fn remove_message(&mut self, user_id: u64, message_id: u64)
        requires
            old(self).wf(),
        ensures
            final(self).wf(),
            final(self).view() == (if old(self).view().contains_key(user_id) {
                let left = old(self).view()[user_id].message_ids.filter(|m: u64| m != message_id);
                if left.len() == 0 {
                    old(self).view().remove(user_id)
                } else {
                    old(self).view().insert(user_id, DmView { message_ids: left, ..old(self).view()[user_id] })
                }
            } else {
                old(self).view()
            }),
    {
        let i = match self.find(user_id) {
            Some(i) => i,
            None => {
                return;
            },
        };
        let ghost ids = self.sessions@[i as int].1.message_ids@;
        let n = self.sessions[i].1.message_ids.len();
        let mut left: Vec<u64> = Vec::new();
        let mut k: usize = 0;
        while k < n
            invariant
                n == ids.len(),
                i < self.sessions@.len(),
                ids == self.sessions@[i as int].1.message_ids@,
                k <= n,
                left@ == ids.take(k as int).filter(|m: u64| m != message_id),
            decreases n - k,
        {
            let m = self.sessions[i].1.message_ids[k];
            assert(ids.take(k as int + 1).drop_last() =~= ids.take(k as int));
            proof {
                reveal(Seq::filter);
            }
            if m != message_id {
                left.push(m);
            }
            k = k + 1;
        }
        assert(ids.take(n as int) =~= ids);
        if left.len() == 0 {
            proof {
                lemma_entries_remove(self.sessions@, i as int);
            }
            self.sessions.remove(i);
            assert(self.view() =~= old(self).view().remove(user_id));
        } else {
            let s = &self.sessions[i].1;
            let copy = DmSession {
                channel_id: s.channel_id,
                message_ids: left,
                last_activity_ms: s.last_activity_ms,
                username: s.username.clone(),
            };
            self.set_session(i, copy);
        }
    }

    /// Takes the tracked messages of `user_id` to delete them: gives the
    /// channel and the messages; the session stays, without messages.
    pub fn take_tracked(&mut self, user_id: u64) -> (r: Option<(u64, Vec<u64>)>)
        requires
            old(self).wf(),
        ensures
            final(self).wf(),
            match r {
                Some((ch, ms)) => old(self).view().contains_key(user_id)
                    && ch == old(self).view()[user_id].channel_id
                    && ms@ == old(self).view()[user_id].message_ids
                    && final(self).view() == old(self).view().insert(
                        user_id,
                        DmView { message_ids: Seq::empty(), ..old(self).view()[user_id] },
                    ),
                None => !old(self).view().contains_key(user_id) && final(self).view() == old(self).view(),
            },
    {
        match self.find(user_id) {
            Some(i) => {
                let s = &self.sessions[i].1;
                let ch = s.channel_id;
                let ms = s.message_ids.clone();
                let copy = DmSession {
                    channel_id: ch,
                    message_ids: Vec::new(),
                    last_activity_ms: s.last_activity_ms,
                    username: s.username.clone(),
                };
                assert(dm_view(copy) =~= DmView { message_ids: Seq::empty(), ..old(self).view()[user_id] });
                self.set_session(i, copy);
                Some((ch, ms))
            },
            None => None,
        }
    }

    /// Whether some session tracks message `message_id`.
    pub fn is_tracked(&self, message_id: u64) -> (r: bool)
        requires
            self.wf(),
        ensures
            r == exists|u: u64| self.view().contains_key(u) && #[trigger] self.view()[u].message_ids.contains(message_id),
    {
        proof {
            lemma_entries_map(self.sessions@);
        }
        let n = self.sessions.len();
        let mut i: usize = 0;
        while i < n
            invariant
                n == self.sessions@.len(),
                self.wf(),
                i <= n,
                forall|t: int| 0 <= t < i ==> !(#[trigger] self.sessions@[t].1.message_ids@.contains(message_id)),
            decreases n - i,
        {
            let ids = &self.sessions[i].1.message_ids;
            let m = ids.len();
            let mut k: usize = 0;
            while k < m
                invariant
                    self.wf(),
                    n == self.sessions@.len(),
                    i < n,
                    ids@ == self.sessions@[i as int].1.message_ids@,
                    m == ids@.len(),
                    k <= m,
                    forall|j: int| 0 <= j < k ==> ids@[j] != message_id,
                decreases m - k,
            {
                if ids[k] == message_id {
                    proof {
                        lemma_entries_map(self.sessions@);
                        let u = self.sessions@[i as int].0;
                        assert(entries_map(self.sessions@)[u] == self.sessions@[i as int].1);
                        assert(self.view()[u].message_ids.contains(message_id)) by {
                            assert(self.view()[u].message_ids[k as int] == message_id);
                        }
                    }
                    return true;
                }
                k = k + 1;
            }
            i = i + 1;
        }
        proof {
            assert forall|u: u64| self.view().contains_key(u) implies !(#[trigger] self.view()[u].message_ids.contains(message_id)) by {
                let j = choose|j: int| 0 <= j < self.sessions@.len() && self.sessions@[j].0 == u;
                assert(entries_map(self.sessions@)[self.sessions@[j].0] == self.sessions@[j].1);
            }
        }
        false
    }

    /// Drops the sessions inactive at `now`, giving the channel and the
    /// messages of each, in order, to delete.
    pub fn remove_inactive(&mut self, now: u64) -> (r: Vec<(u64, Vec<u64>)>)
        requires
            old(self).wf(),
        ensures
            final(self).wf(),
            final(self).sessions@ == old(self).sessions@.filter(|e: (u64, DmSession)| !inactive(now, e.1.last_activity_ms)),
            r@.map_values(|x: (u64, Vec<u64>)| (x.0, x.1@)) == old(self).sessions@
                .filter(|e: (u64, DmSession)| inactive(now, e.1.last_activity_ms))
                .map_values(|e: (u64, DmSession)| (e.1.channel_id, e.1.message_ids@)),
    {
        let mut old_entries: Vec<(u64, DmSession)> = Vec::new();
        std::mem::swap(&mut old_entries, &mut self.sessions);
        let ghost orig = old_entries@;
        let n = old_entries.len();
        let mut kept: Vec<(u64, DmSession)> = Vec::new();
        let mut gone: Vec<(u64, Vec<u64>)> = Vec::new();
        let mut i: usize = 0;
        while i < n
            invariant
                n == orig.len(),
                old_entries@.len() == n - i,
                forall|k: int| 0 <= k < old_entries@.len() ==> #[trigger] old_entries@[k] == orig[i + k],
                i <= n,
                kept@ == orig.take(i as int).filter(|e: (u64, DmSession)| !inactive(now, e.1.last_activity_ms)),
                gone@.map_values(|x: (u64, Vec<u64>)| (x.0, x.1@)) == orig.take(i as int)
                    .filter(|e: (u64, DmSession)| inactive(now, e.1.last_activity_ms))
                    .map_values(|e: (u64, DmSession)| (e.1.channel_id, e.1.message_ids@)),
            decreases n - i,
        {
            let ghost before = old_entries@;
            let e = old_entries.remove(0);
            assert(e == orig[i as int]);
            assert forall|k: int| 0 <= k < old_entries@.len() implies #[trigger] old_entries@[k] == orig[i + 1 + k] by {
                assert(old_entries@[k] == before[k + 1]);
            }
            assert(orig.take(i as int + 1).drop_last() =~= orig.take(i as int));
            assert(orig.take(i as int + 1).last() == e);
            proof {
                reveal(Seq::filter);
            }
            let last = e.1.last_activity_ms;
            if now >= last && (now - last) / 1000 >= INACTIVITY_TIMEOUT_SECS {
                let ghost g0 = gone@.map_values(|x: (u64, Vec<u64>)| (x.0, x.1@));
                let ch = e.1.channel_id;
                let ms = e.1.message_ids;
                gone.push((ch, ms));
                assert(gone@.map_values(|x: (u64, Vec<u64>)| (x.0, x.1@)) =~= g0.push((ch, ms@)));
            } else {
                kept.push(e);
            }
            i = i + 1;
        }
        assert(orig.take(n as int) =~= orig);
        proof {
            lemma_filter_distinct(orig, |e: (u64, DmSession)| !inactive(now, e.1.last_activity_ms));
        }
        self.sessions = kept;
        gone
    }

    /// Whether some session tracks message `message_id`.
    pub open spec fn tracks(&self, message_id: u64) -> bool {
        exists|u: u64| self.view().contains_key(u) && #[trigger] self.view()[u].message_ids.contains(message_id)
    }

    /// The messages of `messages`, given as (message id, author id), that
    /// the bot (`bot_id`) wrote and no session tracks, in order.
    pub open spec fn untracked_bot_messages(&self, bot_id: u64, messages: Seq<(u64, u64)>) -> Seq<u64>
        decreases messages.len(),
    {
        if messages.len() == 0 {
            Seq::empty()
        } else {
            let m = messages.last();
            let rest = self.untracked_bot_messages(bot_id, messages.drop_last());
            if m.1 == bot_id && !self.tracks(m.0) {
                rest.push(m.0)
            } else {
                rest
            }
        }
    }

    /// The old messages of a direct message channel to delete: of the
    /// fetched `messages`, (message id, author id) each, those the bot
    /// wrote that are not tracked (they were sent before tracking began).
    pub fn old_bot_messages(&self, bot_id: u64, messages: &Vec<(u64, u64)>) -> (r: Vec<u64>)
        requires
            self.wf(),
        ensures
            r@ == self.untracked_bot_messages(bot_id, messages@),
    {
        let n = messages.len();
        let mut out: Vec<u64> = Vec::new();
        let mut i: usize = 0;
        while i < n
            invariant
                self.wf(),
                n == messages@.len(),
                i <= n,
                out@ == self.untracked_bot_messages(bot_id, messages@.take(i as int)),
            decreases n - i,
        {
            assert(messages@.take(i as int + 1).drop_last() =~= messages@.take(i as int));
            assert(messages@.take(i as int + 1).last() == messages@[i as int]);
            let (id, author) = messages[i];
            if author == bot_id && !self.is_tracked(id) {
                out.push(id);
            }
            i = i + 1;
        }
        assert(messages@.take(n as int) =~= messages@);
        out
    }
}

} // verus!
