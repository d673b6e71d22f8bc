//! An admin changing a player's rank or other settings: which setting a
//! button edits, which rank roles change, and the queued player's ELO
//! brought in line with the new rank.

use vstd::prelude::*;
use vstd::string::*;
use crate::text::has_prefix;
use crate::parse::{parse_u64_spec, parse_u64};
use crate::category_buttons::{last_field, last_field_of};
use crate::session::SessionPlayer;
use crate::category::{Session, Category, first_index, in_pool, find_player};
use crate::guilds::{QGuild, guild_index, find_guild};
use crate::manager::Manager;

verus! {

/// The setting a player settings button edits.
#[derive(Debug, Clone, Copy, PartialEq, Eq, Structural)]
pub enum PlayerButton {
    EditSteam,
    EditElo,
    EditDynamicElo,
    EditRank,
    EditAlerts,
    Unknown,
}

/// What a player settings button id names: the setting, and the player
/// its last `_`-separated field names; none when that field is not a
/// number ("Invalid button ID format").
pub open spec fn player_button_spec(id: Seq<char>) -> Option<(PlayerButton, u64)> {
    match parse_u64_spec(last_field(id, '_')) {
        None => None,
        Some(u) => Some((
            if has_prefix(id, "player_settings_edit_steam_"@) {
                PlayerButton::EditSteam
            } else if has_prefix(id, "player_settings_edit_elo_"@) {
                PlayerButton::EditElo
            } else if has_prefix(id, "player_settings_edit_dynamic_elo_"@) {
                PlayerButton::EditDynamicElo
            } else if has_prefix(id, "player_settings_edit_rank_"@) {
                PlayerButton::EditRank
            } else if has_prefix(id, "player_settings_edit_alerts_"@) {
                PlayerButton::EditAlerts
            } else {
                PlayerButton::Unknown
            },
            u,
        )),
    }
}

/// Reads what a player settings button id names.
pub fn classify_player_button(id: &str) -> (r: Option<(PlayerButton, u64)>)
    ensures
        r == player_button_spec(id@),
{
    let f = last_field_of(id, '_');
    let u = match parse_u64(f.as_str()) {
        Some(u) => u,
        None => {
            return None;
        },
    };
    let b = if crate::text::starts_with(id, "player_settings_edit_steam_") {
        PlayerButton::EditSteam
    } else if crate::text::starts_with(id, "player_settings_edit_elo_") {
        PlayerButton::EditElo
    } else if crate::text::starts_with(id, "player_settings_edit_dynamic_elo_") {
        PlayerButton::EditDynamicElo
    } else if crate::text::starts_with(id, "player_settings_edit_rank_") {
        PlayerButton::EditRank
    } else if crate::text::starts_with(id, "player_settings_edit_alerts_") {
        PlayerButton::EditAlerts
    } else {
        PlayerButton::Unknown
    };
    Some((b, u))
}

/// The rank roles to change on the member when their rank changes from the
/// role `old_role` to `new_role`: (remove the old one, add the new one),
/// given whether the member holds each.
pub open spec fn role_swap_spec(holds_old: bool, holds_new: bool) -> (bool, bool) {
    (holds_old, !holds_new)
}

/// The rank roles to change on the member.
pub fn rank_role_swap(holds_old: bool, holds_new: bool) -> (r: (bool, bool))
    ensures
        r == role_swap_spec(holds_old, holds_new),
{
    (holds_old, !holds_new)
}

/// The pool `p` once `user`'s first entry takes ELO `elo`, when ELO and
/// ranks are linked (unchanged otherwise, or when `user` is not in it).
pub open spec fn with_elo(p: Seq<SessionPlayer>, user: u64, elo: u16, linked: bool) -> Seq<SessionPlayer> {
    let k = first_index(p, user, 0);
    if linked && k < p.len() { p.update(k, SessionPlayer { elo, ..p[k] }) } else { p }
}

/// Session `n` is session `o` with `user`'s ELO brought in line.
pub open spec fn session_elo_updated(o: Session, n: Session, user: u64, elo: u16, linked: bool) -> bool {
    &&& n.pool@ == with_elo(o.pool@, user, elo, linked)
    &&& n.status == o.status
    &&& n.started_at_ms == o.started_at_ms
    &&& n.ready_at_ms == o.ready_at_ms
    &&& n.match_ended_at_ms == o.match_ended_at_ms
    &&& n.score_reported == o.score_reported
    &&& n.pre_match_pool == o.pre_match_pool
    &&& n.last_action_at_ms == o.last_action_at_ms
}

/// Category `n` is category `o` once `user`'s ELO is brought in line in
/// every session of its first format.
pub open spec fn category_elo_updated(o: Category, n: Category, user: u64, elo: u16, linked: bool) -> bool {
    &&& n.id == o.id
    &&& n.name == o.name
    &&& n.restarting == o.restarting
    &&& n.require_score_report == o.require_score_report
    &&& n.confirm_time == o.confirm_time
    &&& n.last_action == o.last_action
    &&& n.last_ping_ms == o.last_ping_ms
    &&& n.formats@.len() == o.formats@.len()
    &&& forall|k: int| 1 <= k < o.formats@.len() ==> #[trigger] n.formats@[k] == o.formats@[k]
    &&& n.formats@[0].id == o.formats@[0].id
    &&& n.formats@[0].name == o.formats@[0].name
    &&& n.formats@[0].quota == o.formats@[0].quota
    &&& n.formats@[0].connect_info == o.formats@[0].connect_info
    &&& n.formats@[0].sessions@.len() == o.formats@[0].sessions@.len()
    &&& forall|s: int| 0 <= s < o.formats@[0].sessions@.len()
        ==> session_elo_updated(o.formats@[0].sessions@[s], #[trigger] n.formats@[0].sessions@[s], user, elo, linked)
}

/// Whether `user` waits in a session of the first format of `c`.
pub open spec fn in_first_format(c: Category, user: u64) -> bool {
    exists|s: int| 0 <= s < c.formats@[0].sessions@.len() && in_pool(#[trigger] c.formats@[0].sessions@[s].pool@, user)
}

impl Category {
    /// A player's rank changed to one worth `elo`: when ELO and ranks are
    /// linked, their first entry in each session of the first format takes
    /// that ELO. Gives whether they wait in the first format.
    pub fn apply_rank_elo(&mut self, user: u64, elo: u16, linked: bool) -> (r: bool)
        requires
            old(self).formats@.len() > 0,
        ensures
            category_elo_updated(*old(self), *final(self), user, elo, linked),
            r == in_first_format(*old(self), user),
    {
        let ghost o = *self;
        let n = self.formats[0].sessions.len();
        let mut found = false;
        let mut s: usize = 0;
        while s < n
            invariant
                o.formats@.len() > 0,
                n == o.formats@[0].sessions@.len(),
                s <= n,
                self.id == o.id,
                self.name == o.name,
                self.restarting == o.restarting,
                self.require_score_report == o.require_score_report,
                self.confirm_time == o.confirm_time,
                self.last_action == o.last_action,
                self.last_ping_ms == o.last_ping_ms,
                self.formats@.len() == o.formats@.len(),
                forall|k: int| 1 <= k < o.formats@.len() ==> #[trigger] self.formats@[k] == o.formats@[k],
                self.formats@[0].id == o.formats@[0].id,
                self.formats@[0].name == o.formats@[0].name,
                self.formats@[0].quota == o.formats@[0].quota,
                self.formats@[0].connect_info == o.formats@[0].connect_info,
                self.formats@[0].sessions@.len() == n,
                forall|t: int| s <= t < n ==> #[trigger] self.formats@[0].sessions@[t] == o.formats@[0].sessions@[t],
                forall|t: int| 0 <= t < s ==> session_elo_updated(o.formats@[0].sessions@[t], #[trigger] self.formats@[0].sessions@[t], user, elo, linked),
                found == exists|t: int| 0 <= t < s && in_pool(#[trigger] o.formats@[0].sessions@[t].pool@, user),
            decreases n - s,
        {
            let ghost os = o.formats@[0].sessions@[s as int];
            match find_player(&self.formats[0].sessions[s].pool, user) {
                Some(k) => {
                    found = true;
                    if linked {
                        let p = self.formats[0].sessions[s].pool[k];
                        self.formats[0].sessions[s].pool.set(k, SessionPlayer { elo, ..p });
                    }
                    assert(in_pool(o.formats@[0].sessions@[s as int].pool@, user));
                },
                None => {
                    assert forall|t: int| 0 <= t < s + 1 && in_pool(#[trigger] o.formats@[0].sessions@[t].pool@, user)
                        implies t < s by {}
                },
            }
            s = s + 1;
        }
        found
    }
}

/// The ids of the categories of `cs` whose first format holds `user`.
pub open spec fn queued_ids(cs: Seq<Category>, user: u64) -> Seq<u8>
    decreases cs.len(),
{
    if cs.len() == 0 {
        Seq::empty()
    } else if in_first_format(cs.last(), user) {
        queued_ids(cs.drop_last(), user).push(cs.last().id)
    } else {
        queued_ids(cs.drop_last(), user)
    }
}

/// Every category of `g` has a format.
pub open spec fn guild_has_formats(g: QGuild) -> bool {
    forall|c: int| 0 <= c < g.categories@.len() ==> (#[trigger] g.categories@[c]).formats@.len() > 0
}

impl Manager {
    /// A player's rank changed in guild `guild_id` to one worth `elo`: in
    /// every category the queued player's ELO is brought in line (when
    /// ELO and ranks are linked). Gives the ids of the categories whose
    /// first format holds the player, whose dashboards are to be
    /// refreshed; none when the guild is unknown.
    pub fn apply_rank_change(&mut self, guild_id: u64, user: u64, elo: u16, linked: bool) -> (r: Option<Vec<u8>>)
        requires
            guild_index(old(self).qguilds@, guild_id, 0) < old(self).qguilds@.len()
                ==> guild_has_formats(old(self).qguilds@[guild_index(old(self).qguilds@, guild_id, 0)]),
        ensures
            ({
                let gs = old(self).qguilds@;
                let gi = guild_index(gs, guild_id, 0);
                if gi < gs.len() {
                    let cs = gs[gi].categories@;
                    &&& r matches Some(ids) && ids@ == queued_ids(cs, user)
                    &&& final(self).qguilds@.len() == gs.len()
                    &&& forall|k: int| 0 <= k < gs.len() && k != gi ==> #[trigger] final(self).qguilds@[k] == gs[k]
                    &&& final(self).qguilds@[gi].id == gs[gi].id
                    &&& final(self).qguilds@[gi].name == gs[gi].name
                    &&& final(self).qguilds@[gi].categories@.len() == cs.len()
                    &&& forall|c: int| 0 <= c < cs.len()
                        ==> category_elo_updated(cs[c], #[trigger] final(self).qguilds@[gi].categories@[c], user, elo, linked)
                } else {
                    r is None && final(self).qguilds@ == gs
                }
            }),
            final(self).score_submissions == old(self).score_submissions,
            final(self).match_starts == old(self).match_starts,
            final(self).interactions == old(self).interactions,
    {
        let gi = match find_guild(&self.qguilds, guild_id) {
            Some(i) => i,
            None => {
                return None;
            },
        };
        let ghost gs = self.qguilds@;
        let ghost cs = gs[gi as int].categories@;
        let n = self.qguilds[gi].categories.len();
        let mut ids: Vec<u8> = Vec::new();
        let mut c: usize = 0;
        while c < n
            invariant
                gi < gs.len(),
                gi as int == guild_index(gs, guild_id, 0),
                cs == gs[gi as int].categories@,
                guild_has_formats(gs[gi as int]),
                n == cs.len(),
                c <= n,
                self.qguilds@.len() == gs.len(),
                forall|k: int| 0 <= k < gs.len() && k != gi ==> #[trigger] self.qguilds@[k] == gs[k],
                self.qguilds@[gi as int].id == gs[gi as int].id,
                self.qguilds@[gi as int].name == gs[gi as int].name,
                self.qguilds@[gi as int].categories@.len() == n,
                forall|t: int| c <= t < n ==> #[trigger] self.qguilds@[gi as int].categories@[t] == cs[t],
                forall|t: int| 0 <= t < c ==> category_elo_updated(cs[t], #[trigger] self.qguilds@[gi as int].categories@[t], user, elo, linked),
                ids@ == queued_ids(cs.take(c as int), user),
                self.score_submissions == old(self).score_submissions,
                self.match_starts == old(self).match_starts,
                self.interactions == old(self).interactions,
            decreases n - c,
        {
            assert(cs.take(c as int + 1).drop_last() =~= cs.take(c as int));
            assert(cs.take(c as int + 1).last() == cs[c as int]);
            assert(cs[c as int].formats@.len() > 0);
            let id = self.qguilds[gi].categories[c].id;
            let queued = self.qguilds[gi].categories[c].apply_rank_elo(user, elo, linked);
            if queued {
                ids.push(id);
            }
            c = c + 1;
        }
        assert(cs.take(n as int) =~= cs);
        Some(ids)
    }
}

} // verus!
