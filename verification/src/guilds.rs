//! The guilds the manager serves and the lookups and clean-ups over their
//! categories. What Discord knows (which guilds the bot is in, their
//! names) is handed in as plain values.

use vstd::prelude::*;
use vstd::string::*;
use crate::text::{dec, push_dec};
use crate::session::{SessionStatus, SessionPlayer};
use crate::category::{Category, Format, Session, kept_sessions, fresh_session};
use crate::keyed::entries_filter;
use crate::manager::{ClaimKey, survives_cleanup};
use crate::manager::Manager;

verus! {

/// A guild with its queue categories.
pub struct QGuild {
    pub id: u64,
    pub name: String,
    pub categories: Vec<Category>,
}

impl QGuild {
    /// A guild with no category.
    pub fn new(id: u64, name: String) -> (r: Self)
        ensures
            r.id == id,
            r.name == name,
            r.categories@.len() == 0,
    {
        QGuild { id, name, categories: Vec::new() }
    }
}

/// Index of the first guild of `gs[i..]` with id `id` (or the length).
pub open spec fn guild_index(gs: Seq<QGuild>, id: u64, i: int) -> int
    decreases gs.len() - i,
{
    if 0 <= i < gs.len() && gs[i].id != id {
        guild_index(gs, id, i + 1)
    } else {
        i
    }
}

/// Index of the first category of `cs[i..]` with id `id` (or the length).
pub open spec fn category_index(cs: Seq<Category>, id: u8, i: int) -> int
    decreases cs.len() - i,
{
    if 0 <= i < cs.len() && cs[i].id != id {
        category_index(cs, id, i + 1)
    } else {
        i
    }
}

proof fn lemma_guild_index(gs: Seq<QGuild>, id: u64, i: int)
    requires
        0 <= i <= gs.len(),
    ensures
        i <= guild_index(gs, id, i) <= gs.len(),
        guild_index(gs, id, i) < gs.len() ==> gs[guild_index(gs, id, i)].id == id,
    decreases gs.len() - i,
{
    if i < gs.len() && gs[i].id != id {
        lemma_guild_index(gs, id, i + 1);
    }
}

proof fn lemma_category_index(cs: Seq<Category>, id: u8, i: int)
    requires
        0 <= i <= cs.len(),
    ensures
        i <= category_index(cs, id, i) <= cs.len(),
        category_index(cs, id, i) < cs.len() ==> cs[category_index(cs, id, i)].id == id,
    decreases cs.len() - i,
{
    if i < cs.len() && cs[i].id != id {
        lemma_category_index(cs, id, i + 1);
    }
}

/// The message when no guild has the id: `Server not found for guild ID:
/// {id}, Vec len: {count}`.
pub open spec fn no_guild_text(id: u64, count: nat) -> Seq<char> {
    "Server not found for guild ID: "@ + dec(id as nat) + ", Vec len: "@ + dec(count)
}

/// The message when the guild has no such category: `Category {id} not
/// found for guild ID: {guild}`.
pub open spec fn no_category_text(category_id: u8, guild_id: u64) -> Seq<char> {
    "Category "@ + dec(category_id as nat) + " not found for guild ID: "@ + dec(guild_id as nat)
}

/// Number of sessions of `ss` with a game under way.
pub open spec fn active_in(ss: Seq<Session>) -> nat
    decreases ss.len(),
{
    if ss.len() == 0 {
        0
    } else {
        active_in(ss.drop_last()) + if ss.last().status.spec_is_active() { 1nat } else { 0nat }
    }
}

/// Number of sessions with a game under way over the formats `fs`.
pub open spec fn active_in_formats(fs: Seq<Format>) -> nat
    decreases fs.len(),
{
    if fs.len() == 0 { 0 } else { active_in_formats(fs.drop_last()) + active_in(fs.last().sessions@) }
}

/// Number of sessions with a game under way over the categories `cs`.
pub open spec fn active_in_categories(cs: Seq<Category>) -> nat
    decreases cs.len(),
{
    if cs.len() == 0 { 0 } else { active_in_categories(cs.drop_last()) + active_in_formats(cs.last().formats@) }
}

/// Number of sessions with a game under way over the guilds `gs`.
pub open spec fn active_in_guilds(gs: Seq<QGuild>) -> nat
    decreases gs.len(),
{
    if gs.len() == 0 { 0 } else { active_in_guilds(gs.drop_last()) + active_in_categories(gs.last().categories@) }
}

fn count_in_sessions(ss: &Vec<Session>) -> (r: u64)
    requires
        ss@.len() <= u32::MAX,
    ensures
        r == active_in(ss@),
        r <= ss@.len(),
{
    let n = ss.len();
    let mut c: u64 = 0;
    let mut i: usize = 0;
    while i < n
        invariant
            n == ss@.len(),
            n <= u32::MAX,
            i <= n,
            c == active_in(ss@.take(i as int)),
            c <= i,
        decreases n - i,
    {
        assert(ss@.take(i as int + 1).drop_last() =~= ss@.take(i as int));
        if ss[i].status.is_active() {
            c = c + 1;
        }
        i = i + 1;
    }
    assert(ss@.take(n as int) =~= ss@);
    c
}

/// Every collection of the guilds holds fewer than 2^16 items, so that
/// the counts over them fit.
pub open spec fn sizes_bounded(gs: Seq<QGuild>) -> bool {
    &&& gs.len() <= 0xffff
    &&& forall|g: int| 0 <= g < gs.len() ==> (#[trigger] gs[g]).categories@.len() <= 0xffff
    &&& forall|g: int, c: int| 0 <= g < gs.len() && 0 <= c < gs[g].categories@.len()
        ==> (#[trigger] gs[g].categories@[c]).formats@.len() <= 0xff
    &&& forall|g: int, c: int, f: int| 0 <= g < gs.len() && 0 <= c < gs[g].categories@.len()
        && 0 <= f < gs[g].categories@[c].formats@.len()
        ==> (#[trigger] gs[g].categories@[c].formats@[f]).sessions@.len() <= 0xffff
}

fn count_in_formats(fs: &Vec<Format>) -> (r: u64)
    requires
        fs@.len() <= 0xff,
        forall|f: int| 0 <= f < fs@.len() ==> (#[trigger] fs@[f]).sessions@.len() <= 0xffff,
    ensures
        r == active_in_formats(fs@),
        r <= fs@.len() * 0xffff,
{
    let n = fs.len();
    let mut c: u64 = 0;
    let mut i: usize = 0;
    while i < n
        invariant
            n == fs@.len(),
            n <= 0xff,
            forall|f: int| 0 <= f < fs@.len() ==> (#[trigger] fs@[f]).sessions@.len() <= 0xffff,
            i <= n,
            c == active_in_formats(fs@.take(i as int)),
            c <= i * 0xffff,
        decreases n - i,
    {
        assert(fs@.take(i as int + 1).drop_last() =~= fs@.take(i as int));
        let k = count_in_sessions(&fs[i].sessions);
        c = c + k;
        i = i + 1;
    }
    assert(fs@.take(n as int) =~= fs@);
    c
}

fn count_in_categories(cs: &Vec<Category>) -> (r: u64)
    requires
        cs@.len() <= 0xffff,
        forall|c: int| 0 <= c < cs@.len() ==> (#[trigger] cs@[c]).formats@.len() <= 0xff,
        forall|c: int, f: int| 0 <= c < cs@.len() && 0 <= f < cs@[c].formats@.len()
            ==> (#[trigger] cs@[c].formats@[f]).sessions@.len() <= 0xffff,
    ensures
        r == active_in_categories(cs@),
        r <= cs@.len() * 0xff * 0xffff,
{
    let n = cs.len();
    let mut c: u64 = 0;
    let mut i: usize = 0;
    while i < n
        invariant
            n == cs@.len(),
            n <= 0xffff,
            forall|c: int| 0 <= c < cs@.len() ==> (#[trigger] cs@[c]).formats@.len() <= 0xff,
            forall|c: int, f: int| 0 <= c < cs@.len() && 0 <= f < cs@[c].formats@.len()
                ==> (#[trigger] cs@[c].formats@[f]).sessions@.len() <= 0xffff,
            i <= n,
            c == active_in_categories(cs@.take(i as int)),
            c <= i * 0xff * 0xffff,
        decreases n - i,
    {
        assert(cs@.take(i as int + 1).drop_last() =~= cs@.take(i as int));
        let fs = &cs[i].formats;
        assert forall|f: int| 0 <= f < fs@.len() implies (#[trigger] fs@[f]).sessions@.len() <= 0xffff by {
            assert(cs@[i as int].formats@[f] == fs@[f]);
        }
        let k = count_in_formats(fs);
        assert(k <= 0xff * 0xffff) by (nonlinear_arith)
            requires k <= fs@.len() * 0xffff, fs@.len() <= 0xff;
        assert(c + k <= (i + 1) * 0xff * 0xffff) by (nonlinear_arith)
            requires c <= i * 0xff * 0xffff, k <= 0xff * 0xffff;
        c = c + k;
        i = i + 1;
    }
    assert(cs@.take(n as int) =~= cs@);
    c
}

impl Manager {
    /// The number of sessions with a game under way, over every format of
    /// every category of every guild.
    pub fn count_active_sessions(&self) -> (r: u64)
        requires
            sizes_bounded(self.qguilds@),
        ensures
            r == active_in_guilds(self.qguilds@),
    {
        let gs = &self.qguilds;
        let n = gs.len();
        let mut c: u64 = 0;
        let mut i: usize = 0;
        while i < n
            invariant
                gs@ == self.qguilds@,
                n == gs@.len(),
                sizes_bounded(gs@),
                i <= n,
                c == active_in_guilds(gs@.take(i as int)),
                c <= i * 0xffff * 0xff * 0xffff,
            decreases n - i,
        {
            assert(gs@.take(i as int + 1).drop_last() =~= gs@.take(i as int));
            let cs = &gs[i].categories;
            assert forall|x: int| 0 <= x < cs@.len() implies (#[trigger] cs@[x]).formats@.len() <= 0xff by {
                assert(gs@[i as int].categories@[x] == cs@[x]);
            }
            assert forall|x: int, f: int| 0 <= x < cs@.len() && 0 <= f < cs@[x].formats@.len()
                implies (#[trigger] cs@[x].formats@[f]).sessions@.len() <= 0xffff by {
                assert(gs@[i as int].categories@[x] == cs@[x]);
            }
            let k = count_in_categories(cs);
            assert(k <= 0xffff * 0xff * 0xffff) by (nonlinear_arith)
                requires k <= cs@.len() * 0xff * 0xffff, cs@.len() <= 0xffff;
            assert(c + k <= (i + 1) * 0xffff * 0xff * 0xffff) by (nonlinear_arith)
                requires c <= i * 0xffff * 0xff * 0xffff, k <= 0xffff * 0xff * 0xffff;
            c = c + k;
            i = i + 1;
        }
        assert(gs@.take(n as int) =~= gs@);
        c
    }

    /// Whether some game is under way anywhere.
    pub fn has_active_sessions(&self) -> (r: bool)
        requires
            sizes_bounded(self.qguilds@),
        ensures
            r == (active_in_guilds(self.qguilds@) > 0),
    {
        self.count_active_sessions() > 0
    }
}

fn no_guild_message(id: u64, count: usize) -> (r: String)
    ensures
        r@ == no_guild_text(id, count as nat),
{
    let mut s = String::from_str("Server not found for guild ID: ");
    push_dec(&mut s, id);
    s.append(", Vec len: ");
    push_dec(&mut s, count as u64);
    s
}

fn no_category_message(category_id: u8, guild_id: u64) -> (r: String)
    ensures
        r@ == no_category_text(category_id, guild_id),
{
    let mut s = String::from_str("Category ");
    push_dec(&mut s, category_id as u64);
    s.append(" not found for guild ID: ");
    push_dec(&mut s, guild_id);
    s
}

/// Index of the first guild with id `id`, if any.
pub fn find_guild(gs: &Vec<QGuild>, id: u64) -> (r: Option<usize>)
    ensures
        match r {
            Some(i) => i as int == guild_index(gs@, id, 0) && i < gs@.len(),
            None => guild_index(gs@, id, 0) == gs@.len(),
        },
{
    proof {
        lemma_guild_index(gs@, id, 0);
    }
    let n = gs.len();
    let mut i: usize = 0;
    while i < n
        invariant
            n == gs@.len(),
            i <= n,
            guild_index(gs@, id, 0) == guild_index(gs@, id, i as int),
        decreases n - i,
    {
        if gs[i].id == id {
            return Some(i);
        }
        i = i + 1;
    }
    None
}

/// Index of the first category with id `id`, if any.
pub fn find_category(cs: &Vec<Category>, id: u8) -> (r: Option<usize>)
    ensures
        match r {
            Some(i) => i as int == category_index(cs@, id, 0) && i < cs@.len(),
            None => category_index(cs@, id, 0) == cs@.len(),
        },
{
    proof {
        lemma_category_index(cs@, id, 0);
    }
    let n = cs.len();
    let mut i: usize = 0;
    while i < n
        invariant
            n == cs@.len(),
            i <= n,
            category_index(cs@, id, 0) == category_index(cs@, id, i as int),
        decreases n - i,
    {
        if cs[i].id == id {
            return Some(i);
        }
        i = i + 1;
    }
    None
}

impl Manager {
    /// The first guild with id `guild_id`, to change in place; an error
    /// naming the id and the number of guilds when there is none.
    pub fn get_qguild(&mut self, guild_id: u64) -> (r: Result<&mut QGuild, String>)
        ensures
            ({
                let i = guild_index(old(self).qguilds@, guild_id, 0);
                match r {
                    Ok(g) => i < old(self).qguilds@.len()
                        && *g == old(self).qguilds@[i]
                        && final(self).qguilds@ == old(self).qguilds@.update(i, *final(g))
                        && final(self).score_submissions == old(self).score_submissions
                        && final(self).match_starts == old(self).match_starts
                        && final(self).interactions == old(self).interactions,
                    Err(e) => i == old(self).qguilds@.len()
                        && e@ == no_guild_text(guild_id, old(self).qguilds@.len())
                        && *final(self) == *old(self),
                }
            }),
    {
        match find_guild(&self.qguilds, guild_id) {
            Some(i) => Ok(&mut self.qguilds[i]),
            None => Err(no_guild_message(guild_id, self.qguilds.len())),
        }
    }
}

impl Manager {
    /// The category `category_id` of guild `guild_id`, to change in place;
    /// the guild's error when the guild is unknown, else an error naming
    /// both ids when the guild has no such category.
    pub fn get_category_by_id(&mut self, guild_id: u64, category_id: u8) -> (r: Result<&mut Category, String>)
        ensures
            ({
                let gs = old(self).qguilds@;
                let gi = guild_index(gs, guild_id, 0);
                if gi == gs.len() {
                    r matches Err(e) && e@ == no_guild_text(guild_id, gs.len()) && *final(self) == *old(self)
                } else {
                    let cs = gs[gi].categories@;
                    let ci = category_index(cs, category_id, 0);
                    if ci == cs.len() {
                        r matches Err(e) && e@ == no_category_text(category_id, guild_id)
                            && final(self).qguilds@.len() == gs.len()
                            && final(self).qguilds@[gi].categories@ == cs
                    } else {
                        r matches Ok(c) && *c == cs[ci]
                            && final(self).qguilds@.len() == gs.len()
                            && final(self).qguilds@[gi].categories@ == cs.update(ci, *final(c))
                    }
                }
            }),
            forall|k: int| 0 <= k < old(self).qguilds@.len() && k != guild_index(old(self).qguilds@, guild_id, 0)
                ==> #[trigger] final(self).qguilds@[k] == old(self).qguilds@[k],
            guild_index(old(self).qguilds@, guild_id, 0) < old(self).qguilds@.len() ==> {
                let gi = guild_index(old(self).qguilds@, guild_id, 0);
                &&& final(self).qguilds@[gi].id == old(self).qguilds@[gi].id
                &&& final(self).qguilds@[gi].name == old(self).qguilds@[gi].name
            },
            final(self).score_submissions == old(self).score_submissions,
            final(self).match_starts == old(self).match_starts,
            final(self).interactions == old(self).interactions,
    {
        proof {
            lemma_guild_index(self.qguilds@, guild_id, 0);
        }
        let g = match self.get_qguild(guild_id) {
            Ok(g) => g,
            Err(e) => {
                return Err(e);
            },
        };
        proof {
            lemma_category_index(g.categories@, category_id, 0);
        }
        match find_category(&g.categories, category_id) {
            Some(i) => Ok(&mut g.categories[i]),
            None => Err(no_category_message(category_id, guild_id)),
        }
    }
}

/// Category `n` is category `o` once the empty idle sessions of its first
/// format are dropped.
pub open spec fn cleaned(o: Category, n: Category) -> bool {
    &&& n.id == o.id
    &&& n.name == o.name
    &&& n.restarting == o.restarting
    &&& n.require_score_report == o.require_score_report
    &&& n.confirm_time == o.confirm_time
    &&& n.last_action == o.last_action
    &&& n.last_ping_ms == o.last_ping_ms
    &&& n.formats@.len() == o.formats@.len()
    &&& n.formats@[0].sessions@ == kept_sessions(o.formats@[0].sessions@)
    &&& n.formats@[0].id == o.formats@[0].id
    &&& n.formats@[0].name == o.formats@[0].name
    &&& n.formats@[0].quota == o.formats@[0].quota
    &&& n.formats@[0].connect_info == o.formats@[0].connect_info
    &&& forall|k: int| 1 <= k < o.formats@.len() ==> #[trigger] n.formats@[k] == o.formats@[k]
}

/// Every category of every guild has a format.
pub open spec fn all_have_format(gs: Seq<QGuild>) -> bool {
    forall|g: int, c: int| 0 <= g < gs.len() && 0 <= c < gs[g].categories@.len()
        ==> (#[trigger] gs[g].categories@[c]).formats@.len() > 0
}

impl Manager {
    /// Drops the idle sessions without players from the first format of
    /// every category of every guild.
    pub fn cleanup_empty_games(&mut self)
        requires
            all_have_format(old(self).qguilds@),
        ensures
            final(self).qguilds@.len() == old(self).qguilds@.len(),
            forall|g: int| 0 <= g < old(self).qguilds@.len() ==> {
                &&& (#[trigger] final(self).qguilds@[g]).id == old(self).qguilds@[g].id
                &&& final(self).qguilds@[g].name == old(self).qguilds@[g].name
                &&& final(self).qguilds@[g].categories@.len() == old(self).qguilds@[g].categories@.len()
            },
            forall|g: int, c: int| 0 <= g < old(self).qguilds@.len() && 0 <= c < old(self).qguilds@[g].categories@.len()
                ==> cleaned(old(self).qguilds@[g].categories@[c], #[trigger] final(self).qguilds@[g].categories@[c]),
            final(self).score_submissions == old(self).score_submissions,
            final(self).match_starts == old(self).match_starts,
            final(self).interactions == old(self).interactions,
    {
        let ghost orig = self.qguilds@;
        let n = self.qguilds.len();
        let mut i: usize = 0;
        while i < n
            invariant
                n == orig.len(),
                self.qguilds@.len() == n,
                all_have_format(orig),
                i <= n,
                forall|g: int| i <= g < n ==> #[trigger] self.qguilds@[g] == orig[g],
                forall|g: int| 0 <= g < i ==> {
                    &&& (#[trigger] self.qguilds@[g]).id == orig[g].id
                    &&& self.qguilds@[g].name == orig[g].name
                    &&& self.qguilds@[g].categories@.len() == orig[g].categories@.len()
                },
                forall|g: int, c: int| 0 <= g < i && 0 <= c < orig[g].categories@.len()
                    ==> cleaned(orig[g].categories@[c], #[trigger] self.qguilds@[g].categories@[c]),
                self.score_submissions == old(self).score_submissions,
                self.match_starts == old(self).match_starts,
                self.interactions == old(self).interactions,
            decreases n - i,
        {
            let m = self.qguilds[i].categories.len();
            let ghost before = self.qguilds@;
            let mut j: usize = 0;
            while j < m
                invariant
                    n == orig.len(),
                    i < n,
                    self.qguilds@.len() == n,
                    all_have_format(orig),
                    m == orig[i as int].categories@.len(),
                    before[i as int] == orig[i as int],
                    j <= m,
                    forall|g: int| 0 <= g < n && g != i ==> #[trigger] self.qguilds@[g] == before[g],
                    self.qguilds@[i as int].id == orig[i as int].id,
                    self.qguilds@[i as int].name == orig[i as int].name,
                    self.qguilds@[i as int].categories@.len() == m,
                    forall|c: int| j <= c < m ==> #[trigger] self.qguilds@[i as int].categories@[c] == orig[i as int].categories@[c],
                    forall|c: int| 0 <= c < j ==> cleaned(orig[i as int].categories@[c], #[trigger] self.qguilds@[i as int].categories@[c]),
                    self.score_submissions == old(self).score_submissions,
                    self.match_starts == old(self).match_starts,
                    self.interactions == old(self).interactions,
                decreases m - j,
            {
                let ghost oc = self.qguilds@[i as int].categories@[j as int];
                assert(oc.formats@.len() > 0) by {
                    assert(orig[i as int].categories@[j as int] == oc);
                }
                self.qguilds[i].categories[j].formats[0].cleanup_empty_idle_sessions();
                j = j + 1;
            }
            i = i + 1;
        }
    }
}

/// The guilds of `gs` the bot is still in (`present`), in order.
pub open spec fn kept_guilds(gs: Seq<QGuild>, present: Seq<u64>) -> Seq<QGuild> {
    gs.filter(|g: QGuild| present.contains(g.id))
}

/// Category `n` is category `o` with the games started more than an hour
/// before `now` dropped from every format.
pub open spec fn refreshed(o: Category, n: Category, now: u64) -> bool {
    &&& n.id == o.id
    &&& n.name == o.name
    &&& n.restarting == o.restarting
    &&& n.require_score_report == o.require_score_report
    &&& n.confirm_time == o.confirm_time
    &&& n.last_action == o.last_action
    &&& n.last_ping_ms == o.last_ping_ms
    &&& n.formats@.len() == o.formats@.len()
    &&& forall|k: int| 0 <= k < o.formats@.len() ==> {
        &&& (#[trigger] n.formats@[k]).sessions@ == o.formats@[k].sessions@.filter(|s: Session| fresh_session(s, now))
        &&& n.formats@[k].id == o.formats@[k].id
        &&& n.formats@[k].name == o.formats@[k].name
        &&& n.formats@[k].quota == o.formats@[k].quota
        &&& n.formats@[k].connect_info == o.formats@[k].connect_info
    }
}

fn contains_id(v: &Vec<u64>, id: u64) -> (r: bool)
    ensures
        r == v@.contains(id),
{
    let n = v.len();
    let mut i: usize = 0;
    while i < n
        invariant
            n == v@.len(),
            i <= n,
            forall|k: int| 0 <= k < i ==> v@[k] != id,
        decreases n - i,
    {
        if v[i] == id {
            assert(v@[i as int] == id);
            return true;
        }
        i = i + 1;
    }
    false
}

impl Manager {
    fn refresh_category(&mut self, g: usize, c: usize, now: u64)
        requires
            g < old(self).qguilds@.len(),
            c < old(self).qguilds@[g as int].categories@.len(),
        ensures
            final(self).qguilds@.len() == old(self).qguilds@.len(),
            forall|x: int| 0 <= x < old(self).qguilds@.len() && x != g ==> #[trigger] final(self).qguilds@[x] == old(self).qguilds@[x],
            final(self).qguilds@[g as int].id == old(self).qguilds@[g as int].id,
            final(self).qguilds@[g as int].name == old(self).qguilds@[g as int].name,
            final(self).qguilds@[g as int].categories@.len() == old(self).qguilds@[g as int].categories@.len(),
            forall|y: int| 0 <= y < old(self).qguilds@[g as int].categories@.len() && y != c
                ==> #[trigger] final(self).qguilds@[g as int].categories@[y] == old(self).qguilds@[g as int].categories@[y],
            refreshed(old(self).qguilds@[g as int].categories@[c as int], final(self).qguilds@[g as int].categories@[c as int], now),
            final(self).score_submissions == old(self).score_submissions,
            final(self).match_starts == old(self).match_starts,
            final(self).interactions == old(self).interactions,
    {
        let ghost oc = self.qguilds@[g as int].categories@[c as int];
        let m = self.qguilds[g].categories[c].formats.len();
        let mut k: usize = 0;
        while k < m
            invariant
                g < old(self).qguilds@.len(),
                c < old(self).qguilds@[g as int].categories@.len(),
                oc == old(self).qguilds@[g as int].categories@[c as int],
                m == oc.formats@.len(),
                k <= m,
                self.qguilds@.len() == old(self).qguilds@.len(),
                forall|x: int| 0 <= x < old(self).qguilds@.len() && x != g ==> #[trigger] self.qguilds@[x] == old(self).qguilds@[x],
                self.qguilds@[g as int].id == old(self).qguilds@[g as int].id,
                self.qguilds@[g as int].name == old(self).qguilds@[g as int].name,
                self.qguilds@[g as int].categories@.len() == old(self).qguilds@[g as int].categories@.len(),
                forall|y: int| 0 <= y < old(self).qguilds@[g as int].categories@.len() && y != c
                    ==> #[trigger] self.qguilds@[g as int].categories@[y] == old(self).qguilds@[g as int].categories@[y],
                ({
                    let nc = self.qguilds@[g as int].categories@[c as int];
                    &&& nc.id == oc.id
                    &&& nc.name == oc.name
                    &&& nc.restarting == oc.restarting
                    &&& nc.require_score_report == oc.require_score_report
                    &&& nc.confirm_time == oc.confirm_time
                    &&& nc.last_action == oc.last_action
                    &&& nc.last_ping_ms == oc.last_ping_ms
                    &&& nc.formats@.len() == m
                    &&& forall|f: int| k <= f < m ==> #[trigger] nc.formats@[f] == oc.formats@[f]
                    &&& forall|f: int| 0 <= f < k ==> {
                        &&& (#[trigger] nc.formats@[f]).sessions@ == oc.formats@[f].sessions@.filter(|s: Session| fresh_session(s, now))
                        &&& nc.formats@[f].id == oc.formats@[f].id
                        &&& nc.formats@[f].name == oc.formats@[f].name
                        &&& nc.formats@[f].quota == oc.formats@[f].quota
                        &&& nc.formats@[f].connect_info == oc.formats@[f].connect_info
                    }
                }),
                self.score_submissions == old(self).score_submissions,
                self.match_starts == old(self).match_starts,
                self.interactions == old(self).interactions,
            decreases m - k,
        {
            self.qguilds[g].categories[c].formats[k].drop_stale_sessions(now);
            k = k + 1;
        }
    }

    /// Brings restored state up to date at `now`: forgets the guilds the
    /// bot is no longer in (those not in `present`), drops the games
    /// started more than an hour before, and the stale score reports.
    pub fn validate_and_cleanup(&mut self, present: &Vec<u64>, now: u64)
        requires
            old(self).wf(),
        ensures
            final(self).wf(),
            final(self).qguilds@.len() == kept_guilds(old(self).qguilds@, present@).len(),
            forall|g: int| 0 <= g < final(self).qguilds@.len() ==> {
                let o = kept_guilds(old(self).qguilds@, present@)[g];
                &&& (#[trigger] final(self).qguilds@[g]).id == o.id
                &&& final(self).qguilds@[g].name == o.name
                &&& final(self).qguilds@[g].categories@.len() == o.categories@.len()
                &&& forall|c: int| 0 <= c < o.categories@.len()
                    ==> refreshed(o.categories@[c], #[trigger] final(self).qguilds@[g].categories@[c], now)
            },
            final(self).score_submissions.view() == entries_filter(
                old(self).score_submissions.view(),
                |k: ClaimKey, v: (u64, u64)| survives_cleanup(now, v.1),
            ),
            final(self).match_starts == old(self).match_starts,
            final(self).interactions == old(self).interactions,
    {
        let mut old_gs: Vec<QGuild> = Vec::new();
        std::mem::swap(&mut old_gs, &mut self.qguilds);
        let ghost orig = old_gs@;
        let n = old_gs.len();
        let mut i: usize = 0;
        while i < n
            invariant
                n == orig.len(),
                old_gs@.len() == n - i,
                forall|k: int| 0 <= k < old_gs@.len() ==> #[trigger] old_gs@[k] == orig[i + k],
                i <= n,
                self.qguilds@ == kept_guilds(orig.take(i as int), present@),
                self.score_submissions == old(self).score_submissions,
                self.match_starts == old(self).match_starts,
                self.interactions == old(self).interactions,
            decreases n - i,
        {
            let ghost before = old_gs@;
            let g = old_gs.remove(0);
            assert(g == orig[i as int]);
            assert forall|k: int| 0 <= k < old_gs@.len() implies #[trigger] old_gs@[k] == orig[i + 1 + k] by {
                assert(old_gs@[k] == before[k + 1]);
            }
            assert(orig.take(i as int + 1).drop_last() =~= orig.take(i as int));
            assert(orig.take(i as int + 1).last() == g);
            proof {
                reveal(Seq::filter);
            }
            if contains_id(present, g.id) {
                self.qguilds.push(g);
            }
            i = i + 1;
        }
        assert(orig.take(n as int) =~= orig);
        let ghost kept = self.qguilds@;
        let m = self.qguilds.len();
        let mut gi: usize = 0;
        while gi < m
            invariant
                m == kept.len(),
                self.qguilds@.len() == m,
                gi <= m,
                forall|g: int| gi <= g < m ==> #[trigger] self.qguilds@[g] == kept[g],
                forall|g: int| 0 <= g < gi ==> {
                    &&& (#[trigger] self.qguilds@[g]).id == kept[g].id
                    &&& self.qguilds@[g].name == kept[g].name
                    &&& self.qguilds@[g].categories@.len() == kept[g].categories@.len()
                    &&& forall|c: int| 0 <= c < kept[g].categories@.len()
                        ==> refreshed(kept[g].categories@[c], #[trigger] self.qguilds@[g].categories@[c], now)
                },
                self.score_submissions == old(self).score_submissions,
                self.match_starts == old(self).match_starts,
                self.interactions == old(self).interactions,
            decreases m - gi,
        {
            let nc = self.qguilds[gi].categories.len();
            let mut ci: usize = 0;
            while ci < nc
                invariant
                    m == kept.len(),
                    self.qguilds@.len() == m,
                    gi < m,
                    ci <= nc,
                    nc == kept[gi as int].categories@.len(),
                    forall|g: int| gi < g < m ==> #[trigger] self.qguilds@[g] == kept[g],
                    forall|g: int| 0 <= g < gi ==> {
                        &&& (#[trigger] self.qguilds@[g]).id == kept[g].id
                        &&& self.qguilds@[g].name == kept[g].name
                        &&& self.qguilds@[g].categories@.len() == kept[g].categories@.len()
                        &&& forall|c: int| 0 <= c < kept[g].categories@.len()
                            ==> refreshed(kept[g].categories@[c], #[trigger] self.qguilds@[g].categories@[c], now)
                    },
                    self.qguilds@[gi as int].id == kept[gi as int].id,
                    self.qguilds@[gi as int].name == kept[gi as int].name,
                    self.qguilds@[gi as int].categories@.len() == nc,
                    forall|c: int| ci <= c < nc ==> #[trigger] self.qguilds@[gi as int].categories@[c] == kept[gi as int].categories@[c],
                    forall|c: int| 0 <= c < ci ==> refreshed(kept[gi as int].categories@[c], #[trigger] self.qguilds@[gi as int].categories@[c], now),
                    self.score_submissions == old(self).score_submissions,
                    self.match_starts == old(self).match_starts,
                    self.interactions == old(self).interactions,
                decreases nc - ci,
            {
                self.refresh_category(gi, ci, now);
                ci = ci + 1;
            }
            gi = gi + 1;
        }
        self.cleanup_stale_score_submissions(now);
    }
}

/// The ids of the categories of `cs` in which `user` waits, in order.
pub open spec fn holding_ids(cs: Seq<Category>, user: u64) -> Seq<u8>
    decreases cs.len(),
{
    if cs.len() == 0 {
        Seq::empty()
    } else if cs.last().spec_in_any_queue(user) {
        holding_ids(cs.drop_last(), user).push(cs.last().id)
    } else {
        holding_ids(cs.drop_last(), user)
    }
}

/// The (guild, category) keys of the dashboards of categories `cs` of
/// guild `gid`, in order.
pub open spec fn dashboard_keys_of(gid: u64, cs: Seq<Category>) -> Seq<(u64, u8)> {
    cs.map_values(|c: Category| (gid, c.id))
}

/// The keys of the dashboards of every category of every guild, guild by
/// guild.
pub open spec fn all_dashboard_keys(gs: Seq<QGuild>) -> Seq<(u64, u8)>
    decreases gs.len(),
{
    if gs.len() == 0 {
        Seq::empty()
    } else {
        all_dashboard_keys(gs.drop_last()) + dashboard_keys_of(gs.last().id, gs.last().categories@)
    }
}

fn push_keys(out: &mut Vec<(u64, u8)>, gid: u64, cs: &Vec<Category>)
    ensures
        final(out)@ == old(out)@ + dashboard_keys_of(gid, cs@),
{
    let ghost start = out@;
    let n = cs.len();
    let mut i: usize = 0;
    while i < n
        invariant
            n == cs@.len(),
            i <= n,
            out@ == start + dashboard_keys_of(gid, cs@.take(i as int)),
        decreases n - i,
    {
        out.push((gid, cs[i].id));
        assert(dashboard_keys_of(gid, cs@.take(i as int + 1)) =~= dashboard_keys_of(gid, cs@.take(i as int)).push((gid, cs@[i as int].id)));
        i = i + 1;
    }
    assert(cs@.take(n as int) =~= cs@);
}

/// The name a guild is listed under: its own, or `Unknown`.
pub open spec fn listed_name(n: Option<String>) -> Seq<char> {
    match n {
        Some(s) => s@,
        None => "Unknown"@,
    }
}

impl Manager {
    /// The categories of guild `guild_id` in which `user` waits, whose
    /// dashboards are to be refreshed (none for an unknown guild).
    pub fn categories_holding_player(&self, guild_id: u64, user: u64) -> (r: Vec<u8>)
        ensures
            ({
                let gs = self.qguilds@;
                let gi = guild_index(gs, guild_id, 0);
                if gi < gs.len() { r@ == holding_ids(gs[gi].categories@, user) } else { r@.len() == 0 }
            }),
    {
        proof {
            lemma_guild_index(self.qguilds@, guild_id, 0);
        }
        let gi = match find_guild(&self.qguilds, guild_id) {
            Some(i) => i,
            None => {
                return Vec::new();
            },
        };
        let cs = &self.qguilds[gi].categories;
        let n = cs.len();
        let mut out: Vec<u8> = Vec::new();
        let mut i: usize = 0;
        while i < n
            invariant
                n == cs@.len(),
                i <= n,
                out@ == holding_ids(cs@.take(i as int), user),
            decreases n - i,
        {
            assert(cs@.take(i as int + 1).drop_last() =~= cs@.take(i as int));
            assert(cs@.take(i as int + 1).last() == cs@[i as int]);
            if cs[i].is_in_any_queue(user) {
                out.push(cs[i].id);
            }
            i = i + 1;
        }
        assert(cs@.take(n as int) =~= cs@);
        out
    }

    /// The dashboards to refresh when every dashboard is: one key per
    /// category of every guild.
    pub fn all_dashboards(&self) -> (r: Vec<(u64, u8)>)
        ensures
            r@ == all_dashboard_keys(self.qguilds@),
    {
        let gs = &self.qguilds;
        let n = gs.len();
        let mut out: Vec<(u64, u8)> = Vec::new();
        let mut i: usize = 0;
        while i < n
            invariant
                n == gs@.len(),
                i <= n,
                out@ == all_dashboard_keys(gs@.take(i as int)),
            decreases n - i,
        {
            assert(gs@.take(i as int + 1).drop_last() =~= gs@.take(i as int));
            assert(gs@.take(i as int + 1).last() == gs@[i as int]);
            push_keys(&mut out, gs[i].id, &gs[i].categories);
            i = i + 1;
        }
        assert(gs@.take(n as int) =~= gs@);
        out
    }

    /// The dashboards of the categories of guild `guild_id` (none for an
    /// unknown guild).
    pub fn guild_dashboards(&self, guild_id: u64) -> (r: Vec<(u64, u8)>)
        ensures
            ({
                let gs = self.qguilds@;
                let gi = guild_index(gs, guild_id, 0);
                if gi < gs.len() { r@ == dashboard_keys_of(guild_id, gs[gi].categories@) } else { r@.len() == 0 }
            }),
    {
        proof {
            lemma_guild_index(self.qguilds@, guild_id, 0);
        }
        let mut out: Vec<(u64, u8)> = Vec::new();
        match find_guild(&self.qguilds, guild_id) {
            Some(gi) => {
                push_keys(&mut out, self.qguilds[gi].id, &self.qguilds[gi].categories);
                assert(out@ =~= dashboard_keys_of(guild_id, self.qguilds@[gi as int].categories@));
            },
            None => {},
        }
        out
    }

    /// A manager of the guilds Discord lists, (id, name when known) each,
    /// with no category and nothing claimed or locked. The current state is
    /// not carried over.
    pub fn pull_list(&mut self, guilds: &Vec<(u64, Option<String>)>) -> (r: Manager)
        ensures
            r.wf(),
            r.qguilds@.len() == guilds@.len(),
            forall|k: int| 0 <= k < guilds@.len() ==> {
                &&& (#[trigger] r.qguilds@[k]).id == guilds@[k].0
                &&& r.qguilds@[k].name@ == listed_name(guilds@[k].1)
                &&& r.qguilds@[k].categories@.len() == 0
            },
            r.score_submissions.view() == Map::<ClaimKey, (u64, u64)>::empty(),
            r.match_starts.view() == Map::<ClaimKey, (u64, u64)>::empty(),
            r.interactions.view() == Map::<u64, (String, u64)>::empty(),
            *final(self) == *old(self),
    {
        let n = guilds.len();
        let mut gs: Vec<QGuild> = Vec::new();
        let mut i: usize = 0;
        while i < n
            invariant
                n == guilds@.len(),
                i <= n,
                gs@.len() == i,
                forall|k: int| 0 <= k < i ==> {
                    &&& (#[trigger] gs@[k]).id == guilds@[k].0
                    &&& gs@[k].name@ == listed_name(guilds@[k].1)
                    &&& gs@[k].categories@.len() == 0
                },
            decreases n - i,
        {
            let name = match &guilds[i].1 {
                Some(s) => s.clone(),
                None => String::from_str("Unknown"),
            };
            gs.push(QGuild::new(guilds[i].0, name));
            i = i + 1;
        }
        let mut m = Manager::new(0);
        m.qguilds = gs;
        m
    }
}

/// An in-game entry as plain values: (user, guild, format name).
pub type GameEntry = (u64, u64, Seq<char>);

/// In-game entries as plain values.
pub open spec fn entries_view(v: Seq<(u64, u64, String)>) -> Seq<GameEntry> {
    v.map_values(|x: (u64, u64, String)| (x.0, x.1, x.2@))
}

/// One entry per player of `ps`.
pub open spec fn pool_entries(ps: Seq<SessionPlayer>, gid: u64, name: Seq<char>) -> Seq<GameEntry> {
    ps.map_values(|p: SessionPlayer| (p.user_id, gid, name))
}

/// The entries of the players of the sessions of `ss` with a game under
/// way, in order.
pub open spec fn session_entries(ss: Seq<Session>, gid: u64, name: Seq<char>) -> Seq<GameEntry>
    decreases ss.len(),
{
    if ss.len() == 0 {
        Seq::empty()
    } else {
        session_entries(ss.drop_last(), gid, name)
            + if ss.last().status.spec_is_active() { pool_entries(ss.last().pool@, gid, name) } else { Seq::empty() }
    }
}

/// The entries of the formats `fs`, in order.
pub open spec fn format_entries(fs: Seq<Format>, gid: u64) -> Seq<GameEntry>
    decreases fs.len(),
{
    if fs.len() == 0 { Seq::empty() } else { format_entries(fs.drop_last(), gid) + session_entries(fs.last().sessions@, gid, fs.last().name@) }
}

/// The entries of the categories `cs`, in order.
pub open spec fn category_entries(cs: Seq<Category>, gid: u64) -> Seq<GameEntry>
    decreases cs.len(),
{
    if cs.len() == 0 { Seq::empty() } else { category_entries(cs.drop_last(), gid) + format_entries(cs.last().formats@, gid) }
}

/// The entries of the guilds `gs`, in order: every player of every game
/// under way, with their guild and the game's format.
pub open spec fn guild_entries(gs: Seq<QGuild>) -> Seq<GameEntry>
    decreases gs.len(),
{
    if gs.len() == 0 { Seq::empty() } else { guild_entries(gs.drop_last()) + category_entries(gs.last().categories@, gs.last().id) }
}

fn push_pool(out: &mut Vec<(u64, u64, String)>, ps: &Vec<SessionPlayer>, gid: u64, name: &String)
    ensures
        entries_view(final(out)@) == entries_view(old(out)@) + pool_entries(ps@, gid, name@),
{
    let n = ps.len();
    let mut i: usize = 0;
    while i < n
        invariant
            n == ps@.len(),
            i <= n,
            entries_view(out@) == entries_view(old(out)@) + pool_entries(ps@.take(i as int), gid, name@),
        decreases n - i,
    {
        let ghost before = entries_view(out@);
        out.push((ps[i].user_id, gid, name.clone()));
        assert(entries_view(out@) =~= before.push((ps@[i as int].user_id, gid, name@)));
        assert(pool_entries(ps@.take(i as int + 1), gid, name@) =~= pool_entries(ps@.take(i as int), gid, name@).push((ps@[i as int].user_id, gid, name@)));
        i = i + 1;
    }
    assert(ps@.take(n as int) =~= ps@);
}

fn push_sessions(out: &mut Vec<(u64, u64, String)>, ss: &Vec<Session>, gid: u64, name: &String)
    ensures
        entries_view(final(out)@) == entries_view(old(out)@) + session_entries(ss@, gid, name@),
{
    let n = ss.len();
    let mut i: usize = 0;
    while i < n
        invariant
            n == ss@.len(),
            i <= n,
            entries_view(out@) == entries_view(old(out)@) + session_entries(ss@.take(i as int), gid, name@),
        decreases n - i,
    {
        assert(ss@.take(i as int + 1).drop_last() =~= ss@.take(i as int));
        assert(ss@.take(i as int + 1).last() == ss@[i as int]);
        let ghost before = entries_view(out@);
        if ss[i].status.is_active() {
            push_pool(out, &ss[i].pool, gid, name);
        }
        assert(entries_view(out@) =~= entries_view(old(out)@) + session_entries(ss@.take(i as int + 1), gid, name@));
        i = i + 1;
    }
    assert(ss@.take(n as int) =~= ss@);
}

fn push_formats(out: &mut Vec<(u64, u64, String)>, fs: &Vec<Format>, gid: u64)
    ensures
        entries_view(final(out)@) == entries_view(old(out)@) + format_entries(fs@, gid),
{
    let n = fs.len();
    let mut i: usize = 0;
    while i < n
        invariant
            n == fs@.len(),
            i <= n,
            entries_view(out@) == entries_view(old(out)@) + format_entries(fs@.take(i as int), gid),
        decreases n - i,
    {
        assert(fs@.take(i as int + 1).drop_last() =~= fs@.take(i as int));
        assert(fs@.take(i as int + 1).last() == fs@[i as int]);
        push_sessions(out, &fs[i].sessions, gid, &fs[i].name);
        assert(entries_view(out@) =~= entries_view(old(out)@) + format_entries(fs@.take(i as int + 1), gid));
        i = i + 1;
    }
    assert(fs@.take(n as int) =~= fs@);
}

fn push_categories(out: &mut Vec<(u64, u64, String)>, cs: &Vec<Category>, gid: u64)
    ensures
        entries_view(final(out)@) == entries_view(old(out)@) + category_entries(cs@, gid),
{
    let n = cs.len();
    let mut i: usize = 0;
    while i < n
        invariant
            n == cs@.len(),
            i <= n,
            entries_view(out@) == entries_view(old(out)@) + category_entries(cs@.take(i as int), gid),
        decreases n - i,
    {
        assert(cs@.take(i as int + 1).drop_last() =~= cs@.take(i as int));
        assert(cs@.take(i as int + 1).last() == cs@[i as int]);
        push_formats(out, &cs[i].formats, gid);
        assert(entries_view(out@) =~= entries_view(old(out)@) + category_entries(cs@.take(i as int + 1), gid));
        i = i + 1;
    }
    assert(cs@.take(n as int) =~= cs@);
}

impl Manager {
    /// The players now in a game, (user, guild, format name) each, for the
    /// dashboards' status lines: the latest entry of a player (in guild,
    /// category, format, session and pool order) comes first, as it is the
    /// one that counts.
    pub fn in_game_players(&self) -> (r: Vec<(u64, u64, String)>)
        ensures
            entries_view(r@) == guild_entries(self.qguilds@).reverse(),
    {
        let gs = &self.qguilds;
        let n = gs.len();
        let mut all: Vec<(u64, u64, String)> = Vec::new();
        let mut i: usize = 0;
        while i < n
            invariant
                n == gs@.len(),
                i <= n,
                entries_view(all@) == guild_entries(gs@.take(i as int)),
            decreases n - i,
        {
            assert(gs@.take(i as int + 1).drop_last() =~= gs@.take(i as int));
            assert(gs@.take(i as int + 1).last() == gs@[i as int]);
            push_categories(&mut all, &gs[i].categories, gs[i].id);
            i = i + 1;
        }
        assert(gs@.take(n as int) =~= gs@);
        let ghost fwd = entries_view(all@);
        let m = all.len();
        let mut out: Vec<(u64, u64, String)> = Vec::new();
        let mut k: usize = m;
        while k > 0
            invariant
                m == all@.len(),
                fwd == entries_view(all@),
                k <= m,
                entries_view(out@) == fwd.subrange(k as int, m as int).reverse(),
            decreases k,
        {
            k = k - 1;
            let ghost before = entries_view(out@);
            let e = &all[k];
            out.push((e.0, e.1, e.2.clone()));
            assert(entries_view(out@) =~= before.push(fwd[k as int]));
            assert(fwd.subrange(k as int, m as int).reverse() =~= fwd.subrange(k as int + 1, m as int).reverse().push(fwd[k as int]));
        }
        assert(fwd.subrange(0, m as int) =~= fwd);
        out
    }
}

} // verus!
