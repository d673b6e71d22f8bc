//! Splitting a session pool into its two teams, each listed by ELO, highest
//! first.

use vstd::prelude::*;
use crate::session::{SessionPlayer, Team};

verus! {

/// The players of `s` assigned to team `t`, in pool order.
pub open spec fn on_team(s: Seq<SessionPlayer>, t: Team) -> Seq<SessionPlayer>
    decreases s.len(),
{
    if s.len() == 0 {
        Seq::empty()
    } else if s.last().team == Some(t) {
        on_team(s.drop_last(), t).push(s.last())
    } else {
        on_team(s.drop_last(), t)
    }
}

/// First index at or after `i` whose ELO is below `e` (or the length).
pub open spec fn ins_pos(s: Seq<SessionPlayer>, e: u16, i: int) -> int
    decreases s.len() - i,
{
    if 0 <= i < s.len() && s[i].elo >= e {
        ins_pos(s, e, i + 1)
    } else {
        i
    }
}

/// Inserts `x` after every player whose ELO is at least `x`'s.
pub open spec fn insert_desc(s: Seq<SessionPlayer>, x: SessionPlayer) -> Seq<SessionPlayer> {
    s.insert(ins_pos(s, x.elo, 0), x)
}

/// Stable sort by ELO, highest first: players with equal ELO keep their
/// order.
pub open spec fn sort_desc(s: Seq<SessionPlayer>) -> Seq<SessionPlayer>
    decreases s.len(),
{
    if s.len() == 0 {
        s
    } else {
        insert_desc(sort_desc(s.drop_last()), s.last())
    }
}

/// Whether `s` is ordered by ELO, highest first.
pub open spec fn sorted_desc(s: Seq<SessionPlayer>) -> bool {
    forall|i: int, j: int| 0 <= i < j < s.len() ==> #[trigger] s[i].elo >= #[trigger] s[j].elo
}

proof fn lemma_ins_pos(s: Seq<SessionPlayer>, e: u16, i: int)
    requires
        0 <= i <= s.len(),
    ensures
        i <= ins_pos(s, e, i) <= s.len(),
        forall|k: int| i <= k < ins_pos(s, e, i) ==> #[trigger] s[k].elo >= e,
        ins_pos(s, e, i) < s.len() ==> s[ins_pos(s, e, i)].elo < e,
    decreases s.len() - i,
{
    if i < s.len() && s[i].elo >= e {
        lemma_ins_pos(s, e, i + 1);
    }
}

proof fn lemma_insert_desc_sorted(s: Seq<SessionPlayer>, x: SessionPlayer)
    requires
        sorted_desc(s),
    ensures
        sorted_desc(insert_desc(s, x)),
        insert_desc(s, x).to_multiset() == s.to_multiset().insert(x),
{
    let p = ins_pos(s, x.elo, 0);
    lemma_ins_pos(s, x.elo, 0);
    let r = insert_desc(s, x);
    s.insert_ensures(p, x);
    assert(r.len() == s.len() + 1);
    assert forall|i: int, j: int| 0 <= i < j < r.len() implies #[trigger] r[i].elo >= #[trigger] r[j].elo by {
        if j < p {
        } else if j == p {
            assert(r[i] == s[i]);
        } else if i < p {
            assert(r[j] == s[j - 1]);
            assert(s[i].elo >= s[j - 1].elo);
        } else if i == p {
            assert(r[j] == s[j - 1]);
            assert(s[p].elo >= s[j - 1].elo);
        } else {
            assert(r[i] == s[i - 1]);
            assert(r[j] == s[j - 1]);
        }
    }
    vstd::seq_lib::to_multiset_insert(s, p, x);
}

/// A team listing is ordered by ELO, highest first, and holds exactly the
/// players it was made from.
pub proof fn lemma_sort_desc(s: Seq<SessionPlayer>)
    ensures
        sorted_desc(sort_desc(s)),
        sort_desc(s).to_multiset() == s.to_multiset(),
        sort_desc(s).len() == s.len(),
    decreases s.len(),
{
    if s.len() > 0 {
        lemma_sort_desc(s.drop_last());
        lemma_insert_desc_sorted(sort_desc(s.drop_last()), s.last());
        vstd::seq_lib::to_multiset_build(s.drop_last(), s.last());
        assert(s.drop_last().push(s.last()) =~= s);
        sort_desc(s).to_multiset_ensures();
        s.to_multiset_ensures();
    }
}

fn sorted_team(pool: &[SessionPlayer], t: Team) -> (out: Vec<SessionPlayer>)
    ensures
        out@ == sort_desc(on_team(pool@, t)),
{
    let n = pool.len();
    let mut out: Vec<SessionPlayer> = Vec::new();
    let mut i: usize = 0;
    while i < n
        invariant
            n == pool@.len(),
            i <= n,
            out@ == sort_desc(on_team(pool@.subrange(0, i as int), t)),
        decreases n - i,
    {
        let x = pool[i];
        let ghost prev = pool@.subrange(0, i as int);
        assert(pool@.subrange(0, i as int + 1).drop_last() =~= prev);
        let same = match (x.team, t) {
            (Some(Team::Red), Team::Red) => true,
            (Some(Team::Blu), Team::Blu) => true,
            _ => false,
        };
        if same {
            let mut p: usize = 0;
            let m = out.len();
            while p < m && out[p].elo >= x.elo
                invariant
                    m == out@.len(),
                    p <= m,
                    ins_pos(out@, x.elo, 0) == ins_pos(out@, x.elo, p as int),
                decreases m - p,
            {
                p = p + 1;
            }
            out.insert(p, x);
            assert(on_team(pool@.subrange(0, i as int + 1), t) =~= on_team(prev, t).push(x));
            assert(on_team(prev, t).push(x).drop_last() =~= on_team(prev, t));
        } else {
            assert(on_team(pool@.subrange(0, i as int + 1), t) =~= on_team(prev, t));
        }
        i = i + 1;
    }
    assert(pool@.subrange(0, n as int) =~= pool@);
    out
}

/// Splits a pool into its red and blue teams by the players' team
/// assignment (not by position), each ordered by ELO, highest first, ties in
/// pool order. Players without a team are left out. The quota is not used:
/// every assigned player is listed.
pub fn get_sorted_teams(pool: &[SessionPlayer], quota: usize) -> (r: (Vec<SessionPlayer>, Vec<SessionPlayer>))
    ensures
        r.0@ == sort_desc(on_team(pool@, Team::Red)),
        r.1@ == sort_desc(on_team(pool@, Team::Blu)),
{
    let red = sorted_team(pool, Team::Red);
    let blu = sorted_team(pool, Team::Blu);
    (red, blu)
}

/// Public entry to `get_sorted_teams`.
pub fn get_sorted_teams_pub(pool: &[SessionPlayer], quota: usize) -> (r: (Vec<SessionPlayer>, Vec<SessionPlayer>))
    ensures
        r.0@ == sort_desc(on_team(pool@, Team::Red)),
        r.1@ == sort_desc(on_team(pool@, Team::Blu)),
{
    get_sorted_teams(pool, quota)
}

} // verus!
