//! The ELO gate of a category: which ranks may see it, chosen as a minimum
//! and a maximum rank among the guild's ranks in their stored order.

use vstd::prelude::*;
use vstd::string::*;
use crate::text::{dec, push_dec};

verus! {

/// A rank: its name and its ELO threshold.
pub type RankEntry = (String, u16);

/// `{name} (ELO {elo})`: how a rank is offered.
pub open spec fn rank_label(r: RankEntry) -> Seq<char> {
    r.0@ + " (ELO "@ + dec(r.1 as nat) + ")"@
}

fn rank_label_exec(r: &RankEntry) -> (s: String)
    ensures
        s@ == rank_label(*r),
{
    let mut x = r.0.clone();
    x.append(" (ELO ");
    push_dec(&mut x, r.1 as u64);
    x.append(")");
    assert(x@ =~= rank_label(*r));
    x
}

/// The options of the minimum rank choice: `No minimum` (value
/// `{category}_0`), then every rank with value `{category}_{index}`.
pub open spec fn min_options_spec(category_id: u8, ranks: Seq<RankEntry>) -> Seq<(Seq<char>, Seq<char>)> {
    seq![("No minimum"@, dec(category_id as nat) + "_0"@)] + Seq::new(ranks.len(), |i: int|
        (rank_label(ranks[i]), dec(category_id as nat) + "_"@ + dec(i as nat)))
}

fn id_pair(a: u64, b: u64) -> (s: String)
    ensures
        s@ == dec(a as nat) + "_"@ + dec(b as nat),
{
    let mut x = String::new();
    push_dec(&mut x, a);
    x.append("_");
    push_dec(&mut x, b);
    assert(x@ =~= dec(a as nat) + "_"@ + dec(b as nat));
    x
}

/// The options of the minimum rank choice.
pub fn elo_gate_min_options(category_id: u8, ranks: &Vec<RankEntry>) -> (r: Vec<(String, String)>)
    ensures
        r@.map_values(|o: (String, String)| (o.0@, o.1@)) == min_options_spec(category_id, ranks@),
{
    let mut v: Vec<(String, String)> = Vec::new();
    let mut first = String::new();
    push_dec(&mut first, category_id as u64);
    first.append("_0");
    v.push((String::from_str("No minimum"), first));
    let n = ranks.len();
    let mut i: usize = 0;
    while i < n
        invariant
            n == ranks@.len(),
            i <= n,
            v@.len() == i + 1,
            v@.map_values(|o: (String, String)| (o.0@, o.1@)) == min_options_spec(category_id, ranks@.take(i as int)),
        decreases n - i,
    {
        let ghost before = v@.map_values(|o: (String, String)| (o.0@, o.1@));
        let label = rank_label_exec(&ranks[i]);
        let value = id_pair(category_id as u64, i as u64);
        v.push((label, value));
        proof {
            let now_v = v@.map_values(|o: (String, String)| (o.0@, o.1@));
            let want = min_options_spec(category_id, ranks@.take(i as int + 1));
            let prev = min_options_spec(category_id, ranks@.take(i as int));
            assert(want.len() == now_v.len());
            assert forall|k: int| 0 <= k < want.len() implies now_v[k] == want[k] by {
                if k <= i {
                    assert(now_v[k] == before[k]);
                    assert(before[k] == prev[k]);
                    if k > 0 {
                        assert(ranks@.take(i as int + 1)[k - 1] == ranks@.take(i as int)[k - 1]);
                    }
                } else {
                    assert(ranks@.take(i as int + 1)[i as int] == ranks@[i as int]);
                }
            }
            assert(now_v =~= want);
        }
        i = i + 1;
    }
    assert(ranks@.take(n as int) =~= ranks@);
    v
}

/// The options of the maximum rank choice once `min_idx` was chosen: the
/// ranks from `min_idx` on, valued `{category}_{min}_{index}`, then `No
/// maximum` valued with the number of ranks.
pub open spec fn max_options_spec(category_id: u8, min_idx: usize, ranks: Seq<RankEntry>) -> Seq<(Seq<char>, Seq<char>)> {
    let prefix = dec(category_id as nat) + "_"@ + dec(min_idx as nat) + "_"@;
    let from = if min_idx <= ranks.len() { min_idx as int } else { ranks.len() as int };
    Seq::new((ranks.len() - from) as nat, |k: int| (rank_label(ranks[from + k]), prefix + dec((from + k) as nat)))
        .push(("No maximum"@, prefix + dec(ranks.len())))
}

fn triple(a: u64, b: u64, c: u64) -> (s: String)
    ensures
        s@ == dec(a as nat) + "_"@ + dec(b as nat) + "_"@ + dec(c as nat),
{
    let mut x = String::new();
    push_dec(&mut x, a);
    x.append("_");
    push_dec(&mut x, b);
    x.append("_");
    push_dec(&mut x, c);
    assert(x@ =~= dec(a as nat) + "_"@ + dec(b as nat) + "_"@ + dec(c as nat));
    x
}

/// The options of the maximum rank choice.
pub fn elo_gate_max_options(category_id: u8, min_idx: usize, ranks: &Vec<RankEntry>) -> (r: Vec<(String, String)>)
    requires
        ranks@.len() <= u64::MAX,
    ensures
        r@.map_values(|o: (String, String)| (o.0@, o.1@)) == max_options_spec(category_id, min_idx, ranks@),
{
    let n = ranks.len();
    let from = if min_idx <= n { min_idx } else { n };
    let ghost prefix = dec(category_id as nat) + "_"@ + dec(min_idx as nat) + "_"@;
    let mut v: Vec<(String, String)> = Vec::new();
    let mut i: usize = from;
    while i < n
        invariant
            n == ranks@.len(),
            from <= i <= n,
            from == (if min_idx <= n { min_idx } else { n }),
            prefix == dec(category_id as nat) + "_"@ + dec(min_idx as nat) + "_"@,
            v@.len() == i - from,
            forall|k: int| 0 <= k < i - from ==> (#[trigger] v@[k]).0@ == rank_label(ranks@[from + k])
                && v@[k].1@ == prefix + dec((from + k) as nat),
        decreases n - i,
    {
        let label = rank_label_exec(&ranks[i]);
        let value = triple(category_id as u64, min_idx as u64, i as u64);
        v.push((label, value));
        i = i + 1;
    }
    let last = triple(category_id as u64, min_idx as u64, n as u64);
    v.push((String::from_str("No maximum"), last));
    assert(v@.map_values(|o: (String, String)| (o.0@, o.1@)) =~= max_options_spec(category_id, min_idx, ranks@));
    v
}

/// The maximum index applied: the chosen one, at most the last rank (the
/// `No maximum` value maps to the last rank).
pub open spec fn clamp_max_spec(raw_max: usize, count: usize) -> usize {
    let last = if count == 0 { 0 } else { (count - 1) as usize };
    if raw_max < last { raw_max } else { last }
}

/// The maximum index applied.
pub fn clamp_max(raw_max: usize, count: usize) -> (r: usize)
    ensures
        r == clamp_max_spec(raw_max, count),
{
    let last = if count == 0 { 0 } else { count - 1 };
    if raw_max < last { raw_max } else { last }
}

/// Whether rank `i` may see the category under a gate from `min_idx` to
/// `max_idx`.
pub open spec fn gate_allows(i: int, min_idx: usize, max_idx: usize) -> bool {
    min_idx <= i <= max_idx
}

/// Which of `count` ranks may see the category: for each, allowed or
/// denied; and how many are allowed.
pub fn gate_access(count: usize, min_idx: usize, max_idx: usize) -> (r: (Vec<bool>, usize))
    ensures
        r.0@.len() == count,
        forall|i: int| 0 <= i < count ==> #[trigger] r.0@[i] == gate_allows(i, min_idx, max_idx),
        r.1 as int == Seq::new(count as nat, |i: int| i).filter(|i: int| gate_allows(i, min_idx, max_idx)).len(),
{
    let mut v: Vec<bool> = Vec::new();
    let mut allowed: usize = 0;
    let mut i: usize = 0;
    while i < count
        invariant
            i <= count,
            v@.len() == i,
            allowed <= i,
            forall|k: int| 0 <= k < i ==> #[trigger] v@[k] == gate_allows(k, min_idx, max_idx),
            allowed as int == Seq::new(i as nat, |k: int| k).filter(|k: int| gate_allows(k, min_idx, max_idx)).len(),
        decreases count - i,
    {
        let ok = i >= min_idx && i <= max_idx;
        proof {
            reveal(Seq::filter);
            let s1 = Seq::new((i + 1) as nat, |k: int| k);
            assert(s1.drop_last() =~= Seq::new(i as nat, |k: int| k));
        }
        v.push(ok);
        if ok {
            allowed = allowed + 1;
        }
        i = i + 1;
    }
    (v, allowed)
}

/// How the chosen bounds are named: `No minimum` for the first index,
/// `No maximum` from the last rank on, else the rank's name (`?` past the
/// end).
pub open spec fn gate_names_spec(min_idx: usize, max_idx: usize, ranks: Seq<RankEntry>) -> (Seq<char>, Seq<char>) {
    let last = if ranks.len() == 0 { 0 } else { ranks.len() - 1 };
    (
        if min_idx == 0 { "No minimum"@ } else if min_idx < ranks.len() { ranks[min_idx as int].0@ } else { "?"@ },
        if max_idx >= last { "No maximum"@ } else if max_idx < ranks.len() { ranks[max_idx as int].0@ } else { "?"@ },
    )
}

/// How the chosen bounds are named.
pub fn gate_names(min_idx: usize, max_idx: usize, ranks: &Vec<RankEntry>) -> (r: (String, String))
    ensures
        (r.0@, r.1@) == gate_names_spec(min_idx, max_idx, ranks@),
{
    let n = ranks.len();
    let last = if n == 0 { 0 } else { n - 1 };
    let a = if min_idx == 0 {
        String::from_str("No minimum")
    } else if min_idx < n {
        ranks[min_idx].0.clone()
    } else {
        String::from_str("?")
    };
    let b = if max_idx >= last {
        String::from_str("No maximum")
    } else if max_idx < n {
        ranks[max_idx].0.clone()
    } else {
        String::from_str("?")
    };
    (a, b)
}


/// The maximum applied is always a rank of the list (when there is one),
/// and never above the one chosen.
pub proof fn lemma_clamp_in_range(raw_max: usize, count: usize)
    ensures
        count > 0 ==> clamp_max_spec(raw_max, count) < count,
        clamp_max_spec(raw_max, count) <= raw_max,
{
}

} // verus!
