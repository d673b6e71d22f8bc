//! Small maps kept as vectors of (key, value) entries, each key at most
//! once, and what removing, adding and filtering entries does to them.

use vstd::prelude::*;

verus! {

/// Each key occurs at most once in `s`.
pub open spec fn distinct_keys<K, V>(s: Seq<(K, V)>) -> bool {
    forall|i: int, j: int| 0 <= i < j < s.len() ==> #[trigger] s[i].0 != #[trigger] s[j].0
}

/// The map the entries `s` stand for.
pub open spec fn entries_map<K, V>(s: Seq<(K, V)>) -> Map<K, V>
    decreases s.len(),
{
    if s.len() == 0 {
        Map::empty()
    } else {
        entries_map(s.drop_last()).insert(s.last().0, s.last().1)
    }
}

/// A key is in the map exactly when some entry has it, and (keys being
/// distinct) the map gives that entry's value.
pub proof fn lemma_entries_map<K, V>(s: Seq<(K, V)>)
    requires
        distinct_keys(s),
    ensures
        forall|k: K| #[trigger] entries_map(s).contains_key(k) <==> exists|j: int| 0 <= j < s.len() && s[j].0 == k,
        forall|j: int| 0 <= j < s.len() ==> #[trigger] entries_map(s)[s[j].0] == s[j].1,
        forall|j: int| 0 <= j < s.len() ==> entries_map(s).contains_key(#[trigger] s[j].0),
    decreases s.len(),
{
    if s.len() > 0 {
        let t = s.drop_last();
        assert(distinct_keys(t)) by {
            assert forall|i: int, j: int| 0 <= i < j < t.len() implies #[trigger] t[i].0 != #[trigger] t[j].0 by {
                assert(s[i].0 != s[j].0);
            }
        }
        lemma_entries_map(t);
        let n = s.len() - 1;
        assert forall|k: K| #[trigger] entries_map(s).contains_key(k) <==> exists|j: int| 0 <= j < s.len() && s[j].0 == k by {
            if entries_map(s).contains_key(k) {
                if k == s.last().0 {
                    assert(s[n].0 == k);
                } else {
                    assert(entries_map(t).contains_key(k));
                    let j = choose|j: int| 0 <= j < t.len() && t[j].0 == k;
                    assert(s[j].0 == k);
                }
            }
            if exists|j: int| 0 <= j < s.len() && s[j].0 == k {
                let j = choose|j: int| 0 <= j < s.len() && s[j].0 == k;
                if j < n {
                    assert(t[j].0 == k);
                    assert(entries_map(t).contains_key(t[j].0));
                }
            }
        }
        assert forall|j: int| 0 <= j < s.len() implies #[trigger] entries_map(s)[s[j].0] == s[j].1 by {
            if j < n {
                assert(s[j].0 != s[n].0);
                assert(t[j] == s[j]);
                assert(entries_map(t)[t[j].0] == t[j].1);
            }
        }
        assert forall|j: int| 0 <= j < s.len() implies entries_map(s).contains_key(#[trigger] s[j].0) by {
            if j < n {
                assert(t[j] == s[j]);
                assert(entries_map(t).contains_key(t[j].0));
            }
        }
    }
}

/// Adding an entry with a new key adds it to the map and keeps keys
/// distinct.
pub proof fn lemma_entries_push<K, V>(s: Seq<(K, V)>, e: (K, V))
    requires
        distinct_keys(s),
        !entries_map(s).contains_key(e.0),
    ensures
        distinct_keys(s.push(e)),
        entries_map(s.push(e)) == entries_map(s).insert(e.0, e.1),
{
    lemma_entries_map(s);
    assert(s.push(e).drop_last() =~= s);
    let u = s.push(e);
    assert forall|i: int, j: int| 0 <= i < j < u.len() implies #[trigger] u[i].0 != #[trigger] u[j].0 by {
        if j == s.len() {
            assert(u[i] == s[i]);
            assert(entries_map(s).contains_key(s[i].0));
        } else {
            assert(u[i] == s[i] && u[j] == s[j]);
        }
    }
}

/// Removing entry `i` removes its key from the map and keeps keys
/// distinct.
pub proof fn lemma_entries_remove<K, V>(s: Seq<(K, V)>, i: int)
    requires
        distinct_keys(s),
        0 <= i < s.len(),
    ensures
        distinct_keys(s.remove(i)),
        entries_map(s.remove(i)) == entries_map(s).remove(s[i].0),
    decreases s.len(),
{
    let r = s.remove(i);
    assert forall|a: int, b: int| 0 <= a < b < r.len() implies #[trigger] r[a].0 != #[trigger] r[b].0 by {
        let a2 = if a < i { a } else { a + 1 };
        let b2 = if b < i { b } else { b + 1 };
        assert(r[a] == s[a2] && r[b] == s[b2]);
    }
    let t = s.drop_last();
    assert(distinct_keys(t)) by {
        assert forall|x: int, y: int| 0 <= x < y < t.len() implies #[trigger] t[x].0 != #[trigger] t[y].0 by {
            assert(s[x].0 != s[y].0);
        }
    }
    lemma_entries_map(t);
    if i == s.len() - 1 {
        assert(r =~= t);
        assert(!entries_map(t).contains_key(s[i].0)) by {
            if entries_map(t).contains_key(s[i].0) {
                let j = choose|j: int| 0 <= j < t.len() && t[j].0 == s[i].0;
                assert(s[j].0 != s[i].0);
            }
        }
        assert(entries_map(s).remove(s[i].0) =~= entries_map(t));
    } else {
        lemma_entries_remove(t, i);
        assert(r.drop_last() =~= t.remove(i));
        assert(r.last() == s.last());
        assert(s[i].0 != s.last().0);
        assert(entries_map(r) =~= entries_map(s).remove(s[i].0));
    }
}

/// Changing the value of entry `i` changes it in the map and keeps keys
/// distinct.
pub proof fn lemma_entries_update<K, V>(s: Seq<(K, V)>, i: int, v: V)
    requires
        distinct_keys(s),
        0 <= i < s.len(),
    ensures
        distinct_keys(s.update(i, (s[i].0, v))),
        entries_map(s.update(i, (s[i].0, v))) == entries_map(s).insert(s[i].0, v),
    decreases s.len(),
{
    let u = s.update(i, (s[i].0, v));
    assert forall|a: int, b: int| 0 <= a < b < u.len() implies #[trigger] u[a].0 != #[trigger] u[b].0 by {
        assert(u[a].0 == s[a].0 && u[b].0 == s[b].0);
    }
    let t = s.drop_last();
    assert(distinct_keys(t)) by {
        assert forall|x: int, y: int| 0 <= x < y < t.len() implies #[trigger] t[x].0 != #[trigger] t[y].0 by {
            assert(s[x].0 != s[y].0);
        }
    }
    if i == s.len() - 1 {
        assert(u.drop_last() =~= t);
        assert(entries_map(u) =~= entries_map(s).insert(s[i].0, v));
    } else {
        lemma_entries_update(t, i, v);
        assert(u.drop_last() =~= t.update(i, (t[i].0, v)));
        assert(s[i].0 != s.last().0);
        assert(entries_map(u) =~= entries_map(s).insert(s[i].0, v));
    }
}

/// Keeping some of the entries keeps keys distinct; every kept entry is
/// one of the entries.
pub proof fn lemma_filter_distinct<K, V>(s: Seq<(K, V)>, pred: spec_fn((K, V)) -> bool)
    requires
        distinct_keys(s),
    ensures
        distinct_keys(s.filter(pred)),
        forall|a: int| 0 <= a < s.filter(pred).len() ==> exists|j: int| 0 <= j < s.len() && s[j] == #[trigger] s.filter(pred)[a],
    decreases s.len(),
{
    reveal(Seq::filter);
    if s.len() > 0 {
        let t = s.drop_last();
        assert(distinct_keys(t)) by {
            assert forall|x: int, y: int| 0 <= x < y < t.len() implies #[trigger] t[x].0 != #[trigger] t[y].0 by {
                assert(s[x].0 != s[y].0);
            }
        }
        lemma_filter_distinct(t, pred);
        let ft = t.filter(pred);
        let f = s.filter(pred);
        assert forall|a: int| 0 <= a < ft.len() implies exists|j: int| 0 <= j < s.len() - 1 && s[j] == #[trigger] ft[a] by {
            let j = choose|j: int| 0 <= j < t.len() && t[j] == ft[a];
            assert(s[j] == t[j]);
        }
        if pred(s.last()) {
            assert(f == ft.push(s.last()));
            assert forall|a: int| 0 <= a < f.len() implies exists|j: int| 0 <= j < s.len() && s[j] == #[trigger] f[a] by {
                if a < ft.len() {
                    assert(f[a] == ft[a]);
                    let j = choose|j: int| 0 <= j < s.len() - 1 && s[j] == ft[a];
                } else {
                    assert(s[s.len() - 1] == f[a]);
                }
            }
            assert forall|x: int, y: int| 0 <= x < y < f.len() implies #[trigger] f[x].0 != #[trigger] f[y].0 by {
                if y < ft.len() {
                    assert(f[x] == ft[x] && f[y] == ft[y]);
                } else {
                    assert(f[x] == ft[x]);
                    let j = choose|j: int| 0 <= j < s.len() - 1 && s[j] == ft[x];
                    assert(s[j].0 != s[s.len() - 1].0);
                }
            }
        } else {
            assert(f == ft);
        }
    }
}

/// Keeping the entries whose key and value pass `keep` keeps, in the map,
/// exactly the keys whose entry passes.
pub open spec fn entries_filter<K, V>(m: Map<K, V>, keep: spec_fn(K, V) -> bool) -> Map<K, V> {
    Map::new(|k: K| m.contains_key(k) && keep(k, m[k]), |k: K| m[k])
}

/// Adding to a filtered list either the next entry (when it passes) or
/// nothing keeps the map equal to the filtered map of the entries seen.
pub proof fn lemma_entries_filter_step<K, V>(
    seen: Seq<(K, V)>,
    kept: Seq<(K, V)>,
    e: (K, V),
    keep: spec_fn(K, V) -> bool,
)
    requires
        distinct_keys(seen.push(e)),
        distinct_keys(kept),
        entries_map(kept) == entries_filter(entries_map(seen), keep),
    ensures
        keep(e.0, e.1) ==> distinct_keys(kept.push(e))
            && entries_map(kept.push(e)) == entries_filter(entries_map(seen.push(e)), keep),
        !keep(e.0, e.1) ==> entries_map(kept) == entries_filter(entries_map(seen.push(e)), keep),
{
    let u = seen.push(e);
    assert(u.drop_last() =~= seen);
    assert(distinct_keys(seen)) by {
        assert forall|x: int, y: int| 0 <= x < y < seen.len() implies #[trigger] seen[x].0 != #[trigger] seen[y].0 by {
            assert(u[x].0 != u[y].0);
        }
    }
    lemma_entries_map(seen);
    assert(!entries_map(seen).contains_key(e.0)) by {
        if entries_map(seen).contains_key(e.0) {
            let j = choose|j: int| 0 <= j < seen.len() && seen[j].0 == e.0;
            assert(u[j].0 != u[seen.len() as int].0);
        }
    }
    assert(!entries_map(kept).contains_key(e.0));
    if keep(e.0, e.1) {
        lemma_entries_push(kept, e);
        assert(entries_map(kept.push(e)) =~= entries_filter(entries_map(u), keep));
    } else {
        assert(entries_map(kept) =~= entries_filter(entries_map(u), keep));
    }
}

} // verus!
