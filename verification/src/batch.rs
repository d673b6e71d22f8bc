//! Dashboard refreshes gathered over a short window: one refresh per
//! category, however often it was asked for, and a sentinel that asks for
//! every category.

use vstd::prelude::*;

verus! {

/// The category id that stands for every category.
pub const UPDATE_ALL_SENTINEL: u8 = 255;

/// The refreshes asked for during one window.
pub struct UpdateBatch {
    /// (guild, category) pairs, each at most once, in the order first
    /// asked for
    pub pending: Vec<(u64, u8)>,
    /// Whether every category was asked for
    pub update_all: bool,
}

fn same_request(a: (u64, u8), b: (u64, u8)) -> (r: bool)
    ensures
        r == (a == b),
{
    a.0 == b.0 && a.1 == b.1
}

impl UpdateBatch {
    /// No request occurs twice.
    pub open spec fn wf(&self) -> bool {
        self.pending@.no_duplicates()
    }

    /// The categories to refresh.
    pub open spec fn view(&self) -> Set<(u64, u8)> {
        self.pending@.to_set()
    }

    /// An empty batch.
    pub fn new() -> (r: Self)
        ensures
            r.wf(),
            r.view() == Set::<(u64, u8)>::empty(),
            !r.update_all,
    {
        let r = UpdateBatch { pending: Vec::new(), update_all: false };
        assert(r.view() =~= Set::<(u64, u8)>::empty());
        r
    }

    fn contains(&self, req: (u64, u8)) -> (r: bool)
        ensures
            r == self.pending@.contains(req),
    {
        let n = self.pending.len();
        let mut i: usize = 0;
        while i < n
            invariant
                n == self.pending@.len(),
                i <= n,
                forall|k: int| 0 <= k < i ==> #[trigger] self.pending@[k] != req,
            decreases n - i,
        {
            if same_request(self.pending[i], req) {
                return true;
            }
            i = i + 1;
        }
        false
    }

    fn insert(&mut self, req: (u64, u8))
        requires
            old(self).wf(),
        ensures
            final(self).wf(),
            final(self).view() == old(self).view().insert(req),
            final(self).update_all == old(self).update_all,
    {
        if !self.contains(req) {
            let ghost before = self.pending@;
            self.pending.push(req);
            proof {
                assert forall|a: int, b: int| 0 <= a < b < self.pending@.len() implies self.pending@[a] != self.pending@[b] by {
                    if b == before.len() {
                        assert(self.pending@[a] == before[a]);
                        assert(before.contains(before[a]));
                    }
                }
                assert(self.pending@ == before.push(req));
                let t1 = self.pending@;
                assert forall|x: (u64, u8)| t1.contains(x) == (before.contains(x) || x == req) by {
                    if t1.contains(x) {
                        let k = choose|k: int| 0 <= k < t1.len() && #[trigger] t1[k] == x;
                        if k < before.len() {
                            assert(before[k] == x);
                        }
                    }
                    if before.contains(x) {
                        let k = choose|k: int| 0 <= k < before.len() && #[trigger] before[k] == x;
                        assert(t1[k] == x);
                    }
                    if x == req {
                        assert(t1[before.len() as int] == x);
                    }
                }
            }
            assert(self.view() =~= old(self).view().insert(req));
        } else {
            proof {
            }
            assert(self.view() =~= old(self).view().insert(req));
        }
    }

    /// A refresh of category `category_id` of guild `guild_id` is asked
    /// for; the sentinel id asks for every category.
    pub fn add(&mut self, guild_id: u64, category_id: u8)
        requires
            old(self).wf(),
        ensures
            final(self).wf(),
            category_id == UPDATE_ALL_SENTINEL ==> final(self).update_all && final(self).view() == old(self).view(),
            category_id != UPDATE_ALL_SENTINEL ==> final(self).update_all == old(self).update_all
                && final(self).view() == old(self).view().insert((guild_id, category_id)),
    {
        if category_id == UPDATE_ALL_SENTINEL {
            self.update_all = true;
        } else {
            self.insert((guild_id, category_id));
        }
    }

    /// When every category was asked for, adds all of `every` (the
    /// categories the manager knows) to the batch.
    pub fn expand(&mut self, every: &Vec<(u64, u8)>)
        requires
            old(self).wf(),
        ensures
            final(self).wf(),
            final(self).update_all == old(self).update_all,
            final(self).view() == (if old(self).update_all { old(self).view().union(every@.to_set()) } else { old(self).view() }),
    {
        if !self.update_all {
            return;
        }
        let n = every.len();
        let mut i: usize = 0;
        while i < n
            invariant
                n == every@.len(),
                i <= n,
                self.wf(),
                self.update_all == old(self).update_all,
                self.view() == old(self).view().union(every@.take(i as int).to_set()),
            decreases n - i,
        {
            let req = every[i];
            self.insert(req);
            proof {
                let t = every@.take(i as int);
                let t1 = every@.take(i as int + 1);
                assert(t1 =~= t.push(req));
                assert forall|x: (u64, u8)| t1.contains(x) == (t.contains(x) || x == req) by {
                    if t1.contains(x) {
                        let k = choose|k: int| 0 <= k < t1.len() && #[trigger] t1[k] == x;
                        if k < t.len() {
                            assert(t[k] == x);
                        }
                    }
                    if t.contains(x) {
                        let k = choose|k: int| 0 <= k < t.len() && #[trigger] t[k] == x;
                        assert(t1[k] == x);
                    }
                    if x == req {
                        assert(t1[t.len() as int] == x);
                    }
                }
                assert(t1.to_set() =~= t.to_set().insert(req));
            }
            assert(self.view() =~= old(self).view().union(every@.take(i as int + 1).to_set()));
            i = i + 1;
        }
        assert(every@.take(n as int) =~= every@);
    }

    /// The refreshes to perform, each once; the batch is empty afterwards.
    pub fn take(&mut self) -> (r: Vec<(u64, u8)>)
        requires
            old(self).wf(),
        ensures
            r@.to_set() == old(self).view(),
            r@.no_duplicates(),
            final(self).wf(),
            final(self).view() == Set::<(u64, u8)>::empty(),
            !final(self).update_all,
    {
        let mut out: Vec<(u64, u8)> = Vec::new();
        std::mem::swap(&mut out, &mut self.pending);
        self.update_all = false;
        assert(self.view() =~= Set::<(u64, u8)>::empty());
        out
    }
}


/// Asking for the same refresh twice within a window leaves one refresh
/// to perform, as asking once does.
pub proof fn lemma_batch_dedupes(v: Set<(u64, u8)>, guild_id: u64, category_id: u8)
    ensures
        v.insert((guild_id, category_id)).insert((guild_id, category_id)) == v.insert((guild_id, category_id)),
{
    assert(v.insert((guild_id, category_id)).insert((guild_id, category_id)) =~= v.insert((guild_id, category_id)));
}

} // verus!
