//! Join/leave announcements: buffering a player's alert intents, cancelling
//! opposing ones, and limiting how many alerts go out per minute.

use vstd::prelude::*;
use vstd::string::*;
use crate::text::{count_char, str_eq};

verus! {

/// Seconds that intents are buffered before an alert is resolved.
pub const ALERT_DELAY_SECS: u64 = 5;
/// Alerts allowed per user, category and format within one window.
pub const MAX_ALERTS_PER_WINDOW: usize = 4;
/// Length of the rate-limiting window, in milliseconds.
pub const WINDOW_MS: u64 = 60000;
/// At most this many line feeds in an alert text.
pub const MAX_ALERT_NEWLINES: usize = 4;
/// At most this many characters in an alert text.
pub const MAX_ALERT_CHARS: usize = 180;
/// Whether over-long alert texts are replaced by a canned one.
pub const SANITIZE_ALERTS_ENABLED: bool = false;

/// Whether the player joined or left.
#[derive(Debug, Clone, Copy, PartialEq, Eq)]
pub enum AlertType {
    Join,
    Leave,
}

/// A buffered alert intent (not yet rendered into an embed).
#[derive(Debug)]
pub struct AlertIntent {
    pub alert_type: AlertType,
    pub fmt_name: Option<String>,
    pub rank_name: String,
}

/// View of an optional string.
pub open spec fn opt_view(o: Option<String>) -> Option<Seq<char>> {
    match o {
        Some(s) => Some(s@),
        None => None,
    }
}

/// The signed effect of one intent: +1 for a join, -1 for a leave.
pub open spec fn intent_sign(t: AlertType) -> int {
    match t {
        AlertType::Join => 1,
        AlertType::Leave => -1,
    }
}

/// Net joins minus leaves for format `f` over the intents `s`.
pub open spec fn net_count(s: Seq<AlertIntent>, f: Option<Seq<char>>) -> int
    decreases s.len(),
{
    if s.len() == 0 {
        0
    } else {
        net_count(s.drop_last(), f) + if opt_view(s.last().fmt_name) == f { intent_sign(s.last().alert_type) } else { 0 }
    }
}

/// The distinct formats of `s`, in order of first appearance.
pub open spec fn distinct_fmts(s: Seq<AlertIntent>) -> Seq<Option<Seq<char>>>
    decreases s.len(),
{
    if s.len() == 0 {
        Seq::empty()
    } else {
        let prev = distinct_fmts(s.drop_last());
        let f = opt_view(s.last().fmt_name);
        if prev.contains(f) {
            prev
        } else {
            prev.push(f)
        }
    }
}

/// The formats of `fs` whose net count over `s` is positive (`sign` > 0) or
/// negative (`sign` < 0).
pub open spec fn fmts_with_sign(fs: Seq<Option<Seq<char>>>, s: Seq<AlertIntent>, sign: int) -> Seq<Option<Seq<char>>>
    decreases fs.len(),
{
    if fs.len() == 0 {
        Seq::empty()
    } else {
        let prev = fmts_with_sign(fs.drop_last(), s, sign);
        let n = net_count(s, fs.last());
        if (sign > 0 && n > 0) || (sign < 0 && n < 0) {
            prev.push(fs.last())
        } else {
            prev
        }
    }
}

/// The rank name of the last intent that has a non-empty one.
pub open spec fn last_rank(s: Seq<AlertIntent>) -> Seq<char>
    decreases s.len(),
{
    if s.len() == 0 {
        Seq::empty()
    } else if s.last().rank_name@.len() > 0 {
        s.last().rank_name@
    } else {
        last_rank(s.drop_last())
    }
}

/// Whether every running per-format count of `s` stays within `i8`.
pub open spec fn counts_fit_i8(s: Seq<AlertIntent>) -> bool {
    forall|k: int, f: Option<Seq<char>>| 0 <= k <= s.len() ==> -128 <= #[trigger] net_count(s.subrange(0, k), f) <= 127
}

/// Outcome of resolving a player's buffered intents.
pub struct AlertResolution {
    /// Formats the player joined, net
    pub join_names: Vec<Option<String>>,
    /// Formats the player left, net
    pub leave_names: Vec<Option<String>>,
    /// Rank shown in the join alert
    pub rank_name: String,
}

/// View of a sequence of optional strings.
pub open spec fn opts_view(v: Seq<Option<String>>) -> Seq<Option<Seq<char>>> {
    v.map_values(|o: Option<String>| opt_view(o))
}

impl AlertResolution {
    /// Whether joins and leaves cancelled out entirely.
    pub open spec fn spec_is_cancelled(&self) -> bool {
        self.join_names@.len() == 0 && self.leave_names@.len() == 0
    }

    /// Whether joins and leaves cancelled out entirely, so that no alert is
    /// sent.
    pub fn is_cancelled(&self) -> (r: bool)
        ensures
            r == self.spec_is_cancelled(),
    {
        self.join_names.len() == 0 && self.leave_names.len() == 0
    }
}

fn clone_opt(o: &Option<String>) -> (r: Option<String>)
    ensures
        opt_view(r) == opt_view(*o),
{
    match o {
        Some(s) => Some(s.clone()),
        None => None,
    }
}

fn opt_eq(a: &Option<String>, b: &Option<String>) -> (r: bool)
    ensures
        r == (opt_view(*a) == opt_view(*b)),
{
    match (a, b) {
        (Some(x), Some(y)) => str_eq(x.as_str(), y.as_str()),
        (None, None) => true,
        _ => false,
    }
}

/// Net count of `f` over `intents`.
fn net_of(intents: &Vec<AlertIntent>, f: &Option<String>) -> (r: i8)
    requires
        counts_fit_i8(intents@),
    ensures
        r as int == net_count(intents@, opt_view(*f)),
{
    let n = intents.len();
    let mut c: i8 = 0;
    let mut i: usize = 0;
    while i < n
        invariant
            n == intents@.len(),
            i <= n,
            c as int == net_count(intents@.subrange(0, i as int), opt_view(*f)),
            counts_fit_i8(intents@),
        decreases n - i,
    {
        let ghost prev = intents@.subrange(0, i as int);
        assert(intents@.subrange(0, i as int + 1).drop_last() =~= prev);
        assert(-128 <= net_count(intents@.subrange(0, i as int + 1), opt_view(*f)) <= 127);
        if opt_eq(&intents[i].fmt_name, f) {
            match intents[i].alert_type {
                AlertType::Join => {
                    c = c + 1;
                },
                AlertType::Leave => {
                    c = c - 1;
                },
            }
        }
        i = i + 1;
    }
    assert(intents@.subrange(0, n as int) =~= intents@);
    c
}

/// Resolves buffered intents: opposing join/leave pairs for the same format
/// cancel; formats with more joins are announced as joined and formats with
/// more leaves as left, each list in order of first appearance. The rank
/// name is the last non-empty one.
pub fn resolve_intents(intents: &Vec<AlertIntent>) -> (r: AlertResolution)
    requires
        counts_fit_i8(intents@),
    ensures
        opts_view(r.join_names@) == fmts_with_sign(distinct_fmts(intents@), intents@, 1),
        opts_view(r.leave_names@) == fmts_with_sign(distinct_fmts(intents@), intents@, -1),
        r.rank_name@ == last_rank(intents@),
{
    let n = intents.len();
    // distinct formats in order of first appearance
    let mut fmts: Vec<Option<String>> = Vec::new();
    let mut rank_name = String::new();
    let mut i: usize = 0;
    while i < n
        invariant
            n == intents@.len(),
            i <= n,
            opts_view(fmts@) == distinct_fmts(intents@.subrange(0, i as int)),
            rank_name@ == last_rank(intents@.subrange(0, i as int)),
        decreases n - i,
    {
        let ghost prev = intents@.subrange(0, i as int);
        assert(intents@.subrange(0, i as int + 1).drop_last() =~= prev);
        let m = fmts.len();
        let mut j: usize = 0;
        let mut found = false;
        while j < m
            invariant
                m == fmts@.len(),
                n == intents@.len(),
                i < n,
                j <= m,
                found == exists|t: int| 0 <= t < j && #[trigger] opt_view(fmts@[t]) == opt_view(intents@[i as int].fmt_name),
            decreases m - j,
        {
            if opt_eq(&fmts[j], &intents[i].fmt_name) {
                found = true;
            }
            j = j + 1;
        }
        let ghost pv = opts_view(fmts@);
        assert(found == pv.contains(opt_view(intents@[i as int].fmt_name))) by {
            if found {
                let t = choose|t: int| 0 <= t < m && #[trigger] opt_view(fmts@[t]) == opt_view(intents@[i as int].fmt_name);
                assert(pv[t] == opt_view(intents@[i as int].fmt_name));
            }
            if pv.contains(opt_view(intents@[i as int].fmt_name)) {
                let t = choose|t: int| 0 <= t < pv.len() && pv[t] == opt_view(intents@[i as int].fmt_name);
                assert(opt_view(fmts@[t]) == opt_view(intents@[i as int].fmt_name));
            }
        }
        if !found {
            fmts.push(clone_opt(&intents[i].fmt_name));
            assert(opts_view(fmts@) =~= pv.push(opt_view(intents@[i as int].fmt_name)));
        }
        if intents[i].rank_name.unicode_len() > 0 {
            rank_name = intents[i].rank_name.clone();
        }
        i = i + 1;
    }
    assert(intents@.subrange(0, n as int) =~= intents@);
    let ghost all = opts_view(fmts@);
    let mut joins: Vec<Option<String>> = Vec::new();
    let mut leaves: Vec<Option<String>> = Vec::new();
    let m = fmts.len();
    let mut k: usize = 0;
    while k < m
        invariant
            m == fmts@.len(),
            counts_fit_i8(intents@),
            all == opts_view(fmts@),
            k <= m,
            opts_view(joins@) == fmts_with_sign(all.subrange(0, k as int), intents@, 1),
            opts_view(leaves@) == fmts_with_sign(all.subrange(0, k as int), intents@, -1),
        decreases m - k,
    {
        assert(all.subrange(0, k as int + 1).drop_last() =~= all.subrange(0, k as int));
        let c = net_of(intents, &fmts[k]);
        let ghost jv = opts_view(joins@);
        let ghost lv = opts_view(leaves@);
        if c > 0 {
            joins.push(clone_opt(&fmts[k]));
            assert(opts_view(joins@) =~= jv.push(all[k as int]));
        } else if c < 0 {
            leaves.push(clone_opt(&fmts[k]));
            assert(opts_view(leaves@) =~= lv.push(all[k as int]));
        }
        k = k + 1;
    }
    assert(all.subrange(0, m as int) =~= all);
    AlertResolution { join_names: joins, leave_names: leaves, rank_name }
}

/// The names of `names` that are present, in order.
pub open spec fn concrete_names(names: Seq<Option<Seq<char>>>) -> Seq<Seq<char>>
    decreases names.len(),
{
    if names.len() == 0 {
        Seq::empty()
    } else {
        match names.last() {
            Some(n) => concrete_names(names.drop_last()).push(n),
            None => concrete_names(names.drop_last()),
        }
    }
}

/// The separator between combined format names.
pub open spec fn amp_sep() -> Seq<char> {
    seq![' ', '&', ' ']
}

/// `parts` joined by `sep`.
pub open spec fn join_with(parts: Seq<Seq<char>>, sep: Seq<char>) -> Seq<char>
    decreases parts.len(),
{
    if parts.len() == 0 {
        Seq::empty()
    } else if parts.len() == 1 {
        parts[0]
    } else {
        join_with(parts.drop_last(), sep) + sep + parts.last()
    }
}

/// Combines format names, skipping absent ones: `["4v4", "3v3"]` gives
/// `"4v4 & 3v3"`; no present name gives `None`.
pub fn combine_fmt_names(names: &[Option<String>]) -> (r: Option<String>)
    ensures
        concrete_names(opts_view(names@)).len() == 0 ==> r.is_none(),
        concrete_names(opts_view(names@)).len() > 0 ==> r.is_some() && r.unwrap()@ == join_with(concrete_names(opts_view(names@)), amp_sep()),
{
    let n = names.len();
    let mut out = String::new();
    let mut count: usize = 0;
    let mut i: usize = 0;
    proof {
        reveal_strlit(" & ");
        assert(" & "@ =~= amp_sep());
    }
    while i < n
        invariant
            n == names@.len(),
            i <= n,
            count == concrete_names(opts_view(names@.subrange(0, i as int))).len(),
            out@ == join_with(concrete_names(opts_view(names@.subrange(0, i as int))), amp_sep()),
            count <= i,
            " & "@ == amp_sep(),
        decreases n - i,
    {
        let ghost prev = names@.subrange(0, i as int);
        assert(opts_view(names@.subrange(0, i as int + 1)).drop_last() =~= opts_view(prev));
        assert(opts_view(names@.subrange(0, i as int + 1)).last() == opt_view(names@[i as int]));
        match &names[i] {
            Some(s) => {
                if count > 0 {
                    out.append(" & ");
                }
                out.append(s.as_str());
                count = count + 1;
                let ghost cn = concrete_names(opts_view(names@.subrange(0, i as int + 1)));
                assert(cn.drop_last() =~= concrete_names(opts_view(prev)));
                if count == 1 {
                    assert(out@ =~= join_with(cn, amp_sep()));
                } else {
                    assert(out@ =~= join_with(cn, amp_sep()));
                }
            },
            None => {
            },
        }
        i = i + 1;
    }
    assert(names@.subrange(0, n as int) =~= names@);
    if count == 0 {
        None
    } else {
        Some(out)
    }
}

/// Whether an alert text is too long: more than four line feeds or more
/// than 180 characters.
pub fn exceeds_alert_limits(text: &str) -> (r: bool)
    ensures
        r == (count_char(text@, '\n') > MAX_ALERT_NEWLINES || text@.len() > MAX_ALERT_CHARS),
{
    let n = text.unicode_len();
    let mut lf: usize = 0;
    let mut i: usize = 0;
    while i < n
        invariant
            n == text@.len(),
            i <= n,
            lf == count_char(text@.subrange(0, i as int), '\n'),
            lf <= i,
        decreases n - i,
    {
        assert(text@.subrange(0, i as int + 1).drop_last() =~= text@.subrange(0, i as int));
        if text.get_char(i) == '\n' {
            lf = lf + 1;
        }
        i = i + 1;
    }
    assert(text@.subrange(0, n as int) =~= text@);
    lf > MAX_ALERT_NEWLINES || n > MAX_ALERT_CHARS
}

/// A random index below `n`, from the thread's random number generator
/// (`rand::rng().random_range(0..n)`, which panics on an empty range).
#[verifier::external_body]
fn random_index(n: usize) -> (r: usize)
    requires
        n > 0,
    ensures
        r < n,
{
    rand::RngExt::random_range(&mut rand::rng(), 0..n)
}

/// The alert text as it is announced: when replacement is switched on and
/// the text is too long, one of `replacements` chosen at random; else the
/// text as it is. Replacement is switched off (`SANITIZE_ALERTS_ENABLED`),
/// so the text is kept.
pub fn sanitize_text(text: &str, replacements: &[&str]) -> (r: String)
    requires
        SANITIZE_ALERTS_ENABLED && (count_char(text@, '\n') > MAX_ALERT_NEWLINES || text@.len() > MAX_ALERT_CHARS)
            ==> replacements@.len() > 0,
    ensures
        SANITIZE_ALERTS_ENABLED && (count_char(text@, '\n') > MAX_ALERT_NEWLINES || text@.len() > MAX_ALERT_CHARS)
            ==> exists|i: int| 0 <= i < replacements@.len() && r@ == #[trigger] replacements@[i]@,
        !(SANITIZE_ALERTS_ENABLED && (count_char(text@, '\n') > MAX_ALERT_NEWLINES || text@.len() > MAX_ALERT_CHARS))
            ==> r@ == text@,
        r@ == text@,
{
    if SANITIZE_ALERTS_ENABLED && exceeds_alert_limits(text) {
        let idx = random_index(replacements.len());
        return String::from_str(replacements[idx]);
    }
    String::from_str(text)
}

/// When every format's joins and leaves balance, the alert is cancelled:
/// neither joins nor leaves remain to announce.
pub proof fn lemma_balanced_intents_cancel(s: Seq<AlertIntent>)
    requires
        forall|f: Option<Seq<char>>| #[trigger] net_count(s, f) == 0,
    ensures
        fmts_with_sign(distinct_fmts(s), s, 1).len() == 0,
        fmts_with_sign(distinct_fmts(s), s, -1).len() == 0,
{
    lemma_fmts_with_sign_zero(distinct_fmts(s), s, 1);
    lemma_fmts_with_sign_zero(distinct_fmts(s), s, -1);
}

proof fn lemma_fmts_with_sign_zero(fs: Seq<Option<Seq<char>>>, s: Seq<AlertIntent>, sign: int)
    requires
        forall|f: Option<Seq<char>>| #[trigger] net_count(s, f) == 0,
    ensures
        fmts_with_sign(fs, s, sign).len() == 0,
    decreases fs.len(),
{
    if fs.len() > 0 {
        lemma_fmts_with_sign_zero(fs.drop_last(), s, sign);
        assert(net_count(s, fs.last()) == 0);
    }
}

/// Appending a join and then a leave of the same format leaves every
/// format's net count unchanged.
pub proof fn lemma_join_then_leave_nets_out(s: Seq<AlertIntent>, j: AlertIntent, l: AlertIntent, f: Option<Seq<char>>)
    requires
        j.alert_type == AlertType::Join,
        l.alert_type == AlertType::Leave,
        opt_view(j.fmt_name) == opt_view(l.fmt_name),
    ensures
        net_count(s.push(j).push(l), f) == net_count(s, f),
{
    let sj = s.push(j);
    let sjl = sj.push(l);
    assert(sjl.drop_last() =~= sj);
    assert(sj.drop_last() =~= s);
    assert(sjl.last() == l);
    assert(sj.last() == j);
    assert(net_count(sjl, f) == net_count(sj, f) + if opt_view(l.fmt_name) == f { -1int } else { 0int });
    assert(net_count(sj, f) == net_count(s, f) + if opt_view(j.fmt_name) == f { 1int } else { 0int });
}

/// The stamps of `s` left once those older than `cutoff` are dropped from
/// the front.
pub open spec fn pruned(s: Seq<u64>, cutoff: int) -> Seq<u64>
    decreases s.len(),
{
    if s.len() > 0 && s[0] < cutoff {
        pruned(s.drop_first(), cutoff)
    } else {
        s
    }
}

/// Start of the rate-limiting window that ends at `now`.
pub open spec fn window_start(now: u64) -> int {
    now - WINDOW_MS
}

/// Outcome of offering an alert at `now` to a window holding `s`: whether
/// it may go out, and the stamps kept afterwards.
pub open spec fn spec_admit(s: Seq<u64>, now: u64) -> (bool, Seq<u64>) {
    let p = pruned(s, window_start(now));
    if p.len() < MAX_ALERTS_PER_WINDOW {
        (true, p.push(now))
    } else {
        (false, p)
    }
}

/// Whether stamps are in ascending order.
pub open spec fn ascending(s: Seq<u64>) -> bool {
    forall|i: int, j: int| 0 <= i < j < s.len() ==> #[trigger] s[i] <= #[trigger] s[j]
}

proof fn lemma_pruned(s: Seq<u64>, cutoff: int)
    ensures
        pruned(s, cutoff).len() <= s.len(),
        exists|k: int| 0 <= k <= s.len() && pruned(s, cutoff) == #[trigger] s.subrange(k, s.len() as int),
        pruned(s, cutoff).len() > 0 ==> pruned(s, cutoff)[0] >= cutoff,
    decreases s.len(),
{
    if s.len() > 0 && s[0] < cutoff {
        lemma_pruned(s.drop_first(), cutoff);
        let k = choose|k: int| 0 <= k <= s.drop_first().len() && pruned(s.drop_first(), cutoff) == #[trigger] s.drop_first().subrange(k, s.drop_first().len() as int);
        assert(s.drop_first().subrange(k, s.drop_first().len() as int) =~= s.subrange(k + 1, s.len() as int));
    } else {
        assert(s.subrange(0, s.len() as int) =~= s);
    }
}

/// The stamps a window holds after alerts were offered at the times `ts`,
/// in order, starting from an empty window.
pub open spec fn offer_all(ts: Seq<u64>) -> Seq<u64>
    decreases ts.len(),
{
    if ts.len() == 0 {
        Seq::empty()
    } else {
        spec_admit(offer_all(ts.drop_last()), ts.last()).1
    }
}

/// The times of the offers among `ts` that were let through.
pub open spec fn sent_times(ts: Seq<u64>) -> Seq<u64>
    decreases ts.len(),
{
    if ts.len() == 0 {
        Seq::empty()
    } else if spec_admit(offer_all(ts.drop_last()), ts.last()).0 {
        sent_times(ts.drop_last()).push(ts.last())
    } else {
        sent_times(ts.drop_last())
    }
}

/// How many times of `s` are at or after `c`.
pub open spec fn count_since(s: Seq<u64>, c: int) -> nat
    decreases s.len(),
{
    if s.len() == 0 {
        0
    } else {
        count_since(s.drop_last(), c) + if s.last() >= c { 1nat } else { 0nat }
    }
}

proof fn lemma_pruned_split(s: Seq<u64>, cutoff: int) -> (k: int)
    ensures
        0 <= k <= s.len(),
        pruned(s, cutoff) == s.subrange(k, s.len() as int),
        forall|i: int| 0 <= i < k ==> #[trigger] s[i] < cutoff,
        pruned(s, cutoff).len() > 0 ==> pruned(s, cutoff)[0] >= cutoff,
    decreases s.len(),
{
    if s.len() > 0 && s[0] < cutoff {
        let t = s.drop_first();
        let k1 = lemma_pruned_split(t, cutoff);
        assert(t.subrange(k1, t.len() as int) =~= s.subrange(k1 + 1, s.len() as int));
        assert forall|i: int| 0 <= i < k1 + 1 implies #[trigger] s[i] < cutoff by {
            if i > 0 {
                assert(s[i] == t[i - 1]);
            }
        }
        k1 + 1
    } else {
        assert(s.subrange(0, s.len() as int) =~= s);
        0
    }
}

proof fn lemma_count_split(a: Seq<u64>, b: Seq<u64>, c: int)
    ensures
        count_since(a + b, c) == count_since(a, c) + count_since(b, c),
    decreases b.len(),
{
    if b.len() == 0 {
        assert(a + b =~= a);
    } else {
        lemma_count_split(a, b.drop_last(), c);
        assert((a + b).drop_last() =~= a + b.drop_last());
    }
}

proof fn lemma_count_bounds(s: Seq<u64>, c: int)
    ensures
        count_since(s, c) <= s.len(),
        (forall|i: int| 0 <= i < s.len() ==> #[trigger] s[i] < c) ==> count_since(s, c) == 0,
    decreases s.len(),
{
    if s.len() > 0 {
        lemma_count_bounds(s.drop_last(), c);
        if forall|i: int| 0 <= i < s.len() ==> #[trigger] s[i] < c {
            assert forall|i: int| 0 <= i < s.drop_last().len() implies #[trigger] s.drop_last()[i] < c by {
                assert(s.drop_last()[i] == s[i]);
            }
            assert(s.last() == s[s.len() - 1]);
        }
    }
}

proof fn lemma_offers(ts: Seq<u64>) -> (j: int)
    requires
        ascending(ts),
        ts.len() > 0,
    ensures
        0 <= j <= sent_times(ts).len(),
        offer_all(ts) == sent_times(ts).subrange(j, sent_times(ts).len() as int),
        forall|i: int| 0 <= i < j ==> #[trigger] sent_times(ts)[i] < window_start(ts.last()),
        forall|i: int| 0 <= i < offer_all(ts).len() ==> window_start(ts.last()) <= #[trigger] offer_all(ts)[i],
        forall|i: int| 0 <= i < sent_times(ts).len() ==> #[trigger] sent_times(ts)[i] <= ts.last(),
        ascending(sent_times(ts)),
        offer_all(ts).len() <= MAX_ALERTS_PER_WINDOW,
    decreases ts.len(),
{
    let pre = ts.drop_last();
    let now = ts.last();
    let c = window_start(now);
    assert forall|a: int, b: int| 0 <= a < b < pre.len() implies #[trigger] pre[a] <= #[trigger] pre[b] by {
        assert(pre[a] == ts[a] && pre[b] == ts[b]);
    }
    let (prev, sent0, j0) = if pre.len() == 0 {
        (Seq::<u64>::empty(), Seq::<u64>::empty(), 0int)
    } else {
        let j0 = lemma_offers(pre);
        assert(pre.last() == ts[ts.len() - 2]);
        assert(pre.last() <= now);
        (offer_all(pre), sent_times(pre), j0)
    };
    assert(prev == offer_all(pre));
    assert(sent0 == sent_times(pre));
    assert(pre.len() == 0 ==> prev.len() == 0 && sent0.len() == 0);
    let n0 = sent0.len() as int;
    assert(prev == sent0.subrange(j0, n0)) by {
        if pre.len() == 0 {
            assert(sent0.subrange(0, 0) =~= Seq::<u64>::empty());
        }
    }
    assert(forall|i: int| 0 <= i < n0 ==> #[trigger] sent0[i] <= now) by {
        if pre.len() > 0 {
            assert(pre.last() == ts[ts.len() - 2]);
        }
    }
    let k = lemma_pruned_split(prev, c);
    let p = pruned(prev, c);
    let j = j0 + k;
    assert(p =~= sent0.subrange(j, n0));
    assert forall|i: int| 0 <= i < j implies #[trigger] sent0[i] < c by {
        if i < j0 {
            if pre.len() > 0 {
                assert(sent0[i] < window_start(pre.last()));
                assert(pre.last() == ts[ts.len() - 2]);
            }
        } else {
            assert(sent0[i] == prev[i - j0]);
        }
    }
    assert forall|i: int| 0 <= i < p.len() implies c <= #[trigger] p[i] by {
        assert(p[i] == sent0[j + i]);
        assert(p[0] == sent0[j]);
    }
    assert(prev.len() <= MAX_ALERTS_PER_WINDOW);
    if p.len() < MAX_ALERTS_PER_WINDOW {
        let sent = sent0.push(now);
        assert(sent_times(ts) == sent);
        assert(offer_all(ts) == p.push(now));
        assert(p.push(now) =~= sent.subrange(j, n0 + 1));
        assert forall|a: int, b: int| 0 <= a < b < sent.len() implies #[trigger] sent[a] <= #[trigger] sent[b] by {
            if b < n0 {
                assert(sent[a] == sent0[a] && sent[b] == sent0[b]);
            }
        }
        assert forall|i: int| 0 <= i < j implies #[trigger] sent[i] < c by {
            assert(sent[i] == sent0[i]);
        }
        assert forall|i: int| 0 <= i < sent.len() implies #[trigger] sent[i] <= now by {
            if i < n0 {
                assert(sent[i] == sent0[i]);
            }
        }
    } else {
        assert(sent_times(ts) == sent0);
        assert(offer_all(ts) == p);
    }
    j
}

/// Over any run of offers at non-decreasing times, starting from an empty
/// window, at most four alerts go out in the sixty seconds up to each offer.
pub proof fn lemma_rate_limit_over_time(ts: Seq<u64>)
    requires
        ascending(ts),
    ensures
        forall|k: int| 1 <= k <= ts.len()
            ==> #[trigger] count_since(sent_times(ts.take(k)), window_start(ts[k - 1])) <= MAX_ALERTS_PER_WINDOW,
{
    assert forall|k: int| 1 <= k <= ts.len()
        implies #[trigger] count_since(sent_times(ts.take(k)), window_start(ts[k - 1])) <= MAX_ALERTS_PER_WINDOW by {
        let t = ts.take(k);
        assert forall|a: int, b: int| 0 <= a < b < t.len() implies #[trigger] t[a] <= #[trigger] t[b] by {
            assert(t[a] == ts[a] && t[b] == ts[b]);
        }
        assert(t.last() == ts[k - 1]);
        let j = lemma_offers(t);
        let sent = sent_times(t);
        let c = window_start(ts[k - 1]);
        let head = sent.subrange(0, j);
        let tail = sent.subrange(j, sent.len() as int);
        assert(sent =~= head + tail);
        lemma_count_split(head, tail, c);
        assert forall|i: int| 0 <= i < head.len() implies #[trigger] head[i] < c by {
            assert(head[i] == sent[i]);
        }
        lemma_count_bounds(head, c);
        lemma_count_bounds(tail, c);
    }
}

/// The stamps a limiter keeps for `key` after the offers `o` (each a key
/// and a time), in order, starting from an empty limiter.
pub open spec fn stamps_after(o: Seq<(RateLimitKey, u64)>, key: RateLimitKey) -> Seq<u64>
    decreases o.len(),
{
    if o.len() == 0 {
        Seq::empty()
    } else if o.last().0 == key {
        spec_admit(stamps_after(o.drop_last(), key), o.last().1).1
    } else {
        stamps_after(o.drop_last(), key)
    }
}

/// The times of the offers of `o` for `key` that were let through.
pub open spec fn sent_for(o: Seq<(RateLimitKey, u64)>, key: RateLimitKey) -> Seq<u64>
    decreases o.len(),
{
    if o.len() == 0 {
        Seq::empty()
    } else if o.last().0 == key && spec_admit(stamps_after(o.drop_last(), key), o.last().1).0 {
        sent_for(o.drop_last(), key).push(o.last().1)
    } else {
        sent_for(o.drop_last(), key)
    }
}

/// The times of the offers of `o` for `key`, in order.
pub open spec fn key_times(o: Seq<(RateLimitKey, u64)>, key: RateLimitKey) -> Seq<u64>
    decreases o.len(),
{
    if o.len() == 0 {
        Seq::empty()
    } else if o.last().0 == key {
        key_times(o.drop_last(), key).push(o.last().1)
    } else {
        key_times(o.drop_last(), key)
    }
}

/// Whether the offers come at non-decreasing times.
pub open spec fn offers_ascending(o: Seq<(RateLimitKey, u64)>) -> bool {
    forall|i: int, j: int| 0 <= i < j < o.len() ==> (#[trigger] o[i]).1 <= (#[trigger] o[j]).1
}

proof fn lemma_key_times(o: Seq<(RateLimitKey, u64)>, key: RateLimitKey)
    requires
        offers_ascending(o),
    ensures
        ascending(key_times(o, key)),
        o.len() > 0 ==> forall|i: int| 0 <= i < key_times(o, key).len() ==> #[trigger] key_times(o, key)[i] <= o.last().1,
        stamps_after(o, key) == offer_all(key_times(o, key)),
        sent_for(o, key) == sent_times(key_times(o, key)),
    decreases o.len(),
{
    if o.len() > 0 {
        let o2 = o.drop_last();
        assert forall|i: int, j: int| 0 <= i < j < o2.len() implies (#[trigger] o2[i]).1 <= (#[trigger] o2[j]).1 by {
            assert(o2[i] == o[i] && o2[j] == o[j]);
        }
        lemma_key_times(o2, key);
        let p = key_times(o2, key);
        if o2.len() > 0 {
            assert(o2.last() == o[o.len() - 2]);
            assert(o2.last().1 <= o.last().1);
        }
        if o.last().0 == key {
            let kt = p.push(o.last().1);
            assert(kt.drop_last() =~= p);
            assert forall|a: int, b: int| 0 <= a < b < kt.len() implies #[trigger] kt[a] <= #[trigger] kt[b] by {
                if b < p.len() {
                    assert(kt[a] == p[a] && kt[b] == p[b]);
                } else {
                    assert(kt[a] == p[a]);
                }
            }
        }
    }
}

/// The limiter's state follows the model: if a limiter keeps, for every
/// key, the stamps of the offers `o`, then after `check(k, t)` (whose
/// contract is the `requires` below) it keeps, for every key, the stamps of
/// `o` followed by that offer, and the alert went out exactly when the
/// model lets it through.
pub proof fn lemma_check_follows_model(
    before: RateLimiter,
    after: RateLimiter,
    o: Seq<(RateLimitKey, u64)>,
    k: RateLimitKey,
    t: u64,
    sent: bool,
)
    requires
        forall|key: RateLimitKey| #[trigger] before.stamps_of(key) == stamps_after(o, key),
        sent == spec_admit(before.stamps_of(k), t).0,
        after.view() == before.view().insert(k, spec_admit(before.stamps_of(k), t).1),
    ensures
        forall|key: RateLimitKey| #[trigger] after.stamps_of(key) == stamps_after(o.push((k, t)), key),
        sent == (sent_for(o.push((k, t)), k) == sent_for(o, k).push(t)),
{
    let o2 = o.push((k, t));
    assert(o2.drop_last() =~= o);
    assert forall|key: RateLimitKey| #[trigger] after.stamps_of(key) == stamps_after(o2, key) by {
        assert(before.stamps_of(key) == stamps_after(o, key));
    }
    assert(before.stamps_of(k) == stamps_after(o, k));
    if !sent {
        assert(sent_for(o2, k).len() == sent_for(o, k).len());
        assert(sent_for(o2, k) != sent_for(o, k).push(t));
    }
}

/// Over any run of offers at non-decreasing times to one limiter, starting
/// empty, and for every (category, format, user) key: at most four alerts
/// for that key go out in the sixty seconds up to any offer for it.
pub proof fn lemma_rate_limit_per_key(o: Seq<(RateLimitKey, u64)>, key: RateLimitKey)
    requires
        offers_ascending(o),
    ensures
        forall|n: int| 1 <= n <= o.len() && (#[trigger] o[n - 1]).0 == key
            ==> count_since(sent_for(o.take(n), key), window_start(o[n - 1].1)) <= MAX_ALERTS_PER_WINDOW,
{
    assert forall|n: int| 1 <= n <= o.len() && (#[trigger] o[n - 1]).0 == key
        implies count_since(sent_for(o.take(n), key), window_start(o[n - 1].1)) <= MAX_ALERTS_PER_WINDOW by {
        let on = o.take(n);
        assert forall|i: int, j: int| 0 <= i < j < on.len() implies (#[trigger] on[i]).1 <= (#[trigger] on[j]).1 by {
            assert(on[i] == o[i] && on[j] == o[j]);
        }
        lemma_key_times(on, key);
        let kt = key_times(on, key);
        assert(on.last() == o[n - 1]);
        assert(kt.len() > 0 && kt.last() == o[n - 1].1);
        lemma_rate_limit_over_time(kt);
        assert(kt.take(kt.len() as int) =~= kt);
        assert(count_since(sent_times(kt.take(kt.len() as int)), window_start(kt[kt.len() - 1])) <= MAX_ALERTS_PER_WINDOW);
    }
}

/// Rate limiting keeps at most four alerts per window: starting from
/// ascending stamps no later than `now`, at most four of them, the stamps
/// kept after an offer at `now` are ascending, at most four, and all lie in
/// the window that ends at `now`.
pub proof fn lemma_admit_bounds(s: Seq<u64>, now: u64)
    requires
        ascending(s),
        s.len() <= MAX_ALERTS_PER_WINDOW,
        forall|i: int| 0 <= i < s.len() ==> #[trigger] s[i] <= now,
    ensures
        ascending(spec_admit(s, now).1),
        spec_admit(s, now).1.len() <= MAX_ALERTS_PER_WINDOW,
        forall|i: int| 0 <= i < spec_admit(s, now).1.len() ==> window_start(now) <= #[trigger] spec_admit(s, now).1[i] <= now,
{
    let c = window_start(now);
    lemma_pruned(s, c);
    let p = pruned(s, c);
    let k = choose|k: int| 0 <= k <= s.len() && p == #[trigger] s.subrange(k, s.len() as int);
    assert forall|i: int| 0 <= i < p.len() implies c <= #[trigger] p[i] <= now by {
        assert(p[i] == s[k + i]);
        assert(p[0] == s[k]);
    }
    assert(ascending(p)) by {
        assert forall|i: int, j: int| 0 <= i < j < p.len() implies #[trigger] p[i] <= #[trigger] p[j] by {
            assert(p[i] == s[k + i]);
            assert(p[j] == s[k + j]);
        }
    }
    let r = spec_admit(s, now).1;
    if p.len() < MAX_ALERTS_PER_WINDOW {
        assert(r == p.push(now));
        assert forall|i: int, j: int| 0 <= i < j < r.len() implies #[trigger] r[i] <= #[trigger] r[j] by {
            if j < p.len() {
                assert(r[i] == p[i]);
                assert(r[j] == p[j]);
            } else {
                assert(r[i] == p[i]);
            }
        }
        assert forall|i: int| 0 <= i < r.len() implies c <= #[trigger] r[i] <= now by {
            if i < p.len() {
                assert(r[i] == p[i]);
            }
        }
    }
}

fn admit_stamps(stamps: &Vec<u64>, now: u64) -> (r: (bool, Vec<u64>))
    ensures
        r.0 == spec_admit(stamps@, now).0,
        r.1@ == spec_admit(stamps@, now).1,
{
    let n = stamps.len();
    let mut i: usize = 0;
    assert(stamps@.subrange(0, n as int) =~= stamps@);
    while i < n && now >= WINDOW_MS && stamps[i] < now - WINDOW_MS
        invariant
            n == stamps@.len(),
            i <= n,
            pruned(stamps@, window_start(now)) == pruned(stamps@.subrange(i as int, n as int), window_start(now)),
        decreases n - i,
    {
        assert(stamps@.subrange(i as int, n as int).drop_first() =~= stamps@.subrange(i as int + 1, n as int));
        i = i + 1;
    }
    let mut kept: Vec<u64> = Vec::new();
    let mut j = i;
    while j < n
        invariant
            n == stamps@.len(),
            i <= j <= n,
            kept@ == stamps@.subrange(i as int, j as int),
        decreases n - j,
    {
        kept.push(stamps[j]);
        j = j + 1;
        assert(kept@ =~= stamps@.subrange(i as int, j as int));
    }
    if kept.len() < MAX_ALERTS_PER_WINDOW {
        kept.push(now);
        (true, kept)
    } else {
        (false, kept)
    }
}

/// Key of a rate-limiting window: (category id, format id, user id).
pub type RateLimitKey = (u8, u8, u64);

/// Per (category, format, user) windows of recent alert times, in
/// milliseconds.
pub struct RateLimiter {
    pub entries: Vec<(RateLimitKey, Vec<u64>)>,
}

impl RateLimiter {
    /// Each key occurs at most once.
    pub open spec fn wf(&self) -> bool {
        forall|i: int, j: int| 0 <= i < j < self.entries@.len() ==> #[trigger] self.entries@[i].0 != #[trigger] self.entries@[j].0
    }

    /// The stamps kept for each key.
    pub open spec fn view(&self) -> Map<RateLimitKey, Seq<u64>> {
        Map::new(
            |k: RateLimitKey| exists|i: int| 0 <= i < self.entries@.len() && #[trigger] self.entries@[i].0 == k,
            |k: RateLimitKey| self.entries@[choose|i: int| 0 <= i < self.entries@.len() && #[trigger] self.entries@[i].0 == k].1@,
        )
    }

    /// The stamps kept for `k` (none when the key is new).
    pub open spec fn stamps_of(&self, k: RateLimitKey) -> Seq<u64> {
        if self.view().contains_key(k) {
            self.view()[k]
        } else {
            Seq::empty()
        }
    }

    /// An empty limiter.
    pub fn new() -> (r: Self)
        ensures
            r.wf(),
            r.view() == Map::<RateLimitKey, Seq<u64>>::empty(),
    {
        let r = RateLimiter { entries: Vec::new() };
        assert(r.view() =~= Map::<RateLimitKey, Seq<u64>>::empty());
        r
    }

    /// Offers an alert for `key` at `now` (milliseconds): stamps older than
    /// the sixty-second window are dropped; the alert may go out when fewer
    /// than four remain, and its time is then kept.
    pub fn check(&mut self, key: RateLimitKey, now: u64) -> (r: bool)
        requires
            old(self).wf(),
        ensures
            final(self).wf(),
            r == spec_admit(old(self).stamps_of(key), now).0,
            final(self).view() == old(self).view().insert(key, spec_admit(old(self).stamps_of(key), now).1),
    {
        let n = self.entries.len();
        let mut i: usize = 0;
        let mut found = false;
        while i < n && !found
            invariant
                n == self.entries@.len(),
                i <= n,
                found ==> i < n && self.entries@[i as int].0 == key,
                forall|t: int| 0 <= t < i ==> #[trigger] self.entries@[t].0 != key,
            decreases n - i + if found { 0int } else { 1int },
        {
            let k = self.entries[i].0;
            if k.0 == key.0 && k.1 == key.1 && k.2 == key.2 {
                found = true;
            } else {
                i = i + 1;
            }
        }
        let ghost old_view = self.view();
        if i < n {
            proof {
                assert(self.entries@[i as int].0 == key);
                assert(old_view.contains_key(key));
                let c = choose|t: int| 0 <= t < self.entries@.len() && #[trigger] self.entries@[t].0 == key;
                assert(c == i);
            }
            let (ok, kept) = admit_stamps(&self.entries[i].1, now);
            let ghost old_entries = self.entries@;
            self.entries.set(i, (key, kept));
            proof {
                assert forall|a: int, b: int| 0 <= a < b < self.entries@.len() implies #[trigger] self.entries@[a].0 != #[trigger] self.entries@[b].0 by {
                    assert(old_entries[a].0 != old_entries[b].0);
                }
                assert forall|k: RateLimitKey| #[trigger] self.view().contains_key(k) == old_view.insert(key, kept@).contains_key(k) by {
                    if old_view.contains_key(k) {
                        let c = choose|t: int| 0 <= t < old_entries.len() && #[trigger] old_entries[t].0 == k;
                        assert(self.entries@[c].0 == k);
                    }
                    if self.view().contains_key(k) {
                        let c = choose|t: int| 0 <= t < self.entries@.len() && #[trigger] self.entries@[t].0 == k;
                        assert(old_entries[c].0 == k);
                    }
                }
                assert forall|k: RateLimitKey| #[trigger] self.view().contains_key(k) implies self.view()[k] == old_view.insert(key, kept@)[k] by {
                    let c = choose|t: int| 0 <= t < self.entries@.len() && #[trigger] self.entries@[t].0 == k;
                    let d = choose|t: int| 0 <= t < old_entries.len() && #[trigger] old_entries[t].0 == k;
                    assert(c == d);
                }
                assert(self.view() =~= old_view.insert(key, kept@));
            }
            ok
        } else {
            let empty: Vec<u64> = Vec::new();
            proof {
                assert(!old_view.contains_key(key));
            }
            let (ok, kept) = admit_stamps(&empty, now);
            let ghost old_entries = self.entries@;
            self.entries.push((key, kept));
            proof {
                assert(empty@ =~= Seq::<u64>::empty());
                assert forall|a: int, b: int| 0 <= a < b < self.entries@.len() implies #[trigger] self.entries@[a].0 != #[trigger] self.entries@[b].0 by {
                    if b < n {
                        assert(old_entries[a].0 != old_entries[b].0);
                    }
                }
                assert forall|k: RateLimitKey| #[trigger] self.view().contains_key(k) == old_view.insert(key, kept@).contains_key(k) by {
                    if old_view.contains_key(k) {
                        let c = choose|t: int| 0 <= t < old_entries.len() && #[trigger] old_entries[t].0 == k;
                        assert(self.entries@[c].0 == k);
                    }
                    if k == key {
                        assert(self.entries@[n as int].0 == k);
                    }
                    if self.view().contains_key(k) && k != key {
                        let c = choose|t: int| 0 <= t < self.entries@.len() && #[trigger] self.entries@[t].0 == k;
                        assert(old_entries[c].0 == k);
                    }
                }
                assert forall|k: RateLimitKey| #[trigger] self.view().contains_key(k) implies self.view()[k] == old_view.insert(key, kept@)[k] by {
                    let c = choose|t: int| 0 <= t < self.entries@.len() && #[trigger] self.entries@[t].0 == k;
                    if k == key {
                        assert(self.entries@[n as int].0 == k);
                    } else {
                        let d = choose|t: int| 0 <= t < old_entries.len() && #[trigger] old_entries[t].0 == k;
                        assert(self.entries@[d].0 == k);
                    }
                }
                assert(self.view() =~= old_view.insert(key, kept@));
            }
            ok
        }
    }
}


/// Key of a buffered alert: (category id, user id). Intents for the same
/// user in the same category are combined across formats.
pub type BufferKey = (u8, u64);

/// Alert intents waiting out the buffer delay, per (category, user).
pub struct AlertBuffer {
    pub entries: Vec<(BufferKey, Vec<AlertIntent>)>,
}

impl AlertBuffer {
    /// Each key occurs at most once.
    pub open spec fn wf(&self) -> bool {
        forall|i: int, j: int| 0 <= i < j < self.entries@.len() ==> #[trigger] self.entries@[i].0 != #[trigger] self.entries@[j].0
    }

    /// The intents buffered for each key.
    pub open spec fn view(&self) -> Map<BufferKey, Seq<AlertIntent>> {
        Map::new(
            |k: BufferKey| exists|i: int| 0 <= i < self.entries@.len() && #[trigger] self.entries@[i].0 == k,
            |k: BufferKey| self.entries@[choose|i: int| 0 <= i < self.entries@.len() && #[trigger] self.entries@[i].0 == k].1@,
        )
    }

    /// An empty buffer.
    pub fn new() -> (r: Self)
        ensures
            r.wf(),
            r.view() == Map::<BufferKey, Seq<AlertIntent>>::empty(),
    {
        let r = AlertBuffer { entries: Vec::new() };
        assert(r.view() =~= Map::<BufferKey, Seq<AlertIntent>>::empty());
        r
    }

    fn find(&self, key: BufferKey) -> (r: Option<usize>)
        requires
            self.wf(),
        ensures
            match r {
                Some(i) => i < self.entries@.len() && self.entries@[i as int].0 == key && self.view().contains_key(key)
                    && self.view()[key] == self.entries@[i as int].1@,
                None => !self.view().contains_key(key),
            },
    {
        let n = self.entries.len();
        let mut i: usize = 0;
        while i < n
            invariant
                n == self.entries@.len(),
                self.wf(),
                i <= n,
                forall|t: int| 0 <= t < i ==> #[trigger] self.entries@[t].0 != key,
            decreases n - i,
        {
            let k = self.entries[i].0;
            if k.0 == key.0 && k.1 == key.1 {
                proof {
                    assert(self.entries@[i as int].0 == key);
                    let c = choose|t: int| 0 <= t < self.entries@.len() && #[trigger] self.entries@[t].0 == key;
                    assert(c == i);
                }
                return Some(i);
            }
            i = i + 1;
        }
        None
    }

    /// Buffers an intent. Gives `true` when it is the first for its key,
    /// that is, when the buffer delay must be started.
    pub fn add_intent(&mut self, key: BufferKey, intent: AlertIntent) -> (first: bool)
        requires
            old(self).wf(),
        ensures
            final(self).wf(),
            first == !old(self).view().contains_key(key),
            final(self).view() == old(self).view().insert(
                key,
                if first { seq![intent] } else { old(self).view()[key].push(intent) },
            ),
    {
        let ghost old_view = self.view();
        let ghost old_entries = self.entries@;
        match self.find(key) {
            Some(i) => {
                let ghost prev = self.entries@[i as int].1@;
                self.entries[i].1.push(intent);
                proof {
                    assert(self.entries@[i as int].1@ == prev.push(intent));
                    assert forall|a: int, b: int| 0 <= a < b < self.entries@.len() implies #[trigger] self.entries@[a].0 != #[trigger] self.entries@[b].0 by {
                        assert(old_entries[a].0 != old_entries[b].0);
                    }
                    let nv = old_view.insert(key, prev.push(intent));
                    assert forall|k: BufferKey| #[trigger] self.view().contains_key(k) == nv.contains_key(k) by {
                        if old_view.contains_key(k) {
                            let c = choose|t: int| 0 <= t < old_entries.len() && #[trigger] old_entries[t].0 == k;
                            assert(self.entries@[c].0 == k);
                        }
                        if self.view().contains_key(k) {
                            let c = choose|t: int| 0 <= t < self.entries@.len() && #[trigger] self.entries@[t].0 == k;
                            assert(old_entries[c].0 == k);
                        }
                    }
                    assert forall|k: BufferKey| #[trigger] self.view().contains_key(k) implies self.view()[k] == nv[k] by {
                        let c = choose|t: int| 0 <= t < self.entries@.len() && #[trigger] self.entries@[t].0 == k;
                        let d = choose|t: int| 0 <= t < old_entries.len() && #[trigger] old_entries[t].0 == k;
                        assert(c == d);
                    }
                    assert(self.view() =~= nv);
                }
                false
            },
            None => {
                let mut v: Vec<AlertIntent> = Vec::new();
                v.push(intent);
                let n = self.entries.len();
                self.entries.push((key, v));
                proof {
                    assert(self.entries@[n as int].1@ =~= seq![intent]);
                    assert forall|a: int, b: int| 0 <= a < b < self.entries@.len() implies #[trigger] self.entries@[a].0 != #[trigger] self.entries@[b].0 by {
                        if b < n {
                            assert(old_entries[a].0 != old_entries[b].0);
                        } else {
                            assert(old_entries[a].0 != key);
                        }
                    }
                    let nv = old_view.insert(key, seq![intent]);
                    assert forall|k: BufferKey| #[trigger] self.view().contains_key(k) == nv.contains_key(k) by {
                        if old_view.contains_key(k) {
                            let c = choose|t: int| 0 <= t < old_entries.len() && #[trigger] old_entries[t].0 == k;
                            assert(self.entries@[c].0 == k);
                        }
                        if k == key {
                            assert(self.entries@[n as int].0 == k);
                        }
                        if self.view().contains_key(k) && k != key {
                            let c = choose|t: int| 0 <= t < self.entries@.len() && #[trigger] self.entries@[t].0 == k;
                            assert(old_entries[c].0 == k);
                        }
                    }
                    assert forall|k: BufferKey| #[trigger] self.view().contains_key(k) implies self.view()[k] == nv[k] by {
                        let c = choose|t: int| 0 <= t < self.entries@.len() && #[trigger] self.entries@[t].0 == k;
                        if k == key {
                            assert(self.entries@[n as int].0 == k);
                        } else {
                            let d = choose|t: int| 0 <= t < old_entries.len() && #[trigger] old_entries[t].0 == k;
                            assert(self.entries@[d].0 == k);
                        }
                    }
                    assert(self.view() =~= nv);
                }
                true
            },
        }
    }

    /// Takes the buffered intents for `key` out of the buffer, when there
    /// are any.
    pub fn take(&mut self, key: BufferKey) -> (r: Option<Vec<AlertIntent>>)
        requires
            old(self).wf(),
        ensures
            final(self).wf(),
            match r {
                Some(v) => old(self).view().contains_key(key) && v@ == old(self).view()[key],
                None => !old(self).view().contains_key(key),
            },
            final(self).view() == old(self).view().remove(key),
    {
        let ghost old_view = self.view();
        let ghost old_entries = self.entries@;
        match self.find(key) {
            Some(i) => {
                let (_, v) = self.entries.remove(i);
                proof {
                    assert forall|a: int, b: int| 0 <= a < b < self.entries@.len() implies #[trigger] self.entries@[a].0 != #[trigger] self.entries@[b].0 by {
                        if b < i {
                            assert(old_entries[a].0 != old_entries[b].0);
                        } else if a < i {
                            assert(self.entries@[b] == old_entries[b + 1]);
                            assert(old_entries[a].0 != old_entries[b + 1].0);
                        } else {
                            assert(self.entries@[a] == old_entries[a + 1]);
                            assert(self.entries@[b] == old_entries[b + 1]);
                            assert(old_entries[a + 1].0 != old_entries[b + 1].0);
                        }
                    }
                    let nv = old_view.remove(key);
                    assert forall|k: BufferKey| #[trigger] self.view().contains_key(k) == nv.contains_key(k) by {
                        if nv.contains_key(k) {
                            let c = choose|t: int| 0 <= t < old_entries.len() && #[trigger] old_entries[t].0 == k;
                            if c < i {
                                assert(self.entries@[c].0 == k);
                            } else {
                                assert(c != i);
                                assert(self.entries@[c - 1].0 == k);
                            }
                        }
                        if self.view().contains_key(k) {
                            let c = choose|t: int| 0 <= t < self.entries@.len() && #[trigger] self.entries@[t].0 == k;
                            if c < i {
                                assert(old_entries[c].0 == k);
                                assert(old_entries[i as int].0 != old_entries[c].0);
                            } else {
                                assert(old_entries[c + 1].0 == k);
                                assert(old_entries[i as int].0 != old_entries[c + 1].0);
                            }
                        }
                    }
                    assert forall|k: BufferKey| #[trigger] self.view().contains_key(k) implies self.view()[k] == nv[k] by {
                        let c = choose|t: int| 0 <= t < self.entries@.len() && #[trigger] self.entries@[t].0 == k;
                        let d = choose|t: int| 0 <= t < old_entries.len() && #[trigger] old_entries[t].0 == k;
                        if c < i {
                            assert(old_entries[c].0 == k);
                            assert(c == d);
                        } else {
                            assert(old_entries[c + 1].0 == k);
                            assert(c + 1 == d);
                        }
                    }
                    assert(self.view() =~= nv);
                }
                Some(v)
            },
            None => {
                assert(self.view() =~= old_view.remove(key));
                None
            },
        }
    }
}


proof fn lemma_net_nonzero_appears(s: Seq<AlertIntent>, f: Option<Seq<char>>)
    requires
        net_count(s, f) != 0,
    ensures
        exists|i: int| 0 <= i < s.len() && opt_view(#[trigger] s[i].fmt_name) == f,
    decreases s.len(),
{
    if s.len() > 0 {
        if net_count(s.drop_last(), f) != 0 {
            lemma_net_nonzero_appears(s.drop_last(), f);
            let i = choose|i: int| 0 <= i < s.drop_last().len() && opt_view(#[trigger] s.drop_last()[i].fmt_name) == f;
            assert(s[i] == s.drop_last()[i]);
        } else {
            assert(opt_view(s[s.len() - 1].fmt_name) == f);
        }
    }
}

/// Whether every running per-format count of `intents` stays within `i8`,
/// as `counts_fit_i8` states.
pub fn intents_fit_i8(intents: &Vec<AlertIntent>) -> (r: bool)
    ensures
        r == counts_fit_i8(intents@),
{
    let n = intents.len();
    let mut fi: usize = 0;
    // every format of intents[0..fi] has all its running counts within i8
    while fi < n
        invariant
            n == intents@.len(),
            fi <= n,
            forall|t: int, k: int| 0 <= t < fi && 0 <= k <= n ==>
                -128 <= #[trigger] net_count(intents@.subrange(0, k), opt_view(#[trigger] intents@[t].fmt_name)) <= 127,
        decreases n - fi,
    {
        let ghost f = opt_view(intents@[fi as int].fmt_name);
        let mut c: i64 = 0;
        let mut k: usize = 0;
        assert(intents@.subrange(0, 0) =~= Seq::<AlertIntent>::empty());
        while k < n
            invariant
                n == intents@.len(),
                fi < n,
                f == opt_view(intents@[fi as int].fmt_name),
                k <= n,
                c as int == net_count(intents@.subrange(0, k as int), f),
                forall|j: int| 0 <= j <= k ==> -128 <= #[trigger] net_count(intents@.subrange(0, j), f) <= 127,
            decreases n - k,
        {
            assert(intents@.subrange(0, k as int + 1).drop_last() =~= intents@.subrange(0, k as int));
            if opt_eq(&intents[k].fmt_name, &intents[fi].fmt_name) {
                match intents[k].alert_type {
                    AlertType::Join => {
                        c = c + 1;
                    },
                    AlertType::Leave => {
                        c = c - 1;
                    },
                }
            }
            k = k + 1;
            if c > 127 || c < -128 {
                assert(!(-128 <= net_count(intents@.subrange(0, k as int), f) <= 127));
                return false;
            }
        }
        fi = fi + 1;
    }
    proof {
        assert forall|k: int, f: Option<Seq<char>>| 0 <= k <= intents@.len() implies -128 <= #[trigger] net_count(intents@.subrange(0, k), f) <= 127 by {
            let sub = intents@.subrange(0, k);
            if net_count(sub, f) != 0 {
                lemma_net_nonzero_appears(sub, f);
                let i = choose|i: int| 0 <= i < sub.len() && opt_view(#[trigger] sub[i].fmt_name) == f;
                assert(sub[i] == intents@[i]);
            }
        }
    }
    true
}

/// What to announce once a player's buffer delay is over.
pub enum AlertDecision {
    /// Nothing was buffered for the player.
    Nothing,
    /// The buffered intents could not be counted (a running count left
    /// `i8`); the alert is dropped.
    Dropped,
    /// Joins and leaves cancelled out.
    Cancelled,
    /// The player's alert window is full.
    RateLimited,
    /// Send the join alert (for `join_fmt`) and/or the leave alert (for
    /// `leave_fmt`).
    Send {
        join_alert: bool,
        join_fmt: Option<String>,
        leave_alert: bool,
        leave_fmt: Option<String>,
        rank_name: String,
    },
}

/// Decides a player's alert once the buffer delay is over: takes the
/// buffered intents of (category, user) out of the buffer, resolves them,
/// and offers the alert to the (category, format, user) rate window at
/// `now` (milliseconds). Joined and left formats are announced combined.
pub fn decide_after_delay(
    buffer: &mut AlertBuffer,
    limiter: &mut RateLimiter,
    category_id: u8,
    fmt_id: u8,
    user_id: u64,
    now: u64,
) -> (r: AlertDecision)
    requires
        old(buffer).wf(),
        old(limiter).wf(),
    ensures
        final(buffer).wf(),
        final(limiter).wf(),
        final(buffer).view() == old(buffer).view().remove((category_id, user_id)),
        !old(buffer).view().contains_key((category_id, user_id)) ==> r is Nothing && final(limiter).view() == old(limiter).view(),
        old(buffer).view().contains_key((category_id, user_id)) ==> {
            let s = old(buffer).view()[(category_id, user_id)];
            let joins = fmts_with_sign(distinct_fmts(s), s, 1);
            let leaves = fmts_with_sign(distinct_fmts(s), s, -1);
            let key = (category_id, fmt_id, user_id);
            if !counts_fit_i8(s) {
                r is Dropped && final(limiter).view() == old(limiter).view()
            } else if joins.len() == 0 && leaves.len() == 0 {
                r is Cancelled && final(limiter).view() == old(limiter).view()
            } else {
                final(limiter).view() == old(limiter).view().insert(key, spec_admit(old(limiter).stamps_of(key), now).1)
                && if !spec_admit(old(limiter).stamps_of(key), now).0 {
                    r is RateLimited
                } else {
                    match r {
                        AlertDecision::Send { join_alert, join_fmt, leave_alert, leave_fmt, rank_name } =>
                            join_alert == (joins.len() > 0)
                            && leave_alert == (leaves.len() > 0)
                            && combined_is(joins, join_fmt)
                            && combined_is(leaves, leave_fmt)
                            && rank_name@ == last_rank(s),
                        _ => false,
                    }
                }
            }
        },
{
    let taken = buffer.take((category_id, user_id));
    let intents = match taken {
        None => {
            return AlertDecision::Nothing;
        },
        Some(v) => v,
    };
    if !intents_fit_i8(&intents) {
        return AlertDecision::Dropped;
    }
    let res = resolve_intents(&intents);
    if res.is_cancelled() {
        return AlertDecision::Cancelled;
    }
    if !limiter.check((category_id, fmt_id, user_id), now) {
        return AlertDecision::RateLimited;
    }
    let join_alert = res.join_names.len() > 0;
    let leave_alert = res.leave_names.len() > 0;
    let join_fmt = combine_fmt_names(res.join_names.as_slice());
    let leave_fmt = combine_fmt_names(res.leave_names.as_slice());
    AlertDecision::Send { join_alert, join_fmt, leave_alert, leave_fmt, rank_name: res.rank_name }
}

/// Whether `r` is the combined rendering of the format names `names`.
pub open spec fn combined_is(names: Seq<Option<Seq<char>>>, r: Option<String>) -> bool {
    if concrete_names(names).len() == 0 {
        r.is_none()
    } else {
        r.is_some() && r.unwrap()@ == join_with(concrete_names(names), amp_sep())
    }
}

} // verus!
