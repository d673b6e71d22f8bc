//! The queue dashboard of a category: which buttons it offers, and what
//! pressing them decides and changes.

use vstd::prelude::*;
use vstd::string::*;
use crate::text::{dec, push_dec};
use crate::session::{SessionPlayer, SessionStatus};
use crate::category::{Session, Format, Category, in_pool};
use crate::settings::{SettingsButton, SettingsButtonStyle, SettingsRow, ButtonView, RowView, btn, buttons_view};

verus! {

/// Whether some session of `ss` is hot.
pub open spec fn any_hot(ss: Seq<Session>) -> bool {
    exists|j: int| 0 <= j < ss.len() && #[trigger] ss[j].status == SessionStatus::Hot
}

/// Whether some session of `ss` has a game under way.
pub open spec fn any_active(ss: Seq<Session>) -> bool {
    exists|j: int| 0 <= j < ss.len() && (#[trigger] ss[j].status).spec_is_active()
}

/// Whether some session of `ss` has a live game.
pub open spec fn any_live(ss: Seq<Session>) -> bool {
    exists|j: int| 0 <= j < ss.len() && #[trigger] ss[j].status == SessionStatus::Live
}

/// Whether players wait in an idle or hot session of `ss`.
pub open spec fn has_queued(ss: Seq<Session>) -> bool {
    exists|j: int| 0 <= j < ss.len() && (#[trigger] ss[j].status == SessionStatus::Idle
        || ss[j].status == SessionStatus::Hot) && ss[j].pool@.len() > 0
}

/// Index of the first session of `ss[i..]` with a game under way (or the
/// length).
pub open spec fn first_active(ss: Seq<Session>, i: int) -> int
    decreases ss.len() - i,
{
    if 0 <= i < ss.len() && !ss[i].status.spec_is_active() {
        first_active(ss, i + 1)
    } else {
        i
    }
}

/// Index of the first session of `ss[i..]` in stage `st` (or the length).
pub open spec fn first_status(ss: Seq<Session>, st: SessionStatus, i: int) -> int
    decreases ss.len() - i,
{
    if 0 <= i < ss.len() && ss[i].status != st {
        first_status(ss, st, i + 1)
    } else {
        i
    }
}

pub proof fn lemma_first_active(ss: Seq<Session>, i: int)
    requires
        0 <= i <= ss.len(),
    ensures
        i <= first_active(ss, i) <= ss.len(),
        forall|k: int| i <= k < first_active(ss, i) ==> !(#[trigger] ss[k].status).spec_is_active(),
        first_active(ss, i) < ss.len() ==> ss[first_active(ss, i)].status.spec_is_active(),
    decreases ss.len() - i,
{
    if i < ss.len() && !ss[i].status.spec_is_active() {
        lemma_first_active(ss, i + 1);
    }
}

pub proof fn lemma_first_status(ss: Seq<Session>, st: SessionStatus, i: int)
    requires
        0 <= i <= ss.len(),
    ensures
        i <= first_status(ss, st, i) <= ss.len(),
        forall|k: int| i <= k < first_status(ss, st, i) ==> #[trigger] ss[k].status != st,
        first_status(ss, st, i) < ss.len() ==> ss[first_status(ss, st, i)].status == st,
    decreases ss.len() - i,
{
    if i < ss.len() && ss[i].status != st {
        lemma_first_status(ss, st, i + 1);
    }
}

fn same_status(a: SessionStatus, b: SessionStatus) -> (r: bool)
    ensures
        r == (a == b),
{
    match (a, b) {
        (SessionStatus::Idle, SessionStatus::Idle) => true,
        (SessionStatus::Hot, SessionStatus::Hot) => true,
        (SessionStatus::Push, SessionStatus::Push) => true,
        (SessionStatus::Live, SessionStatus::Live) => true,
        (SessionStatus::Pull, SessionStatus::Pull) => true,
        _ => false,
    }
}

/// Index of the first session in stage `st`.
pub fn find_status(ss: &Vec<Session>, st: SessionStatus) -> (r: Option<usize>)
    ensures
        match r {
            Some(i) => i as int == first_status(ss@, st, 0) && i < ss@.len(),
            None => first_status(ss@, st, 0) == ss@.len(),
        },
{
    let n = ss.len();
    let mut i: usize = 0;
    while i < n
        invariant
            n == ss@.len(),
            i <= n,
            first_status(ss@, st, 0) == first_status(ss@, st, i as int),
        decreases n - i,
    {
        if same_status(ss[i].status, st) {
            return Some(i);
        }
        i = i + 1;
    }
    None
}

/// Index of the first session with a game under way.
pub fn find_active(ss: &Vec<Session>) -> (r: Option<usize>)
    ensures
        match r {
            Some(i) => i as int == first_active(ss@, 0) && i < ss@.len(),
            None => first_active(ss@, 0) == ss@.len(),
        },
{
    let n = ss.len();
    let mut i: usize = 0;
    while i < n
        invariant
            n == ss@.len(),
            i <= n,
            first_active(ss@, 0) == first_active(ss@, i as int),
        decreases n - i,
    {
        if ss[i].status.is_active() {
            return Some(i);
        }
        i = i + 1;
    }
    None
}

/// Whether some session is hot.
pub fn some_hot(ss: &Vec<Session>) -> (r: bool)
    ensures
        r == any_hot(ss@),
{
    proof {
        lemma_first_status(ss@, SessionStatus::Hot, 0);
    }
    find_status(ss, SessionStatus::Hot).is_some()
}

/// Whether some session has a live game.
pub fn some_live(ss: &Vec<Session>) -> (r: bool)
    ensures
        r == any_live(ss@),
{
    proof {
        lemma_first_status(ss@, SessionStatus::Live, 0);
    }
    find_status(ss, SessionStatus::Live).is_some()
}

/// Whether some session has a game under way.
pub fn some_active(ss: &Vec<Session>) -> (r: bool)
    ensures
        r == any_active(ss@),
{
    proof {
        lemma_first_active(ss@, 0);
    }
    find_active(ss).is_some()
}

/// Whether players wait in an idle or hot session.
pub fn some_queued(ss: &Vec<Session>) -> (r: bool)
    ensures
        r == has_queued(ss@),
{
    let n = ss.len();
    let mut i: usize = 0;
    while i < n
        invariant
            n == ss@.len(),
            i <= n,
            forall|k: int| 0 <= k < i ==> !((#[trigger] ss@[k].status == SessionStatus::Idle
                || ss@[k].status == SessionStatus::Hot) && ss@[k].pool@.len() > 0),
        decreases n - i,
    {
        let waiting = match ss[i].status {
            SessionStatus::Idle | SessionStatus::Hot => true,
            _ => false,
        };
        if waiting && ss[i].pool.len() > 0 {
            return true;
        }
        i = i + 1;
    }
    false
}

/// `:{id}`, the suffix that scopes a dashboard button to a format.
pub open spec fn fmt_suffix(id: u8) -> Seq<char> {
    ":"@ + dec(id as nat)
}

/// The button row of one format on the dashboard, in five slots: Join,
/// Leave, Edit timeout, the game slot (Cancel or End while a game is under
/// way, else Start while a session is ready), and Shuffle.
pub open spec fn format_row(c: Category, f: Format, now: u64) -> Seq<ButtonView> {
    let ss = f.sessions@;
    let sfx = fmt_suffix(f.id);
    let join_label = if c.formats@.len() > 1 { "Join "@ + f.name@ } else { "Join"@ };
    let join = if c.restarting {
        Seq::empty()
    } else {
        seq![btn("join_queue"@ + sfx, join_label, SettingsButtonStyle::Success)]
    };
    let leave = if !c.restarting && has_queued(ss) {
        seq![
            btn("leave_queue"@ + sfx, "Leave"@, SettingsButtonStyle::Danger),
            btn("change_expiry"@ + sfx, "Edit timeout"@, SettingsButtonStyle::Secondary),
        ]
    } else {
        Seq::empty()
    };
    let game = if any_active(ss) {
        if ss[first_active(ss, 0)].spec_can_cancel_match(now) {
            seq![btn("cancel_match"@ + sfx, "Cancel game"@, SettingsButtonStyle::Danger)]
        } else {
            seq![btn("end_match"@ + sfx, if c.require_score_report { "End & log score"@ } else { "End"@ },
                SettingsButtonStyle::Danger)]
        }
    } else {
        Seq::empty()
    };
    let hot = if !c.restarting && any_hot(ss) {
        if any_active(ss) {
            seq![btn("shuffle_teams"@ + sfx, "Shuffle"@, SettingsButtonStyle::Secondary)]
        } else {
            seq![
                btn("start_match"@ + sfx, "Start"@, SettingsButtonStyle::Success),
                btn("shuffle_teams"@ + sfx, "Shuffle"@, SettingsButtonStyle::Secondary),
            ]
        }
    } else {
        Seq::empty()
    };
    join + leave + game + hot
}

/// The footer row: ping, preferences, runner menu and help.
pub open spec fn footer_row() -> Seq<ButtonView> {
    seq![
        btn("ping_players"@, "Ping"@, SettingsButtonStyle::Secondary),
        btn("show_settings"@, "Preferences"@, SettingsButtonStyle::Secondary),
        btn("show_runner_menu"@, "Runner menu"@, SettingsButtonStyle::Secondary),
        btn("show_help"@, "Help"@, SettingsButtonStyle::Secondary),
    ]
}

/// The dashboard's button rows at `now`: one per format, then the footer
/// unless the bot is restarting.
pub open spec fn dashboard_rows(c: Category, now: u64) -> Seq<RowView> {
    let fs = c.formats@;
    let rows = Seq::new(fs.len(), |i: int| RowView::Buttons(format_row(c, fs[i], now)));
    if c.restarting { rows } else { rows.push(RowView::Buttons(footer_row())) }
}

fn lit(s: &str) -> (r: String)
    ensures
        r@ == s@,
{
    String::from_str(s)
}

fn scoped(action: &str, id: u8) -> (r: String)
    ensures
        r@ == action@ + fmt_suffix(id),
{
    let mut x = lit(action);
    x.append(":");
    push_dec(&mut x, id as u64);
    assert(x@ =~= action@ + fmt_suffix(id));
    x
}

fn push_button(v: &mut Vec<SettingsButton>, b: SettingsButton)
    ensures
        buttons_view(final(v)@) == buttons_view(old(v)@).push(b@),
{
    let ghost before = v@;
    v.push(b);
    assert(buttons_view(v@) =~= buttons_view(before).push(b@));
}

impl Category {
    fn format_buttons(&self, f: usize, now: u64) -> (r: Vec<SettingsButton>)
        requires
            f < self.formats@.len(),
        ensures
            buttons_view(r@) == format_row(*self, self.formats@[f as int], now),
    {
        let fmt = &self.formats[f];
        let ss = &fmt.sessions;
        let mut row: Vec<SettingsButton> = Vec::new();
        let ghost sfx = fmt_suffix(fmt.id);
        let ghost v0 = buttons_view(row@);
        assert(v0 =~= Seq::<ButtonView>::empty());
        if !self.restarting {
            let label = if self.formats.len() > 1 {
                let mut l = lit("Join ");
                l.append(fmt.name.as_str());
                l
            } else {
                lit("Join")
            };
            push_button(&mut row, SettingsButton::action(scoped("join_queue", fmt.id), label, SettingsButtonStyle::Success));
        }
        let ghost v1 = buttons_view(row@);
        if !self.restarting && some_queued(ss) {
            push_button(&mut row, SettingsButton::action(scoped("leave_queue", fmt.id), lit("Leave"), SettingsButtonStyle::Danger));
            push_button(&mut row, SettingsButton::action(scoped("change_expiry", fmt.id), lit("Edit timeout"), SettingsButtonStyle::Secondary));
        }
        let ghost v2 = buttons_view(row@);
        proof {
            lemma_first_active(ss@, 0);
        }
        let active = find_active(ss);
        match active {
            Some(a) => {
                if ss[a].can_cancel_match(now) {
                    push_button(&mut row, SettingsButton::action(scoped("cancel_match", fmt.id), lit("Cancel game"), SettingsButtonStyle::Danger));
                } else {
                    let label = if self.require_score_report { lit("End & log score") } else { lit("End") };
                    push_button(&mut row, SettingsButton::action(scoped("end_match", fmt.id), label, SettingsButtonStyle::Danger));
                }
            },
            None => {},
        }
        let ghost v3 = buttons_view(row@);
        if !self.restarting && some_hot(ss) {
            if active.is_none() {
                push_button(&mut row, SettingsButton::action(scoped("start_match", fmt.id), lit("Start"), SettingsButtonStyle::Success));
            }
            push_button(&mut row, SettingsButton::action(scoped("shuffle_teams", fmt.id), lit("Shuffle"), SettingsButtonStyle::Secondary));
        }
        proof {
            let c = *self;
            let fv = self.formats@[f as int];
            let spec_ss = fv.sessions@;
            let join = if c.restarting {
                Seq::empty()
            } else {
                seq![btn("join_queue"@ + sfx, if c.formats@.len() > 1 { "Join "@ + fv.name@ } else { "Join"@ }, SettingsButtonStyle::Success)]
            };
            assert(v1 =~= join);
            assert(buttons_view(row@) =~= format_row(c, fv, now));
        }
        row
    }

    /// The dashboard's button rows at `now` (milliseconds): for each format
    /// Join (unless restarting), Leave and Edit timeout while players wait,
    /// Cancel within five minutes of a start or else End while a game is
    /// under way, Start (when no game is under way) and Shuffle while a
    /// session is ready (unless restarting); then the footer unless
    /// restarting. No row holds more than five buttons.
    pub fn create_dashboard_buttons(&self, now: u64) -> (r: Vec<SettingsRow>)
        ensures
            r@.map_values(|x: SettingsRow| x@) == dashboard_rows(*self, now),
            forall|i: int| 0 <= i < r@.len() ==> fits_row(#[trigger] r@[i]@),
    {
        let n = self.formats.len();
        let mut rows: Vec<SettingsRow> = Vec::new();
        let mut i: usize = 0;
        while i < n
            invariant
                n == self.formats@.len(),
                i <= n,
                rows@.len() == i,
                forall|k: int| 0 <= k < i ==> (#[trigger] rows@[k])@ == RowView::Buttons(format_row(*self, self.formats@[k], now)),
            decreases n - i,
        {
            rows.push(SettingsRow::Buttons(self.format_buttons(i, now)));
            i = i + 1;
        }
        let ghost before = rows@;
        if !self.restarting {
            let mut footer: Vec<SettingsButton> = Vec::new();
            push_button(&mut footer, SettingsButton::action(lit("ping_players"), lit("Ping"), SettingsButtonStyle::Secondary));
            push_button(&mut footer, SettingsButton::action(lit("show_settings"), lit("Preferences"), SettingsButtonStyle::Secondary));
            push_button(&mut footer, SettingsButton::action(lit("show_runner_menu"), lit("Runner menu"), SettingsButtonStyle::Secondary));
            push_button(&mut footer, SettingsButton::action(lit("show_help"), lit("Help"), SettingsButtonStyle::Secondary));
            assert(buttons_view(footer@) =~= footer_row());
            rows.push(SettingsRow::Buttons(footer));
        }
        assert(rows@.map_values(|x: SettingsRow| x@) =~= dashboard_rows(*self, now));
        proof {
            assert forall|i: int| 0 <= i < rows@.len() implies fits_row(#[trigger] rows@[i]@) by {
                assert(rows@[i]@ == rows@.map_values(|x: SettingsRow| x@)[i]);
                if i < self.formats@.len() {
                    lemma_row_fits(*self, self.formats@[i], now);
                }
            }
        }
        rows
    }
}

/// A row of buttons that Discord accepts: at most five buttons.
pub open spec fn fits_row(r: RowView) -> bool {
    match r {
        RowView::Buttons(b) => b.len() <= 5,
        _ => false,
    }
}

/// A format's row never holds more than five buttons, and never offers
/// Start while a game is under way (the game slot then holds Cancel or
/// End).
pub proof fn lemma_row_fits(c: Category, f: Format, now: u64)
    ensures
        format_row(c, f, now).len() <= 5,
        any_active(f.sessions@) ==> forall|j: int| 0 <= j < format_row(c, f, now).len()
            ==> (#[trigger] format_row(c, f, now)[j]).id != "start_match"@ + fmt_suffix(f.id),
{
    let r = format_row(c, f, now);
    let sfx = fmt_suffix(f.id);
    let start = "start_match"@ + sfx;
    if any_active(f.sessions@) {
        reveal_strlit("start_match");
        reveal_strlit("join_queue");
        reveal_strlit("leave_queue");
        reveal_strlit("change_expiry");
        reveal_strlit("cancel_match");
        reveal_strlit("end_match");
        reveal_strlit("shuffle_teams");
        assert forall|j: int| 0 <= j < r.len() implies (#[trigger] r[j]).id != start by {
            let id = r[j].id;
            assert(start[0] == 's' && start[1] == 't');
            assert(id[0] != 's' || id[1] != 't');
        }
    }
}


/// While the bot restarts, the dashboard offers one row per format and no
/// footer, and a format's row offers at most ending or cancelling its game
/// under way: no joining, leaving, starting or shuffling.
pub proof fn lemma_restarting_rows(c: Category, now: u64)
    requires
        c.restarting,
    ensures
        dashboard_rows(c, now).len() == c.formats@.len(),
        forall|i: int| 0 <= i < c.formats@.len() ==> {
            let r = #[trigger] format_row(c, c.formats@[i], now);
            let sfx = fmt_suffix(c.formats@[i].id);
            r.len() <= 1 && (r.len() == 1 ==> r[0].id == "cancel_match"@ + sfx || r[0].id == "end_match"@ + sfx)
        },
{
    assert forall|i: int| 0 <= i < c.formats@.len() implies {
        let r = #[trigger] format_row(c, c.formats@[i], now);
        let sfx = fmt_suffix(c.formats@[i].id);
        r.len() <= 1 && (r.len() == 1 ==> r[0].id == "cancel_match"@ + sfx || r[0].id == "end_match"@ + sfx)
    } by {
        let f = c.formats@[i];
        let r = format_row(c, f, now);
        if any_active(f.sessions@) {
            assert(r.len() == 1);
        } else {
            assert(r.len() == 0);
        }
    }
}

} // verus!
