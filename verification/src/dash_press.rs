//! Reading the dashboard's button ids, and the texts of a finished match.

use vstd::prelude::*;
use vstd::string::*;
use crate::text::{dec, push_dec, has_prefix, str_eq, starts_with};
use crate::parse::{split_spec, split_on, parse_u8, parse_u8_spec, join_spec, no_sep, lemma_split_join};
use crate::category::{Category, format_index};
use crate::dashboard::{first_active, find_active, lemma_first_active};

verus! {

/// What a dashboard button asks for.
#[derive(Debug, Clone, Copy, PartialEq, Eq, Structural)]
pub enum DashAction {
    JoinQueue,
    LeaveQueue,
    PingPlayers,
    ChangeExpiry,
    SetExpiry,
    ShowSettings,
    ShowRunnerMenu,
    ShowHelp,
    ShuffleTeams,
    StartMatch,
    EndMatch,
    CancelMatch,
    /// `dash_end_{result}_{category}_{format}`: the winner of a match
    EndMatchResult,
    /// `report_score...`: the score form
    ReportScore,
    /// `user_prefs_...`: a page of the preferences
    UserPrefs,
    Unknown,
}

/// The action named by the first `:`-separated field of a dashboard
/// button id.
pub open spec fn dash_action_spec(a: Seq<char>) -> DashAction {
    if a == "join_queue"@ {
        DashAction::JoinQueue
    } else if a == "leave_queue"@ {
        DashAction::LeaveQueue
    } else if a == "ping_players"@ {
        DashAction::PingPlayers
    } else if a == "change_expiry"@ {
        DashAction::ChangeExpiry
    } else if a == "set_expiry"@ {
        DashAction::SetExpiry
    } else if a == "show_settings"@ {
        DashAction::ShowSettings
    } else if a == "show_runner_menu"@ {
        DashAction::ShowRunnerMenu
    } else if a == "show_help"@ {
        DashAction::ShowHelp
    } else if a == "shuffle_teams"@ {
        DashAction::ShuffleTeams
    } else if a == "start_match"@ {
        DashAction::StartMatch
    } else if a == "end_match"@ {
        DashAction::EndMatch
    } else if a == "cancel_match"@ {
        DashAction::CancelMatch
    } else if has_prefix(a, "dash_end_"@) {
        DashAction::EndMatchResult
    } else if has_prefix(a, "report_score"@) {
        DashAction::ReportScore
    } else if has_prefix(a, "user_prefs_"@) {
        DashAction::UserPrefs
    } else {
        DashAction::Unknown
    }
}

/// The action named by the first field of a dashboard button id.
pub fn classify_dash_action(a: &str) -> (r: DashAction)
    ensures
        r == dash_action_spec(a@),
{
    if str_eq(a, "join_queue") {
        DashAction::JoinQueue
    } else if str_eq(a, "leave_queue") {
        DashAction::LeaveQueue
    } else if str_eq(a, "ping_players") {
        DashAction::PingPlayers
    } else if str_eq(a, "change_expiry") {
        DashAction::ChangeExpiry
    } else if str_eq(a, "set_expiry") {
        DashAction::SetExpiry
    } else if str_eq(a, "show_settings") {
        DashAction::ShowSettings
    } else if str_eq(a, "show_runner_menu") {
        DashAction::ShowRunnerMenu
    } else if str_eq(a, "show_help") {
        DashAction::ShowHelp
    } else if str_eq(a, "shuffle_teams") {
        DashAction::ShuffleTeams
    } else if str_eq(a, "start_match") {
        DashAction::StartMatch
    } else if str_eq(a, "end_match") {
        DashAction::EndMatch
    } else if str_eq(a, "cancel_match") {
        DashAction::CancelMatch
    } else if starts_with(a, "dash_end_") {
        DashAction::EndMatchResult
    } else if starts_with(a, "report_score") {
        DashAction::ReportScore
    } else if starts_with(a, "user_prefs_") {
        DashAction::UserPrefs
    } else {
        DashAction::Unknown
    }
}

/// What the runner's action on the dashboard is recorded as, for the
/// dashboard's footer.
pub open spec fn last_action_text(a: DashAction) -> Option<Seq<char>> {
    match a {
        DashAction::ShuffleTeams => Some("shuffled teams"@),
        DashAction::StartMatch => Some("started the game"@),
        DashAction::EndMatch => Some("ended the game"@),
        DashAction::CancelMatch => Some("cancelled the game"@),
        _ => None,
    }
}

/// What a successful press of `a` is recorded as, if anything.
pub fn last_action_for(a: DashAction) -> (r: Option<&'static str>)
    ensures
        match r {
            Some(t) => last_action_text(a) == Some(t@),
            None => last_action_text(a) is None,
        },
{
    match a {
        DashAction::ShuffleTeams => Some("shuffled teams"),
        DashAction::StartMatch => Some("started the game"),
        DashAction::EndMatch => Some("ended the game"),
        DashAction::CancelMatch => Some("cancelled the game"),
        _ => None,
    }
}

/// The winner a runner picks when ending a match.
#[derive(Debug, Clone, Copy, PartialEq, Eq, Structural)]
pub enum MatchOutcome {
    Red,
    Draw,
    Blu,
}

/// A winner choice read from `dash_end_{result}_{category}_{format}`.
#[derive(Debug, Clone, Copy, PartialEq, Eq, Structural)]
pub struct EndResult {
    pub outcome: MatchOutcome,
    pub category_id: u8,
    pub format_id: u8,
}

/// The outcome a result field names.
pub open spec fn outcome_spec(s: Seq<char>) -> Option<MatchOutcome> {
    if s == "red"@ {
        Some(MatchOutcome::Red)
    } else if s == "draw"@ {
        Some(MatchOutcome::Draw)
    } else if s == "blu"@ {
        Some(MatchOutcome::Blu)
    } else {
        None
    }
}

/// The winner choice of a button id split on `_`: the third field names
/// the result, the fourth and fifth are the category and format ids.
pub open spec fn end_result_spec(parts: Seq<Seq<char>>) -> Option<EndResult> {
    let result = if parts.len() > 2 { parts[2] } else { Seq::empty() };
    let cat = if parts.len() > 3 { parse_u8_spec(parts[3]) } else { None };
    let fmt = if parts.len() > 4 { parse_u8_spec(parts[4]) } else { None };
    match (outcome_spec(result), cat, fmt) {
        (Some(o), Some(c), Some(f)) => Some(EndResult { outcome: o, category_id: c, format_id: f }),
        _ => None,
    }
}

fn outcome_of(s: &str) -> (r: Option<MatchOutcome>)
    ensures
        r == outcome_spec(s@),
{
    if str_eq(s, "red") {
        Some(MatchOutcome::Red)
    } else if str_eq(s, "draw") {
        Some(MatchOutcome::Draw)
    } else if str_eq(s, "blu") {
        Some(MatchOutcome::Blu)
    } else {
        None
    }
}

/// The word a winner button carries for each outcome: `dash_end_red_..`
/// is the "RED WON" button, `dash_end_blu_..` "BLU WON", `dash_end_draw_..`
/// "DRAW".
pub open spec fn outcome_word(o: MatchOutcome) -> Seq<char> {
    match o {
        MatchOutcome::Red => "red"@,
        MatchOutcome::Blu => "blu"@,
        MatchOutcome::Draw => "draw"@,
    }
}

/// A result field names an outcome exactly when it is that outcome's word:
/// "red" is a RED win, "blu" a BLU win, "draw" a draw.
pub proof fn lemma_outcome_words(s: Seq<char>, o: MatchOutcome)
    ensures
        outcome_spec(s) == Some(o) <==> s == outcome_word(o),
{
    reveal_strlit("red");
    reveal_strlit("blu");
    reveal_strlit("draw");
    assert("red"@ != "draw"@) by {
        assert("red"@.len() != "draw"@.len());
    }
    assert("red"@ != "blu"@) by {
        assert("red"@[0] != "blu"@[0]);
    }
    assert("blu"@ != "draw"@) by {
        assert("blu"@.len() != "draw"@.len());
    }
}

/// Reading a winner button back: the button
/// `dash_end_{word of o}_{cat}_{fmt}` (fields without `_`) gives outcome
/// `o` for the category and format its fields name, and nothing when one
/// of them is not a `u8`.
pub proof fn lemma_end_button_round_trip(o: MatchOutcome, cat: Seq<char>, fmt: Seq<char>)
    requires
        no_sep(cat, '_'),
        no_sep(fmt, '_'),
    ensures
        end_result_spec(split_spec(join_spec(seq!["dash"@, "end"@, outcome_word(o), cat, fmt], '_'), '_'))
            == match (parse_u8_spec(cat), parse_u8_spec(fmt)) {
                (Some(c), Some(f)) => Some(EndResult { outcome: o, category_id: c, format_id: f }),
                _ => None,
            },
{
    reveal_strlit("dash");
    reveal_strlit("end");
    reveal_strlit("red");
    reveal_strlit("blu");
    reveal_strlit("draw");
    let ps = seq!["dash"@, "end"@, outcome_word(o), cat, fmt];
    assert forall|k: int| 0 <= k < ps.len() implies no_sep(#[trigger] ps[k], '_') by {
        if k == 2 {
            match o {
                MatchOutcome::Red => {},
                MatchOutcome::Blu => {},
                MatchOutcome::Draw => {},
            }
        }
    }
    lemma_split_join(ps, '_');
    lemma_outcome_words(outcome_word(o), o);
}

/// Reads the winner choice of an end-match button; `None` is an invalid
/// action.
pub fn parse_end_result(custom_id: &str) -> (r: Option<EndResult>)
    ensures
        r == end_result_spec(split_spec(custom_id@, '_')),
{
    let parts = split_on(custom_id, '_');
    let ghost pv = parts@.map_values(|x: String| x@);
    assert(pv.len() == parts@.len());
    let outcome = if parts.len() > 2 {
        assert(pv[2] == parts@[2]@);
        outcome_of(parts[2].as_str())
    } else {
        assert(Seq::<char>::empty() =~= ""@) by {
            reveal_strlit("");
        }
        outcome_of("")
    };
    let cat = if parts.len() > 3 {
        assert(pv[3] == parts@[3]@);
        parse_u8(parts[3].as_str())
    } else {
        None
    };
    let fmt = if parts.len() > 4 {
        assert(pv[4] == parts@[4]@);
        parse_u8(parts[4].as_str())
    } else {
        None
    };
    match (outcome, cat, fmt) {
        (Some(o), Some(c), Some(f)) => Some(EndResult { outcome: o, category_id: c, format_id: f }),
        _ => None,
    }
}

/// The category and format ids of a `report_score_{category}_{format}`
/// button: the third and fourth `_`-separated fields read as `u8`, else the
/// dashboard's own category and format 0.
pub open spec fn report_ids_spec(parts: Seq<Seq<char>>, own: u8) -> (u8, u8) {
    let cat = if parts.len() > 2 { parse_u8_spec(parts[2]) } else { None };
    let fmt = if parts.len() > 3 { parse_u8_spec(parts[3]) } else { None };
    (
        match cat { Some(c) => c, None => own },
        match fmt { Some(f) => f, None => 0 },
    )
}

/// The category and format a score report is for.
pub fn report_score_ids(custom_id: &str, own: u8) -> (r: (u8, u8))
    ensures
        r == report_ids_spec(split_spec(custom_id@, '_'), own),
{
    let parts = split_on(custom_id, '_');
    let ghost pv = parts@.map_values(|x: String| x@);
    assert(pv.len() == parts@.len());
    let cat = if parts.len() > 2 {
        assert(pv[2] == parts@[2]@);
        parse_u8(parts[2].as_str())
    } else {
        None
    };
    let fmt = if parts.len() > 3 {
        assert(pv[3] == parts@[3]@);
        parse_u8(parts[3].as_str())
    } else {
        None
    };
    (
        match cat { Some(c) => c, None => own },
        match fmt { Some(f) => f, None => 0 },
    )
}

/// How a result is announced.
pub open spec fn result_text_spec(o: MatchOutcome) -> Seq<char> {
    match o {
        MatchOutcome::Red => "RED won"@,
        MatchOutcome::Draw => "Draw"@,
        MatchOutcome::Blu => "BLU won"@,
    }
}

/// How a result is announced.
pub fn result_text(o: MatchOutcome) -> (r: &'static str)
    ensures
        r@ == result_text_spec(o),
{
    match o {
        MatchOutcome::Red => "RED won",
        MatchOutcome::Draw => "Draw",
        MatchOutcome::Blu => "BLU won",
    }
}

/// A match's length as `{m}m {s}s`.
pub open spec fn duration_spec(secs: u64) -> Seq<char> {
    dec((secs / 60) as nat) + "m "@ + dec((secs % 60) as nat) + "s"@
}

/// A match's length as `{m}m {s}s`.
pub fn duration_text(secs: u64) -> (r: String)
    ensures
        r@ == duration_spec(secs),
{
    let mut x = String::new();
    push_dec(&mut x, secs / 60);
    x.append("m ");
    push_dec(&mut x, secs % 60);
    x.append("s");
    assert(x@ =~= duration_spec(secs));
    x
}

/// The footer of a match result: who logged it, and the game number when
/// the match was recorded.
pub open spec fn log_footer_spec(reporter: Seq<char>, match_id: Option<u64>) -> Seq<char> {
    match match_id {
        Some(id) => "Logged by "@ + reporter + " · Game #"@ + dec(id as nat),
        None => "Logged by "@ + reporter,
    }
}

/// The footer of a match result.
pub fn log_footer(reporter: &str, match_id: Option<u64>) -> (r: String)
    ensures
        r@ == log_footer_spec(reporter@, match_id),
{
    let mut x = String::from_str("Logged by ");
    x.append(reporter);
    match match_id {
        Some(id) => {
            x.append(" · Game #");
            push_dec(&mut x, id);
        },
        None => {},
    }
    assert(x@ =~= log_footer_spec(reporter@, match_id));
    x
}

/// What the runner who ended a match is told.
pub open spec fn end_description_spec(format_name: Seq<char>, o: MatchOutcome, match_id: Option<u64>) -> Seq<char> {
    match match_id {
        Some(id) => "**"@ + format_name + "** - "@ + result_text_spec(o) + " (Game #"@ + dec(id as nat) + ")"@,
        None => "**"@ + format_name + "** - "@ + result_text_spec(o),
    }
}

/// What the runner who ended a match is told.
pub fn end_description(format_name: &str, o: MatchOutcome, match_id: Option<u64>) -> (r: String)
    ensures
        r@ == end_description_spec(format_name@, o, match_id),
{
    let mut x = String::from_str("**");
    x.append(format_name);
    x.append("** - ");
    x.append(result_text(o));
    match match_id {
        Some(id) => {
            x.append(" (Game #");
            push_dec(&mut x, id);
            x.append(")");
        },
        None => {},
    }
    assert(x@ =~= end_description_spec(format_name@, o, match_id));
    x
}

impl Category {
    /// Whether the game under way in format `fmt_id` has its result already
    /// (false when there is none): a second press of a winner button is
    /// then only acknowledged.
    pub fn score_already_reported(&self, fmt_id: u8) -> (r: bool)
        ensures
            ({
                let fs = self.formats@;
                let f = format_index(fs, fmt_id, 0);
                r == (f < fs.len() && first_active(fs[f].sessions@, 0) < fs[f].sessions@.len()
                    && fs[f].sessions@[first_active(fs[f].sessions@, 0)].score_reported)
            }),
    {
        let f = match self.find_format(fmt_id) {
            Some(f) => f,
            None => {
                return false;
            },
        };
        match find_active(&self.formats[f].sessions) {
            Some(s) => self.formats[f].sessions[s].score_reported,
            None => false,
        }
    }

    /// Marks the game under way in format `fmt_id` as having its result.
    /// Gives whether there was such a game.
    pub fn mark_score_reported(&mut self, fmt_id: u8) -> (r: bool)
        ensures
            ({
                let a = *old(self);
                let f = format_index(a.formats@, fmt_id, 0);
                if f < a.formats@.len() && first_active(a.formats@[f].sessions@, 0) < a.formats@[f].sessions@.len() {
                    let s = first_active(a.formats@[f].sessions@, 0);
                    let x = a.formats@[f].sessions@[s];
                    let y = final(self).formats@[f].sessions@[s];
                    &&& r
                    &&& crate::dash_actions::only_session_changed(a, *final(self), f, s)
                    &&& y.score_reported
                    &&& y.status == x.status
                    &&& y.pool@ == x.pool@
                    &&& y.started_at_ms == x.started_at_ms
                    &&& y.pre_match_pool == x.pre_match_pool
                    &&& y.ready_at_ms == x.ready_at_ms
                    &&& y.match_ended_at_ms == x.match_ended_at_ms
                    &&& y.last_action_at_ms == x.last_action_at_ms
                } else {
                    !r && *final(self) == a
                }
            }),
    {
        let f = match self.find_format(fmt_id) {
            Some(f) => f,
            None => {
                return false;
            },
        };
        proof {
            lemma_first_active(self.formats@[f as int].sessions@, 0);
        }
        match find_active(&self.formats[f].sessions) {
            Some(s) => {
                self.formats[f].sessions[s].score_reported = true;
                true
            },
            None => false,
        }
    }
}

} // verus!
