//! What the dashboard shows of each format: the games under way with their
//! teams, the ready games with their missing players, and the queue.

use vstd::prelude::*;
use vstd::string::*;
use crate::text::{dec, push_dec, is_blank, blank};
use crate::steam::{spec_steam_link, extract_steam_link};
use crate::session::{SessionPlayer, SessionStatus, Team};
use crate::category::{Session, Format, Category};
use crate::dashboard::{first_status, find_status, lemma_first_status, dashboard_rows};
use crate::teams::{sort_desc, on_team, get_sorted_teams};
use crate::settings::{SettingsField, FieldView, SettingsRow};

verus! {

/// A player as listed on the dashboard: their shown ELO then a mention,
/// or the mention alone when ELO is hidden.
pub open spec fn player_line(p: SessionPlayer, hide_elo: bool, dynamic: bool) -> Seq<char> {
    if hide_elo {
        "<@"@ + dec(p.user_id as nat) + ">"@
    } else {
        "‹**"@ + dec(p.spec_shown_elo(dynamic) as nat) + "**› <@"@ + dec(p.user_id as nat) + ">"@
    }
}

/// The players of `ps` listed one per line (no final line feed).
pub open spec fn player_lines(ps: Seq<SessionPlayer>, hide_elo: bool, dynamic: bool) -> Seq<char>
    decreases ps.len(),
{
    if ps.len() == 0 {
        Seq::empty()
    } else if ps.len() == 1 {
        player_line(ps[0], hide_elo, dynamic)
    } else {
        player_lines(ps.drop_last(), hide_elo, dynamic) + "\n"@ + player_line(ps.last(), hide_elo, dynamic)
    }
}

/// Appends a player's line.
pub fn push_player_line(out: &mut String, p: &SessionPlayer, hide_elo: bool, dynamic: bool)
    ensures
        final(out)@ == old(out)@ + player_line(*p, hide_elo, dynamic),
{
    if hide_elo {
        out.append("<@");
        push_dec(out, p.user_id);
        out.append(">");
    } else {
        out.append("‹**");
        push_dec(out, p.shown_elo(dynamic) as u64);
        out.append("**› <@");
        push_dec(out, p.user_id);
        out.append(">");
    }
    assert(out@ =~= old(out)@ + player_line(*p, hide_elo, dynamic));
}

/// The players listed one per line.
pub fn list_players(ps: &[SessionPlayer], hide_elo: bool, dynamic: bool) -> (r: String)
    ensures
        r@ == player_lines(ps@, hide_elo, dynamic),
{
    let n = ps.len();
    let mut out = String::new();
    let mut i: usize = 0;
    while i < n
        invariant
            n == ps@.len(),
            i <= n,
            out@ == player_lines(ps@.take(i as int), hide_elo, dynamic),
        decreases n - i,
    {
        let ghost t = ps@.take(i as int + 1);
        assert(t.drop_last() =~= ps@.take(i as int));
        if i > 0 {
            out.append("\n");
        }
        push_player_line(&mut out, &ps[i], hide_elo, dynamic);
        proof {
            if i == 0 {
                assert(ps@.take(0) =~= Seq::<SessionPlayer>::empty());
            }
        }
        i = i + 1;
    }
    assert(ps@.take(n as int) =~= ps@);
    out
}

/// Sum of the shown ELOs of `ps`.
pub open spec fn elo_sum(ps: Seq<SessionPlayer>, dynamic: bool) -> nat
    decreases ps.len(),
{
    if ps.len() == 0 {
        0
    } else {
        elo_sum(ps.drop_last(), dynamic) + ps.last().spec_shown_elo(dynamic) as nat
    }
}

/// The average shown ELO in tenths, rounded half up.
pub open spec fn avg_tenths(ps: Seq<SessionPlayer>, dynamic: bool) -> nat {
    (elo_sum(ps, dynamic) * 20 + ps.len()) / (2 * ps.len())
}

/// The average shown ELO of a team as the dashboard prints it: with one
/// decimal when it is not whole, and `NaN` for an empty team (the average
/// of no number).
pub open spec fn avg_text(ps: Seq<SessionPlayer>, dynamic: bool) -> Seq<char> {
    if ps.len() == 0 {
        "NaN"@
    } else {
        let t = avg_tenths(ps, dynamic);
        if t % 10 == 0 { dec(t / 10) } else { dec(t / 10) + "."@ + dec(t % 10) }
    }
}

/// The headers of a team: its average ELO then its colour, or the colour
/// alone when ELO is hidden.
pub open spec fn team_header(ps: Seq<SessionPlayer>, red: bool, hide_elo: bool, dynamic: bool) -> Seq<char> {
    let colour = if red { "🔴 RED"@ } else { "🔵 BLU"@ };
    if hide_elo { colour } else { "‹**"@ + avg_text(ps, dynamic) + "**› "@ + colour }
}

fn push_avg(out: &mut String, ps: &Vec<SessionPlayer>, dynamic: bool)
    ensures
        final(out)@ == old(out)@ + avg_text(ps@, dynamic),
{
    let n = ps.len();
    if n == 0 {
        out.append("NaN");
        return;
    }
    let mut sum: u128 = 0;
    let mut i: usize = 0;
    while i < n
        invariant
            n == ps@.len(),
            i <= n,
            sum == elo_sum(ps@.take(i as int), dynamic),
            sum <= i * 65535,
        decreases n - i,
    {
        assert(ps@.take(i as int + 1).drop_last() =~= ps@.take(i as int));
        sum = sum + ps[i].shown_elo(dynamic) as u128;
        i = i + 1;
    }
    assert(ps@.take(n as int) =~= ps@);
    let nn = n as u128;
    assert(sum * 20 + nn <= 0x1_0000_0000_0000_0000 * 65535 * 20 + 0x1_0000_0000_0000_0000) by (nonlinear_arith)
        requires sum <= nn * 65535, nn < 0x1_0000_0000_0000_0000;
    let t: u128 = (sum * 20 + nn) / (2 * nn);
    assert(t <= 655350) by (nonlinear_arith)
        requires t == (sum * 20 + nn) / (2 * nn), sum <= nn * 65535, nn >= 1;
    let whole = (t / 10) as u64;
    let tenth = (t % 10) as u64;
    push_dec(out, whole);
    if tenth != 0 {
        out.append(".");
        push_dec(out, tenth);
    }
    assert(out@ =~= old(out)@ + avg_text(ps@, dynamic));
}

fn team_header_exec(ps: &Vec<SessionPlayer>, red: bool, hide_elo: bool, dynamic: bool) -> (r: String)
    ensures
        r@ == team_header(ps@, red, hide_elo, dynamic),
{
    let colour = if red { "🔴 RED" } else { "🔵 BLU" };
    if hide_elo {
        String::from_str(colour)
    } else {
        let mut x = String::from_str("‹**");
        push_avg(&mut x, ps, dynamic);
        x.append("**› ");
        x.append(colour);
        assert(x@ =~= team_header(ps@, red, hide_elo, dynamic));
        x
    }
}

/// The two team fields of a pool, side by side: blue first, then red, each
/// listing its players by ELO, highest first.
pub open spec fn team_fields(pool: Seq<SessionPlayer>, hide_elo: bool, dynamic: bool) -> Seq<FieldView> {
    let red = sort_desc(on_team(pool, Team::Red));
    let blu = sort_desc(on_team(pool, Team::Blu));
    seq![
        FieldView { name: team_header(blu, false, hide_elo, dynamic), value: player_lines(blu, hide_elo, dynamic), inline: true },
        FieldView { name: team_header(red, true, hide_elo, dynamic), value: player_lines(red, hide_elo, dynamic), inline: true },
    ]
}

/// Appends the two team fields of a pool.
pub fn push_team_fields(fields: &mut Vec<SettingsField>, pool: &Vec<SessionPlayer>, hide_elo: bool, dynamic: bool)
    ensures
        final(fields)@.map_values(|f: SettingsField| f@) == old(fields)@.map_values(|f: SettingsField| f@)
            + team_fields(pool@, hide_elo, dynamic),
{
    let (red, blu) = get_sorted_teams(pool.as_slice(), 0);
    proof {
        crate::teams::lemma_sort_desc(on_team(pool@, Team::Red));
        crate::teams::lemma_sort_desc(on_team(pool@, Team::Blu));
        lemma_on_team_len(pool@, Team::Red);
        lemma_on_team_len(pool@, Team::Blu);
    }
    let ghost before = fields@.map_values(|f: SettingsField| f@);
    let bh = team_header_exec(&blu, false, hide_elo, dynamic);
    let bl = list_players(blu.as_slice(), hide_elo, dynamic);
    fields.push(SettingsField { name: bh, value: bl, inline: true });
    let rh = team_header_exec(&red, true, hide_elo, dynamic);
    let rl = list_players(red.as_slice(), hide_elo, dynamic);
    fields.push(SettingsField { name: rh, value: rl, inline: true });
    assert(fields@.map_values(|f: SettingsField| f@) =~= before + team_fields(pool@, hide_elo, dynamic));
}

proof fn lemma_on_team_len(s: Seq<SessionPlayer>, t: Team)
    ensures
        on_team(s, t).len() <= s.len(),
    decreases s.len(),
{
    if s.len() > 0 {
        lemma_on_team_len(s.drop_last(), t);
    }
}

/// Discord's relative rendering of a moment `secs` after the Unix epoch.
pub open spec fn relative(secs: nat) -> Seq<char> {
    "<t:"@ + dec(secs) + ":R>"@
}

fn push_relative(out: &mut String, secs: u64)
    ensures
        final(out)@ == old(out)@ + relative(secs as nat),
{
    out.append("<t:");
    push_dec(out, secs);
    out.append(":R>");
    assert(out@ =~= old(out)@ + relative(secs as nat));
}

/// What the dashboard reads from outside the category: whether ELO is
/// hidden and dynamic, the post-game confirm time, the guild, and the
/// players now in a game (user, guild, format name).
pub struct ViewParams {
    pub hide_elo: bool,
    pub dynamic_elo: bool,
    /// Seconds players have to join after a game of theirs ended
    pub post_game_confirm_secs: u16,
    pub guild_id: u64,
    pub in_game: Vec<(u64, u64, String)>,
}

/// How many sessions of `ss` have a game under way.
pub open spec fn count_active(ss: Seq<Session>) -> nat
    decreases ss.len(),
{
    if ss.len() == 0 {
        0
    } else {
        count_active(ss.drop_last()) + if ss.last().status.spec_is_active() { 1nat } else { 0nat }
    }
}

/// How many sessions of `ss` are ready.
pub open spec fn count_hot(ss: Seq<Session>) -> nat
    decreases ss.len(),
{
    if ss.len() == 0 {
        0
    } else {
        count_hot(ss.drop_last()) + if ss.last().status == SessionStatus::Hot { 1nat } else { 0nat }
    }
}

/// The queue label of a format: `{name} queue` when the category has
/// several formats, else `Queue`.
pub open spec fn fmt_label(c: Category, f: Format) -> Seq<char> {
    if c.formats@.len() > 1 { f.name@ + " queue"@ } else { "Queue"@ }
}

/// What a game under way is doing.
pub open spec fn game_status(s: Session) -> Seq<char> {
    match s.status {
        SessionStatus::Push => "Moving players to team channels..."@,
        SessionStatus::Live => "Started "@ + match s.started_at_ms {
            Some(ms) => relative((ms / 1000) as nat),
            None => "recently"@,
        },
        SessionStatus::Pull => "Moving players back to queue..."@,
        _ => Seq::empty(),
    }
}

/// The fields of the `i`-th game under way (from 0): its label, then its
/// teams once the pool holds the quota.
pub open spec fn game_fields(label: Seq<char>, s: Session, i: nat, concurrent: bool, quota: u8, p: ViewParams) -> Seq<FieldView> {
    let name = if concurrent { "Game "@ + dec(i + 1) + " - "@ + game_status(s) } else { label + " - "@ + game_status(s) };
    seq![FieldView { name, value: Seq::empty(), inline: false }]
        + if s.pool@.len() >= quota { team_fields(s.pool@, p.hide_elo, p.dynamic_elo) } else { Seq::empty() }
}

/// The fields of the games under way among `ss`, in order.
pub open spec fn live_fields(label: Seq<char>, ss: Seq<Session>, concurrent: bool, quota: u8, p: ViewParams) -> Seq<FieldView>
    decreases ss.len(),
{
    if ss.len() == 0 {
        Seq::empty()
    } else {
        live_fields(label, ss.drop_last(), concurrent, quota, p) + if ss.last().status.spec_is_active() {
            game_fields(label, ss.last(), count_active(ss.drop_last()), concurrent, quota, p)
        } else {
            Seq::empty()
        }
    }
}

/// The players of `ps` not in the queue voice channel, in order.
pub open spec fn not_in_vc(ps: Seq<SessionPlayer>) -> Seq<SessionPlayer>
    decreases ps.len(),
{
    if ps.len() == 0 {
        Seq::empty()
    } else if ps.last().in_vc {
        not_in_vc(ps.drop_last())
    } else {
        not_in_vc(ps.drop_last()).push(ps.last())
    }
}

/// The missing players as listed: one `  • ` line each.
pub open spec fn missing_lines(ps: Seq<SessionPlayer>, hide_elo: bool, dynamic: bool) -> Seq<char>
    decreases ps.len(),
{
    if ps.len() == 0 {
        Seq::empty()
    } else {
        missing_lines(ps.drop_last(), hide_elo, dynamic) + "  • "@ + player_line(ps.last(), hide_elo, dynamic) + "\n"@
    }
}

/// What a ready game says of its players: the join deadline when known
/// and the missing players (the first `quota` players not in the queue
/// voice channel), or that all are ready.
pub open spec fn hot_info(s: Session, quota: u8, confirm_secs: u64, p: ViewParams) -> Seq<char> {
    let n = if s.pool@.len() < quota { s.pool@.len() } else { quota as nat };
    let missing = not_in_vc(s.pool@.take(n as int));
    if missing.len() > 0 {
        let base = match s.match_ended_at_ms { Some(t) => Some(t), None => s.ready_at_ms };
        let deadline = match base {
            Some(b) => {
                let extra: u64 = if s.match_ended_at_ms is Some { p.post_game_confirm_secs as u64 } else { confirm_secs };
                "Join deadline: "@ + relative((b / 1000 + extra) as nat) + "\n"@ + "Missing players will be removed.\n\n"@
            },
            None => Seq::empty(),
        };
        deadline + "**Missing players:**\n"@ + missing_lines(missing, p.hide_elo, p.dynamic_elo)
    } else if s.pool@.len() > 0 {
        "All players ready"@
    } else {
        Seq::empty()
    }
}

/// The fields of a ready game: its label and players, then its teams and
/// those waiting beyond the quota once the pool holds the quota.
pub open spec fn ready_fields(label: Seq<char>, s: Session, concurrent: bool, quota: u8, confirm_secs: u64, p: ViewParams) -> Seq<FieldView> {
    let name = if concurrent { "Next game - Ready to start"@ } else { label + " - Ready to start"@ };
    let pool = s.pool@;
    seq![FieldView { name, value: hot_info(s, quota, confirm_secs, p), inline: false }]
        + if pool.len() >= quota {
            team_fields(pool, p.hide_elo, p.dynamic_elo) + if pool.len() > quota {
                seq![FieldView {
                    name: "Waiting for next game ("@ + dec((pool.len() - quota) as nat) + "/"@ + dec(quota as nat) + ")"@,
                    value: player_lines(pool.skip(quota as int), p.hide_elo, p.dynamic_elo),
                    inline: false,
                }]
            } else {
                Seq::empty()
            }
        } else {
            Seq::empty()
        }
}

/// The fields of the ready games among `ss`, in order.
pub open spec fn hot_fields(label: Seq<char>, ss: Seq<Session>, concurrent: bool, quota: u8, confirm_secs: u64, p: ViewParams) -> Seq<FieldView>
    decreases ss.len(),
{
    if ss.len() == 0 {
        Seq::empty()
    } else {
        hot_fields(label, ss.drop_last(), concurrent, quota, confirm_secs, p) + if ss.last().status == SessionStatus::Hot {
            ready_fields(label, ss.last(), concurrent, quota, confirm_secs, p)
        } else {
            Seq::empty()
        }
    }
}

fn push_field(fields: &mut Vec<SettingsField>, name: String, value: String, inline: bool)
    ensures
        final(fields)@.map_values(|f: SettingsField| f@) == old(fields)@.map_values(|f: SettingsField| f@)
            .push(FieldView { name: name@, value: value@, inline }),
{
    let ghost before = fields@.map_values(|f: SettingsField| f@);
    fields.push(SettingsField { name, value, inline });
    assert(fields@.map_values(|f: SettingsField| f@) =~= before.push(FieldView { name: name@, value: value@, inline }));
}

fn push_game_status(out: &mut String, s: &Session)
    ensures
        final(out)@ == old(out)@ + game_status(*s),
{
    match s.status {
        SessionStatus::Push => out.append("Moving players to team channels..."),
        SessionStatus::Live => {
            out.append("Started ");
            match s.started_at_ms {
                Some(ms) => push_relative(out, ms / 1000),
                None => out.append("recently"),
            }
        },
        SessionStatus::Pull => out.append("Moving players back to queue..."),
        _ => {},
    }
    assert(out@ =~= old(out)@ + game_status(*s));
}

fn push_game(fields: &mut Vec<SettingsField>, label: &String, s: &Session, i: u64, concurrent: bool, quota: u8, p: &ViewParams)
    requires
        i < u64::MAX,
    ensures
        final(fields)@.map_values(|f: SettingsField| f@) == old(fields)@.map_values(|f: SettingsField| f@)
            + game_fields(label@, *s, i as nat, concurrent, quota, *p),
{
    let ghost before = fields@.map_values(|f: SettingsField| f@);
    let mut name = String::new();
    if concurrent {
        name.append("Game ");
        push_dec(&mut name, i + 1);
        name.append(" - ");
    } else {
        name.append(label.as_str());
        name.append(" - ");
    }
    push_game_status(&mut name, s);
    push_field(fields, name, String::new(), false);
    let ghost mid = fields@.map_values(|f: SettingsField| f@);
    if s.pool.len() >= quota as usize {
        push_team_fields(fields, &s.pool, p.hide_elo, p.dynamic_elo);
    }
    assert(fields@.map_values(|f: SettingsField| f@) =~= before + game_fields(label@, *s, i as nat, concurrent, quota, *p));
}

proof fn lemma_count_active_le(ss: Seq<Session>)
    ensures
        count_active(ss) <= ss.len(),
        count_hot(ss) <= ss.len(),
    decreases ss.len(),
{
    if ss.len() > 0 {
        lemma_count_active_le(ss.drop_last());
    }
}

fn push_live(fields: &mut Vec<SettingsField>, label: &String, ss: &Vec<Session>, concurrent: bool, quota: u8, p: &ViewParams)
    ensures
        final(fields)@.map_values(|f: SettingsField| f@) == old(fields)@.map_values(|f: SettingsField| f@)
            + live_fields(label@, ss@, concurrent, quota, *p),
{
    let ghost start = fields@.map_values(|f: SettingsField| f@);
    let n = ss.len();
    let mut count: u64 = 0;
    let mut i: usize = 0;
    while i < n
        invariant
            n == ss@.len(),
            i <= n,
            count as nat == count_active(ss@.take(i as int)),
            fields@.map_values(|f: SettingsField| f@) == start + live_fields(label@, ss@.take(i as int), concurrent, quota, *p),
        decreases n - i,
    {
        let ghost t = ss@.take(i as int + 1);
        assert(t.drop_last() =~= ss@.take(i as int));
        assert(t.last() == ss@[i as int]);
        proof {
            lemma_count_active_le(ss@.take(i as int));
        }
        let ghost f0 = fields@.map_values(|f: SettingsField| f@);
        if ss[i].status.is_active() {
            push_game(fields, label, &ss[i], count, concurrent, quota, p);
            count = count + 1;
        }
        assert(fields@.map_values(|f: SettingsField| f@) =~= start + live_fields(label@, t, concurrent, quota, *p));
        i = i + 1;
    }
    assert(ss@.take(n as int) =~= ss@);
}

fn missing_players(pool: &Vec<SessionPlayer>, quota: u8) -> (r: Vec<SessionPlayer>)
    ensures
        r@ == not_in_vc(pool@.take((if pool@.len() < quota { pool@.len() } else { quota as nat }) as int)),
{
    let n = if pool.len() < quota as usize { pool.len() } else { quota as usize };
    let mut out: Vec<SessionPlayer> = Vec::new();
    let mut k: usize = 0;
    while k < n
        invariant
            n <= pool@.len(),
            n == (if pool@.len() < quota { pool@.len() } else { quota as nat }),
            k <= n,
            out@ == not_in_vc(pool@.take(k as int)),
        decreases n - k,
    {
        assert(pool@.take(k as int + 1).drop_last() =~= pool@.take(k as int));
        if !pool[k].in_vc {
            out.push(pool[k]);
        }
        k = k + 1;
    }
    out
}

fn push_missing_lines(out: &mut String, ps: &Vec<SessionPlayer>, hide_elo: bool, dynamic: bool)
    ensures
        final(out)@ == old(out)@ + missing_lines(ps@, hide_elo, dynamic),
{
    let ghost start = out@;
    let n = ps.len();
    let mut i: usize = 0;
    while i < n
        invariant
            n == ps@.len(),
            i <= n,
            out@ == start + missing_lines(ps@.take(i as int), hide_elo, dynamic),
        decreases n - i,
    {
        assert(ps@.take(i as int + 1).drop_last() =~= ps@.take(i as int));
        out.append("  • ");
        push_player_line(out, &ps[i], hide_elo, dynamic);
        out.append("\n");
        assert(out@ =~= start + missing_lines(ps@.take(i as int + 1), hide_elo, dynamic));
        i = i + 1;
    }
    assert(ps@.take(n as int) =~= ps@);
}

fn hot_info_text(s: &Session, quota: u8, confirm_secs: u16, p: &ViewParams) -> (r: String)
    ensures
        r@ == hot_info(*s, quota, confirm_secs as u64, *p),
{
    let missing = missing_players(&s.pool, quota);
    let mut x = String::new();
    if missing.len() > 0 {
        let base = match s.match_ended_at_ms {
            Some(t) => Some(t),
            None => s.ready_at_ms,
        };
        match base {
            Some(b) => {
                let extra: u64 = if s.match_ended_at_ms.is_some() { p.post_game_confirm_secs as u64 } else { confirm_secs as u64 };
                x.append("Join deadline: ");
                push_relative(&mut x, b / 1000 + extra);
                x.append("\n");
                x.append("Missing players will be removed.\n\n");
            },
            None => {},
        }
        x.append("**Missing players:**\n");
        push_missing_lines(&mut x, &missing, p.hide_elo, p.dynamic_elo);
    } else if s.pool.len() > 0 {
        x.append("All players ready");
    }
    assert(x@ =~= hot_info(*s, quota, confirm_secs as u64, *p));
    x
}

fn rest_of_pool(pool: &Vec<SessionPlayer>, from: usize) -> (r: Vec<SessionPlayer>)
    requires
        from <= pool@.len(),
    ensures
        r@ == pool@.skip(from as int),
{
    let n = pool.len();
    let mut out: Vec<SessionPlayer> = Vec::new();
    let mut k: usize = from;
    while k < n
        invariant
            n == pool@.len(),
            from <= k <= n,
            out@ == pool@.subrange(from as int, k as int),
        decreases n - k,
    {
        out.push(pool[k]);
        assert(out@ =~= pool@.subrange(from as int, k as int + 1));
        k = k + 1;
    }
    assert(out@ =~= pool@.skip(from as int));
    out
}

fn push_ready(fields: &mut Vec<SettingsField>, label: &String, s: &Session, concurrent: bool, quota: u8, confirm_secs: u16, p: &ViewParams)
    ensures
        final(fields)@.map_values(|f: SettingsField| f@) == old(fields)@.map_values(|f: SettingsField| f@)
            + ready_fields(label@, *s, concurrent, quota, confirm_secs as u64, *p),
{
    let ghost before = fields@.map_values(|f: SettingsField| f@);
    let name = if concurrent {
        String::from_str("Next game - Ready to start")
    } else {
        let mut x = label.clone();
        x.append(" - Ready to start");
        x
    };
    push_field(fields, name, hot_info_text(s, quota, confirm_secs, p), false);
    let n = s.pool.len();
    if n >= quota as usize {
        push_team_fields(fields, &s.pool, p.hide_elo, p.dynamic_elo);
        if n > quota as usize {
            let mut w = String::from_str("Waiting for next game (");
            push_dec(&mut w, (n - quota as usize) as u64);
            w.append("/");
            push_dec(&mut w, quota as u64);
            w.append(")");
            let rest = rest_of_pool(&s.pool, quota as usize);
            let lines = list_players(rest.as_slice(), p.hide_elo, p.dynamic_elo);
            push_field(fields, w, lines, false);
        }
    }
    assert(fields@.map_values(|f: SettingsField| f@) =~= before + ready_fields(label@, *s, concurrent, quota, confirm_secs as u64, *p));
}

fn push_hot(fields: &mut Vec<SettingsField>, label: &String, ss: &Vec<Session>, concurrent: bool, quota: u8, confirm_secs: u16, p: &ViewParams)
    ensures
        final(fields)@.map_values(|f: SettingsField| f@) == old(fields)@.map_values(|f: SettingsField| f@)
            + hot_fields(label@, ss@, concurrent, quota, confirm_secs as u64, *p),
{
    let ghost start = fields@.map_values(|f: SettingsField| f@);
    let n = ss.len();
    let mut i: usize = 0;
    while i < n
        invariant
            n == ss@.len(),
            i <= n,
            fields@.map_values(|f: SettingsField| f@) == start + hot_fields(label@, ss@.take(i as int), concurrent, quota, confirm_secs as u64, *p),
        decreases n - i,
    {
        let ghost t = ss@.take(i as int + 1);
        assert(t.drop_last() =~= ss@.take(i as int));
        assert(t.last() == ss@[i as int]);
        if ss[i].is_hot() {
            push_ready(fields, label, &ss[i], concurrent, quota, confirm_secs, p);
        }
        assert(fields@.map_values(|f: SettingsField| f@) =~= start + hot_fields(label@, t, concurrent, quota, confirm_secs as u64, *p));
        i = i + 1;
    }
    assert(ss@.take(n as int) =~= ss@);
}

/// Index of the first entry of `g[i..]` for `user` (or the length).
pub open spec fn in_game_index(g: Seq<(u64, u64, String)>, user: u64, i: int) -> int
    decreases g.len() - i,
{
    if 0 <= i < g.len() && g[i].0 != user {
        in_game_index(g, user, i + 1)
    } else {
        i
    }
}

/// The status line of a waiting player: in a game (of this guild, with
/// its format), in the queue voice channel, or when their timeout ends.
pub open spec fn status_line(pl: SessionPlayer, p: ViewParams) -> Seq<char> {
    let g = p.in_game@;
    let k = in_game_index(g, pl.user_id, 0);
    if 0 <= k < g.len() {
        if g[k].1 == p.guild_id { "In "@ + g[k].2@ + " game\n"@ } else { "In-game\n"@ }
    } else if pl.in_vc {
        "VC\n"@
    } else if pl.queue_expiration > 0 {
        "Timeout "@ + relative((pl.joined_at_ms / 1000 + pl.queue_expiration as nat * 60) as nat) + "\n"@
    } else {
        "-\n"@
    }
}

/// The status lines of the waiting players.
pub open spec fn status_lines(ps: Seq<SessionPlayer>, p: ViewParams) -> Seq<char>
    decreases ps.len(),
{
    if ps.len() == 0 { Seq::empty() } else { status_lines(ps.drop_last(), p) + status_line(ps.last(), p) }
}

/// The waiting players, one line each with a final line feed.
pub open spec fn queue_lines(ps: Seq<SessionPlayer>, hide_elo: bool, dynamic: bool) -> Seq<char>
    decreases ps.len(),
{
    if ps.len() == 0 { Seq::empty() } else { queue_lines(ps.drop_last(), hide_elo, dynamic) + player_line(ps.last(), hide_elo, dynamic) + "\n"@ }
}

/// `{label} - Idle ({n}/{quota})`.
pub open spec fn idle_label(label: Seq<char>, n: nat, quota: u8) -> Seq<char> {
    label + " - Idle ("@ + dec(n) + "/"@ + dec(quota as nat) + ")"@
}

/// The queue part of a format: the players of its first idle session, as
/// waiting for the next game when games are under way or ready, else
/// with their status; or an invitation to join when nothing happens.
pub open spec fn idle_fields(label: Seq<char>, ss: Seq<Session>, concurrent: bool, quota: u8, p: ViewParams) -> Seq<FieldView> {
    let quiet = count_active(ss) == 0 && count_hot(ss) == 0;
    let k = first_status(ss, SessionStatus::Idle, 0);
    if k < ss.len() {
        let pool = ss[k].pool@;
        if pool.len() > 0 && (concurrent || count_active(ss) > 0) {
            seq![FieldView {
                name: "Waiting for next game ("@ + dec(pool.len()) + ")"@,
                value: player_lines(pool, p.hide_elo, p.dynamic_elo),
                inline: false,
            }]
        } else if pool.len() == 0 && quiet {
            seq![FieldView { name: idle_label(label, 0, quota), value: "*Join to get started!*"@, inline: false }]
        } else if pool.len() > 0 && quiet {
            seq![
                FieldView { name: idle_label(label, pool.len(), quota), value: queue_lines(pool, p.hide_elo, p.dynamic_elo), inline: true },
                FieldView { name: "Status"@, value: status_lines(pool, p), inline: true },
            ]
        } else {
            Seq::empty()
        }
    } else if quiet {
        seq![FieldView { name: idle_label(label, 0, quota), value: "*Empty, join to get started!*"@, inline: false }]
    } else {
        Seq::empty()
    }
}

fn find_in_game(g: &Vec<(u64, u64, String)>, user: u64) -> (r: Option<usize>)
    ensures
        match r {
            Some(k) => k as int == in_game_index(g@, user, 0) && k < g@.len(),
            None => in_game_index(g@, user, 0) == g@.len(),
        },
{
    let n = g.len();
    let mut i: usize = 0;
    while i < n
        invariant
            n == g@.len(),
            i <= n,
            in_game_index(g@, user, 0) == in_game_index(g@, user, i as int),
        decreases n - i,
    {
        if g[i].0 == user {
            return Some(i);
        }
        i = i + 1;
    }
    None
}

fn push_status_line(out: &mut String, pl: &SessionPlayer, p: &ViewParams)
    ensures
        final(out)@ == old(out)@ + status_line(*pl, *p),
{
    match find_in_game(&p.in_game, pl.user_id) {
        Some(k) => {
            if p.in_game[k].1 == p.guild_id {
                out.append("In ");
                out.append(p.in_game[k].2.as_str());
                out.append(" game\n");
            } else {
                out.append("In-game\n");
            }
        },
        None => {
            if pl.in_vc {
                out.append("VC\n");
            } else if pl.queue_expiration > 0 {
                out.append("Timeout ");
                push_relative(out, pl.joined_at_ms / 1000 + pl.queue_expiration as u64 * 60);
                out.append("\n");
            } else {
                out.append("-\n");
            }
        },
    }
    assert(out@ =~= old(out)@ + status_line(*pl, *p));
}

fn queue_columns(ps: &Vec<SessionPlayer>, p: &ViewParams) -> (r: (String, String))
    ensures
        r.0@ == queue_lines(ps@, p.hide_elo, p.dynamic_elo),
        r.1@ == status_lines(ps@, *p),
{
    let n = ps.len();
    let mut a = String::new();
    let mut b = String::new();
    let mut i: usize = 0;
    while i < n
        invariant
            n == ps@.len(),
            i <= n,
            a@ == queue_lines(ps@.take(i as int), p.hide_elo, p.dynamic_elo),
            b@ == status_lines(ps@.take(i as int), *p),
        decreases n - i,
    {
        assert(ps@.take(i as int + 1).drop_last() =~= ps@.take(i as int));
        push_player_line(&mut a, &ps[i], p.hide_elo, p.dynamic_elo);
        a.append("\n");
        push_status_line(&mut b, &ps[i], p);
        assert(a@ =~= queue_lines(ps@.take(i as int + 1), p.hide_elo, p.dynamic_elo));
        assert(b@ =~= status_lines(ps@.take(i as int + 1), *p));
        i = i + 1;
    }
    assert(ps@.take(n as int) =~= ps@);
    (a, b)
}

fn idle_label_text(label: &String, n: usize, quota: u8) -> (r: String)
    ensures
        r@ == idle_label(label@, n as nat, quota),
{
    let mut x = label.clone();
    x.append(" - Idle (");
    push_dec(&mut x, n as u64);
    x.append("/");
    push_dec(&mut x, quota as u64);
    x.append(")");
    assert(x@ =~= idle_label(label@, n as nat, quota));
    x
}

fn counts(ss: &Vec<Session>) -> (r: (usize, usize))
    ensures
        r.0 as nat == count_active(ss@),
        r.1 as nat == count_hot(ss@),
{
    let n = ss.len();
    let mut a: usize = 0;
    let mut h: usize = 0;
    let mut i: usize = 0;
    while i < n
        invariant
            n == ss@.len(),
            i <= n,
            a as nat == count_active(ss@.take(i as int)),
            h as nat == count_hot(ss@.take(i as int)),
        decreases n - i,
    {
        assert(ss@.take(i as int + 1).drop_last() =~= ss@.take(i as int));
        proof {
            lemma_count_active_le(ss@.take(i as int));
        }
        if ss[i].status.is_active() {
            a = a + 1;
        }
        if ss[i].is_hot() {
            h = h + 1;
        }
        i = i + 1;
    }
    assert(ss@.take(n as int) =~= ss@);
    (a, h)
}

fn push_idle(fields: &mut Vec<SettingsField>, label: &String, ss: &Vec<Session>, concurrent: bool, quota: u8, p: &ViewParams)
    ensures
        final(fields)@.map_values(|f: SettingsField| f@) == old(fields)@.map_values(|f: SettingsField| f@)
            + idle_fields(label@, ss@, concurrent, quota, *p),
{
    let ghost before = fields@.map_values(|f: SettingsField| f@);
    let (live_n, hot_n) = counts(ss);
    let quiet = live_n == 0 && hot_n == 0;
    proof {
        lemma_first_status(ss@, SessionStatus::Idle, 0);
    }
    match find_status(ss, SessionStatus::Idle) {
        Some(k) => {
            let pool = &ss[k].pool;
            let qp = pool.len();
            if qp > 0 && (concurrent || live_n > 0) {
                let mut name = String::from_str("Waiting for next game (");
                push_dec(&mut name, qp as u64);
                name.append(")");
                push_field(fields, name, list_players(pool.as_slice(), p.hide_elo, p.dynamic_elo), false);
            } else if qp == 0 && quiet {
                push_field(fields, idle_label_text(label, 0, quota), String::from_str("*Join to get started!*"), false);
            } else if qp > 0 && quiet {
                let (a, b) = queue_columns(pool, p);
                push_field(fields, idle_label_text(label, qp, quota), a, true);
                push_field(fields, String::from_str("Status"), b, true);
            }
        },
        None => {
            if quiet {
                push_field(fields, idle_label_text(label, 0, quota), String::from_str("*Empty, join to get started!*"), false);
            }
        },
    }
    assert(fields@.map_values(|f: SettingsField| f@) =~= before + idle_fields(label@, ss@, concurrent, quota, *p));
}

/// The connect info of a format, when it is set and not blank, with the
/// Steam link made from it when one can be.
pub open spec fn connect_fields(multiple: bool, f: Format) -> Seq<FieldView> {
    match f.connect_info {
        Some(ci) => if is_blank(ci@) {
            Seq::empty()
        } else {
            let name = if multiple { f.name@ + " - Connect info:"@ } else { "Server connect info:"@ };
            let link = match spec_steam_link(ci@) {
                Some(l) => "\n**Steam Link:**\n```"@ + l + "```"@,
                None => Seq::empty(),
            };
            seq![FieldView { name, value: "```"@ + ci@ + "```"@ + link, inline: false }]
        },
        None => Seq::empty(),
    }
}

/// The fields of one format shown under `label`: its games under way, its
/// ready games, its queue, a blank separator before the next format when
/// `sep` holds, and its connect info.
pub open spec fn format_parts(label: Seq<char>, f: Format, confirm_secs: u64, multiple: bool, sep: bool, p: ViewParams) -> Seq<FieldView> {
    let ss = f.sessions@;
    let concurrent = count_active(ss) + count_hot(ss) > 1;
    let blank = if sep {
        seq![FieldView { name: "\u{200B}"@, value: Seq::empty(), inline: false }]
    } else {
        Seq::empty()
    };
    live_fields(label, ss, concurrent, f.quota, p) + hot_fields(label, ss, concurrent, f.quota, confirm_secs, p)
        + idle_fields(label, ss, concurrent, f.quota, p) + blank + connect_fields(multiple, f)
}

/// The fields of format `i` of category `c`: its games under way, its
/// ready games, its queue, a blank separator before the next format, and
/// its connect info.
pub open spec fn format_fields(c: Category, i: int, p: ViewParams) -> Seq<FieldView> {
    let f = c.formats@[i];
    let multiple = c.formats@.len() > 1;
    format_parts(fmt_label(c, f), f, c.confirm_time as u64, multiple, multiple && i < c.formats@.len() - 1, p)
}

/// The fields of the first `n` formats.
pub open spec fn all_format_fields(c: Category, n: int, p: ViewParams) -> Seq<FieldView>
    decreases n,
{
    if n <= 0 { Seq::empty() } else { all_format_fields(c, n - 1, p) + format_fields(c, n - 1, p) }
}

/// The dashboard's footer at `now` (milliseconds): the last runner action,
/// when it was less than ten minutes ago.
pub open spec fn footer_spec(c: Category, now: u64) -> Option<Seq<char>> {
    match c.last_action {
        Some((tag, desc, ts)) => if now >= ts && (now - ts) / 1000 < 600 { Some(tag@ + " "@ + desc@) } else { None },
        None => None,
    }
}

/// The name a category is shown under: its own, or `Category {id}`.
pub open spec fn category_name_spec(c: Category) -> Seq<char> {
    match c.name {
        Some(n) => n@,
        None => "Category "@ + dec(c.id as nat),
    }
}

/// The dashboard: a title, fields, an optional footer, and the button
/// rows.
pub struct DashboardContent {
    pub title: String,
    pub fields: Vec<SettingsField>,
    pub footer: Option<String>,
    pub rows: Vec<SettingsRow>,
}

fn push_connect(fields: &mut Vec<SettingsField>, multiple: bool, f: &Format)
    ensures
        final(fields)@.map_values(|x: SettingsField| x@) == old(fields)@.map_values(|x: SettingsField| x@)
            + connect_fields(multiple, *f),
{
    let ghost before = fields@.map_values(|x: SettingsField| x@);
    match &f.connect_info {
        Some(ci) => {
            if !blank(ci.as_str()) {
                let name = if multiple {
                    let mut x = f.name.clone();
                    x.append(" - Connect info:");
                    x
                } else {
                    String::from_str("Server connect info:")
                };
                let mut value = String::from_str("```");
                value.append(ci.as_str());
                value.append("```");
                let ghost v0 = value@;
                match extract_steam_link(ci.as_str()) {
                    Some(l) => {
                        value.append("\n**Steam Link:**\n```");
                        value.append(l.as_str());
                        value.append("```");
                    },
                    None => {},
                }
                assert(value@ =~= "```"@ + ci@ + "```"@ + match spec_steam_link(ci@) {
                    Some(l) => "\n**Steam Link:**\n```"@ + l + "```"@,
                    None => Seq::empty(),
                });
                push_field(fields, name, value, false);
            }
        },
        None => {},
    }
    assert(fields@.map_values(|x: SettingsField| x@) =~= before + connect_fields(multiple, *f));
}

#[verifier::spinoff_prover]
#[verifier::rlimit(40)]
fn push_format_parts(fields: &mut Vec<SettingsField>, label: &String, f: &Format, confirm_secs: u16, multiple: bool, sep: bool, p: &ViewParams)
    ensures
        final(fields)@.map_values(|x: SettingsField| x@) == old(fields)@.map_values(|x: SettingsField| x@)
            + format_parts(label@, *f, confirm_secs as u64, multiple, sep, *p),
{
    let ghost before = fields@.map_values(|x: SettingsField| x@);
    let ss = &f.sessions;
    let (a, h) = counts(ss);
    let concurrent = (a as u128) + (h as u128) > 1;
    let ghost lf = live_fields(label@, ss@, concurrent, f.quota, *p);
    let ghost hf = hot_fields(label@, ss@, concurrent, f.quota, confirm_secs as u64, *p);
    let ghost idf = idle_fields(label@, ss@, concurrent, f.quota, *p);
    let ghost cf = connect_fields(multiple, *f);
    let ghost blank = if sep {
        seq![FieldView { name: "\u{200B}"@, value: Seq::empty(), inline: false }]
    } else {
        Seq::<FieldView>::empty()
    };
    push_live(fields, label, ss, concurrent, f.quota, p);
    assert(fields@.map_values(|x: SettingsField| x@) == before + lf);
    push_hot(fields, label, ss, concurrent, f.quota, confirm_secs, p);
    assert(fields@.map_values(|x: SettingsField| x@) == before + lf + hf);
    push_idle(fields, label, ss, concurrent, f.quota, p);
    let ghost g3 = fields@.map_values(|x: SettingsField| x@);
    assert(g3 == before + lf + hf + idf);
    if sep {
        push_field(fields, String::from_str("\u{200B}"), String::new(), false);
    }
    let ghost g4 = fields@.map_values(|x: SettingsField| x@);
    assert(g4 == g3 + blank);
    push_connect(fields, multiple, f);
    assert(fields@.map_values(|x: SettingsField| x@) =~= before + (lf + hf + idf + blank + cf));
}

impl Category {
    /// The name the category is shown under.
    pub fn name(&self) -> (r: String)
        ensures
            r@ == category_name_spec(*self),
    {
        match &self.name {
            Some(n) => n.clone(),
            None => {
                let mut x = String::from_str("Category ");
                push_dec(&mut x, self.id as u64);
                x
            },
        }
    }

    fn push_format_fields(&self, fields: &mut Vec<SettingsField>, i: usize, p: &ViewParams)
        requires
            i < self.formats@.len(),
        ensures
            final(fields)@.map_values(|x: SettingsField| x@) == old(fields)@.map_values(|x: SettingsField| x@)
                + format_fields(*self, i as int, *p),
    {
        let f = &self.formats[i];
        let multiple = self.formats.len() > 1;
        let label = if multiple {
            let mut x = f.name.clone();
            x.append(" queue");
            x
        } else {
            String::from_str("Queue")
        };
        assert(label@ == fmt_label(*self, self.formats@[i as int]));
        let sep = multiple && i < self.formats.len() - 1;
        push_format_parts(fields, &label, f, self.confirm_time, multiple, sep, p);
    }

    /// What the dashboard shows at `now` (milliseconds): the category's
    /// name, each format's games, ready games, queue and connect info, and
    /// the last runner action when recent, and the dashboard's buttons.
    pub fn build_dashboard_content(&self, p: &ViewParams, now: u64) -> (r: DashboardContent)
        ensures
            r.rows@.map_values(|x: SettingsRow| x@) == dashboard_rows(*self, now),
            r.title@ == category_name_spec(*self),
            r.fields@.map_values(|x: SettingsField| x@) == all_format_fields(*self, self.formats@.len() as int, *p),
            match r.footer {
                Some(t) => footer_spec(*self, now) == Some(t@),
                None => footer_spec(*self, now) is None,
            },
    {
        let n = self.formats.len();
        let mut fields: Vec<SettingsField> = Vec::new();
        let mut i: usize = 0;
        assert(fields@.map_values(|x: SettingsField| x@) =~= all_format_fields(*self, 0, *p));
        while i < n
            invariant
                n == self.formats@.len(),
                i <= n,
                fields@.map_values(|x: SettingsField| x@) == all_format_fields(*self, i as int, *p),
            decreases n - i,
        {
            self.push_format_fields(&mut fields, i, p);
            i = i + 1;
        }
        let footer = match &self.last_action {
            Some((tag, desc, ts)) => {
                if now >= *ts && (now - *ts) / 1000 < 600 {
                    let mut x = tag.clone();
                    x.append(" ");
                    x.append(desc.as_str());
                    Some(x)
                } else {
                    None
                }
            },
            None => None,
        };
        let rows = self.create_dashboard_buttons(now);
        DashboardContent { title: self.name(), fields, footer, rows }
    }
}

} // verus!
