//! The parts of the server configuration pages that are computed from
//! stored settings: the toggle rows of the ELO and voice pages, the ping
//! permission toggle, the role selects, and the category selector.

use vstd::prelude::*;
use vstd::string::*;
use crate::text::{dec, push_dec, has_prefix, str_eq, starts_with};
use crate::parse::{parse_u64_spec, parse_u64};
use crate::menu_system::{contains_sub, contains_str};
use crate::settings::{btn, ButtonView, SettingsButton, SettingsButtonStyle, SettingsRow, RowView};
use crate::settings_pages::{server_toggles, server_config_toggles, toggle_view, ConfigToggle};
use crate::category::Category;
use crate::dashboard_view::category_name_spec;

verus! {

/// A configuration page that shows a row of toggles.
#[derive(Debug, Clone, Copy, PartialEq, Eq, Structural)]
pub enum TogglePage {
    /// The ELO page: the toggles whose column names ELO
    Elo,
    /// The voice page: the default voice toggles and post-game auto-leave
    Vc,
}

/// Whether the toggle of column `col` is shown on `page`.
pub open spec fn on_page(page: TogglePage, col: Seq<char>) -> bool {
    match page {
        TogglePage::Elo => contains_sub(col, "elo"@),
        TogglePage::Vc => has_prefix(col, "default_vc_"@) || col == "post_game_auto_leave"@,
    }
}

/// The indices, among the first `n` toggles of `ts`, of those shown on
/// `page`, in order.
pub open spec fn shown_indices(page: TogglePage, ts: Seq<(Seq<char>, Seq<char>, Seq<char>, Seq<char>, bool)>, n: int) -> Seq<usize>
    decreases n,
{
    if n <= 0 {
        Seq::empty()
    } else if on_page(page, ts[n - 1].0) {
        shown_indices(page, ts, n - 1).push((n - 1) as usize)
    } else {
        shown_indices(page, ts, n - 1)
    }
}

/// The server configuration toggles shown on `page`: their indices in
/// `server_config_toggles()`, whose stored values the page reads.
pub fn page_toggles(page: TogglePage) -> (r: Vec<usize>)
    ensures
        r@ == shown_indices(page, server_toggles(), server_toggles().len() as int),
{
    let ts = server_config_toggles();
    let ghost tv = ts@.map_values(|t: ConfigToggle| toggle_view(t));
    let n = ts.len();
    let mut out: Vec<usize> = Vec::new();
    let mut i: usize = 0;
    while i < n
        invariant
            n == ts@.len(),
            tv == ts@.map_values(|t: ConfigToggle| toggle_view(t)),
            tv == server_toggles(),
            i <= n,
            out@ == shown_indices(page, server_toggles(), i as int),
        decreases n - i,
    {
        let col = ts[i].column;
        assert(tv[i as int].0 == col@);
        let shown = match page {
            TogglePage::Elo => contains_str(col, "elo"),
            TogglePage::Vc => starts_with(col, "default_vc_") || str_eq(col, "post_game_auto_leave"),
        };
        if shown {
            out.push(i);
        }
        i = i + 1;
    }
    out
}

/// The state a toggle shows from its stored value: the hidden-ELO column
/// is shown inverted on the ELO page ("ELO is visible" when not hidden).
pub open spec fn shown_state(page: TogglePage, col: Seq<char>, stored: bool) -> bool {
    if page == TogglePage::Elo && col == "hide_elo"@ { !stored } else { stored }
}

/// A toggle's button: its "on" label in green when its state is on, else
/// its "off" label in grey.
pub open spec fn toggle_button_spec(page: TogglePage, t: (Seq<char>, Seq<char>, Seq<char>, Seq<char>, bool), stored: bool) -> ButtonView {
    let on = shown_state(page, t.0, stored);
    btn(t.1, if on { t.2 } else { t.3 }, if on { SettingsButtonStyle::Success } else { SettingsButtonStyle::Secondary })
}

/// The toggle row of `page`, from the stored values of its toggles in the
/// order `page_toggles` gives them.
pub fn page_toggle_buttons(page: TogglePage, stored: &Vec<bool>) -> (r: Vec<SettingsButton>)
    requires
        stored@.len() == shown_indices(page, server_toggles(), server_toggles().len() as int).len(),
    ensures
        r@.len() == stored@.len(),
        forall|k: int| 0 <= k < r@.len() ==> (#[trigger] r@[k])@ == toggle_button_spec(
            page,
            server_toggles()[shown_indices(page, server_toggles(), server_toggles().len() as int)[k] as int],
            stored@[k],
        ),
{
    let idx = page_toggles(page);
    let ts = server_config_toggles();
    let ghost tv = ts@.map_values(|t: ConfigToggle| toggle_view(t));
    let ghost shown = shown_indices(page, server_toggles(), server_toggles().len() as int);
    proof {
        lemma_shown_below(page, server_toggles(), server_toggles().len() as int);
    }
    let n = idx.len();
    let mut out: Vec<SettingsButton> = Vec::new();
    let mut k: usize = 0;
    while k < n
        invariant
            n == idx@.len(),
            idx@ == shown,
            n == stored@.len(),
            tv == ts@.map_values(|t: ConfigToggle| toggle_view(t)),
            tv == server_toggles(),
            forall|j: int| 0 <= j < shown.len() ==> #[trigger] shown[j] < server_toggles().len(),
            k <= n,
            out@.len() == k,
            forall|j: int| 0 <= j < k ==> (#[trigger] out@[j])@ == toggle_button_spec(page, server_toggles()[shown[j] as int], stored@[j]),
        decreases n - k,
    {
        let i = idx[k];
        assert(shown[k as int] == i);
        let t = &ts[i];
        assert(tv[i as int] == toggle_view(*t));
        let hide = str_eq(t.column, "hide_elo");
        let on = match page {
            TogglePage::Elo => if hide { !stored[k] } else { stored[k] },
            TogglePage::Vc => stored[k],
        };
        let label = if on { t.label_on } else { t.label_off };
        let style = if on { SettingsButtonStyle::Success } else { SettingsButtonStyle::Secondary };
        out.push(SettingsButton::action(String::from_str(t.button_id), String::from_str(label), style));
        k = k + 1;
    }
    out
}

proof fn lemma_shown_below(page: TogglePage, ts: Seq<(Seq<char>, Seq<char>, Seq<char>, Seq<char>, bool)>, n: int)
    requires
        0 <= n <= ts.len(),
        n <= usize::MAX,
    ensures
        forall|j: int| 0 <= j < shown_indices(page, ts, n).len() ==> #[trigger] shown_indices(page, ts, n)[j] < n,
    decreases n,
{
    if n > 0 {
        lemma_shown_below(page, ts, n - 1);
        let prev = shown_indices(page, ts, n - 1);
        if on_page(page, ts[n - 1].0) {
            assert(shown_indices(page, ts, n) == prev.push((n - 1) as usize));
        }
    }
}

/// Puts `x` just before the last element of `v` (the page's Back row), or
/// at the end when `v` is empty.
pub fn insert_before_last<T>(v: &mut Vec<T>, x: T)
    ensures
        old(v)@.len() > 0 ==> final(v)@ == old(v)@.insert(old(v)@.len() - 1, x),
        old(v)@.len() == 0 ==> final(v)@ == seq![x],
{
    let n = v.len();
    if n > 0 {
        v.insert(n - 1, x);
    } else {
        v.push(x);
        assert(v@ =~= seq![x]);
    }
}

/// The toggle of who may ping: everyone (green) or only runners (grey).
pub open spec fn ping_users_spec(enabled: bool) -> ButtonView {
    if enabled {
        btn("server_cfg_ping_users_enabled"@, "Users can ping"@, SettingsButtonStyle::Success)
    } else {
        btn("server_cfg_ping_users_enabled"@, "Only runners can ping"@, SettingsButtonStyle::Secondary)
    }
}

/// The toggle of who may ping.
pub fn ping_users_button(enabled: bool) -> (r: SettingsButton)
    ensures
        r@ == ping_users_spec(enabled),
{
    let id = String::from_str("server_cfg_ping_users_enabled");
    if enabled {
        SettingsButton::action(id, String::from_str("Users can ping"), SettingsButtonStyle::Success)
    } else {
        SettingsButton::action(id, String::from_str("Only runners can ping"), SettingsButtonStyle::Secondary)
    }
}

/// The role a stored role setting preselects: the setting read as a
/// number, none when unset or unreadable.
pub open spec fn role_default_spec(s: Option<Seq<char>>) -> Option<u64> {
    match s {
        Some(t) => parse_u64_spec(t),
        None => None,
    }
}

/// The role a stored role setting preselects.
pub fn role_default(s: &Option<String>) -> (r: Option<u64>)
    ensures
        r == role_default_spec(match s { Some(t) => Some(t@), None => None }),
{
    match s {
        Some(t) => parse_u64(t.as_str()),
        None => None,
    }
}

/// The role selects of the roles page: runner, admin and ping role, each
/// preselecting the stored role.
pub open spec fn role_rows_spec(runner: Option<Seq<char>>, admin: Option<Seq<char>>, ping: Option<Seq<char>>) -> Seq<RowView> {
    seq![
        RowView::RoleSelect { id: "guild_config_runner_role"@, placeholder: "Select runner role"@, default: role_default_spec(runner) },
        RowView::RoleSelect { id: "guild_config_admin_role"@, placeholder: "Select admin role"@, default: role_default_spec(admin) },
        RowView::RoleSelect {
            id: "guild_config_ping_role"@,
            placeholder: "Select ping role (empty for @here)"@,
            default: role_default_spec(ping),
        },
    ]
}

/// An optional string as characters.
pub open spec fn opt_chars(s: Option<String>) -> Option<Seq<char>> {
    match s {
        Some(t) => Some(t@),
        None => None,
    }
}

/// The role selects of the roles page.
pub fn role_rows(runner: &Option<String>, admin: &Option<String>, ping: &Option<String>) -> (r: Vec<SettingsRow>)
    ensures
        r@.map_values(|x: SettingsRow| x@) == role_rows_spec(opt_chars(*runner), opt_chars(*admin), opt_chars(*ping)),
{
    let a = SettingsRow::RoleSelect {
        id: String::from_str("guild_config_runner_role"),
        placeholder: String::from_str("Select runner role"),
        default: role_default(runner),
    };
    let b = SettingsRow::RoleSelect {
        id: String::from_str("guild_config_admin_role"),
        placeholder: String::from_str("Select admin role"),
        default: role_default(admin),
    };
    let c = SettingsRow::RoleSelect {
        id: String::from_str("guild_config_ping_role"),
        placeholder: String::from_str("Select ping role (empty for @here)"),
        default: role_default(ping),
    };
    let v = vec![a, b, c];
    assert(v@.map_values(|x: SettingsRow| x@) =~= role_rows_spec(opt_chars(*runner), opt_chars(*admin), opt_chars(*ping)));
    v
}

/// A channel setting as the general page shows it: a mention, or `Not
/// configured`.
pub open spec fn channel_text(c: Option<u64>) -> Seq<char> {
    match c {
        Some(id) => "<#"@ + dec(id as nat) + ">"@,
        None => "Not configured"@,
    }
}

/// The values of the general configuration page, (name, value) in order.
pub open spec fn general_data_spec(post_game: u16, user_cd: u64, runner_cd: u64, system_channel: Option<u64>, community_channel: Option<u64>) -> Seq<(Seq<char>, Seq<char>)> {
    seq![
        ("Post-game confirm time"@, dec(post_game as nat) + " seconds"@),
        ("Ping user cooldown"@, dec(user_cd as nat) + " minutes"@),
        ("Ping runner cooldown"@, dec(runner_cd as nat) + " minutes"@),
        ("System message channel"@, channel_text(system_channel)),
        ("Community updates channel"@, channel_text(community_channel)),
    ]
}

fn number_with(n: u64, unit: &str) -> (r: String)
    ensures
        r@ == dec(n as nat) + unit@,
{
    let mut s = String::new();
    push_dec(&mut s, n);
    s.append(unit);
    s
}

fn channel_string(c: Option<u64>) -> (r: String)
    ensures
        r@ == channel_text(c),
{
    match c {
        Some(id) => {
            let mut s = String::from_str("<#");
            push_dec(&mut s, id);
            s.append(">");
            s
        },
        None => String::from_str("Not configured"),
    }
}

/// The values of the general configuration page.
pub fn general_config_data(post_game: u16, user_cd: u64, runner_cd: u64, system_channel: Option<u64>, community_channel: Option<u64>) -> (r: Vec<(String, String)>)
    ensures
        r@.map_values(|o: (String, String)| (o.0@, o.1@)) == general_data_spec(post_game, user_cd, runner_cd, system_channel, community_channel),
{
    let v = vec![
        (String::from_str("Post-game confirm time"), number_with(post_game as u64, " seconds")),
        (String::from_str("Ping user cooldown"), number_with(user_cd, " minutes")),
        (String::from_str("Ping runner cooldown"), number_with(runner_cd, " minutes")),
        (String::from_str("System message channel"), channel_string(system_channel)),
        (String::from_str("Community updates channel"), channel_string(community_channel)),
    ];
    assert(v@.map_values(|o: (String, String)| (o.0@, o.1@)) =~= general_data_spec(post_game, user_cd, runner_cd, system_channel, community_channel));
    v
}

/// The options of the category selector: each category's shown name,
/// valued with its id.
pub open spec fn selector_options_spec(cs: Seq<Category>) -> Seq<(Seq<char>, Seq<char>)> {
    cs.map_values(|c: Category| (category_name_spec(c), dec(c.id as nat)))
}

/// The options of the category selector.
pub fn category_selector_options(categories: &Vec<Category>) -> (r: Vec<(String, String)>)
    ensures
        r@.map_values(|o: (String, String)| (o.0@, o.1@)) == selector_options_spec(categories@),
{
    let n = categories.len();
    let mut out: Vec<(String, String)> = Vec::new();
    let mut i: usize = 0;
    while i < n
        invariant
            n == categories@.len(),
            i <= n,
            out@.map_values(|o: (String, String)| (o.0@, o.1@)) == selector_options_spec(categories@.take(i as int)),
        decreases n - i,
    {
        let c = &categories[i];
        let ghost before = out@.map_values(|o: (String, String)| (o.0@, o.1@));
        let mut value = String::new();
        push_dec(&mut value, c.id as u64);
        out.push((c.name(), value));
        assert(categories@.take(i as int + 1) =~= categories@.take(i as int).push(*c));
        assert(out@.map_values(|o: (String, String)| (o.0@, o.1@)) =~= before.push((category_name_spec(*c), dec(c.id as nat))));
        i = i + 1;
    }
    assert(categories@.take(n as int) =~= categories@);
    out
}

} // verus!
