//! A player's own preferences: the queue timeout choices and the per-server
//! ping notification toggle.

use vstd::prelude::*;
use vstd::string::*;
use crate::text::{str_eq, has_prefix, starts_with, dec, push_dec};
use crate::parse::{split_spec, split_on};

use crate::settings::{btn, ButtonView, RowView, SettingsButton, SettingsButtonStyle, SettingsRow};

verus! {

/// A queue timeout choice of the preferences.
#[derive(Debug, Clone, Copy, PartialEq, Eq, Structural)]
pub enum TimeoutChoice {
    /// Back to the queue settings, nothing changed
    Cancel,
    /// The new timeout, in minutes
    Minutes(u16),
}

/// The choice a `settings_queue_expiration:{t}` button makes: `cancel`, or
/// 30 minutes or 1 to 4 hours; anything else (or no `t`) is 30 minutes.
pub open spec fn timeout_choice_spec(id: Seq<char>) -> TimeoutChoice {
    let ps = split_spec(id, ':');
    let t = if ps.len() > 1 { ps[1] } else { "30m"@ };
    if t == "cancel"@ {
        TimeoutChoice::Cancel
    } else if t == "1h"@ {
        TimeoutChoice::Minutes(60)
    } else if t == "2h"@ {
        TimeoutChoice::Minutes(120)
    } else if t == "3h"@ {
        TimeoutChoice::Minutes(180)
    } else if t == "4h"@ {
        TimeoutChoice::Minutes(240)
    } else {
        TimeoutChoice::Minutes(30)
    }
}

/// The choice a queue timeout button makes.
pub fn timeout_choice(id: &str) -> (r: TimeoutChoice)
    ensures
        r == timeout_choice_spec(id@),
{
    let parts = split_on(id, ':');
    let ghost pv = parts@.map_values(|x: String| x@);
    assert(pv.len() == parts@.len());
    let t: &str = if parts.len() > 1 {
        assert(pv[1] == parts@[1]@);
        parts[1].as_str()
    } else {
        "30m"
    };
    if str_eq(t, "cancel") {
        TimeoutChoice::Cancel
    } else if str_eq(t, "1h") {
        TimeoutChoice::Minutes(60)
    } else if str_eq(t, "2h") {
        TimeoutChoice::Minutes(120)
    } else if str_eq(t, "3h") {
        TimeoutChoice::Minutes(180)
    } else if str_eq(t, "4h") {
        TimeoutChoice::Minutes(240)
    } else {
        TimeoutChoice::Minutes(30)
    }
}

/// The ping preference after a toggle: on when it was off or never set,
/// off when it was on.
pub open spec fn toggle_ping_spec(current: Option<bool>) -> bool {
    match current {
        Some(true) => false,
        _ => true,
    }
}

/// The ping preference after a toggle.
pub fn toggle_ping(current: Option<bool>) -> (r: bool)
    ensures
        r == toggle_ping_spec(current),
{
    match current {
        Some(true) => false,
        _ => true,
    }
}

/// What to do with the ping role once the preference is `enabled`, given
/// whether the member has the role.
#[derive(Debug, Clone, Copy, PartialEq, Eq, Structural)]
pub enum RoleChange {
    Add,
    Remove,
    Keep,
}

/// The ping role follows the preference: added when enabled and missing,
/// removed when disabled and held.
pub open spec fn role_change_spec(enabled: bool, has_role: bool) -> RoleChange {
    if enabled && !has_role {
        RoleChange::Add
    } else if !enabled && has_role {
        RoleChange::Remove
    } else {
        RoleChange::Keep
    }
}

/// What to do with the ping role.
pub fn ping_role_change(enabled: bool, has_role: bool) -> (r: RoleChange)
    ensures
        r == role_change_spec(enabled, has_role),
{
    if enabled && !has_role {
        RoleChange::Add
    } else if !enabled && has_role {
        RoleChange::Remove
    } else {
        RoleChange::Keep
    }
}

/// The ping toggle as shown for a preference: whether it shows as enabled
/// (green), and its label.
pub open spec fn ping_button_spec(pref: Option<bool>) -> (bool, Seq<char>) {
    match pref {
        Some(true) => (true, "Ping notifications enabled"@),
        Some(false) => (false, "Ping notifications disabled"@),
        None => (true, "Enable ping notifications"@),
    }
}

/// The ping toggle as shown for a preference.
pub fn ping_button(pref: Option<bool>) -> (r: (bool, &'static str))
    ensures
        (r.0, r.1@) == ping_button_spec(pref),
{
    match pref {
        Some(true) => (true, "Ping notifications enabled"),
        Some(false) => (false, "Ping notifications disabled"),
        None => (true, "Enable ping notifications"),
    }
}

/// The id of the ping toggle of a server: `settings_toggle_ping_notification_{guild}`.
pub fn ping_toggle_id(guild_id: u64) -> (r: String)
    ensures
        r@ == "settings_toggle_ping_notification_"@ + dec(guild_id as nat),
{
    let mut x = String::from_str("settings_toggle_ping_notification_");
    push_dec(&mut x, guild_id);
    x
}

/// The rows of the ping settings page: the ping notification toggle (green
/// when on, grey when off or unset; disabled outside a server), then the
/// Back button.
pub open spec fn ping_rows_spec(in_guild: bool, enabled: Option<bool>) -> Seq<RowView> {
    let toggle = if in_guild {
        btn("settings_ping_notifications"@, "Ping notifications"@,
            if enabled == Some(true) { SettingsButtonStyle::Success } else { SettingsButtonStyle::Secondary })
    } else {
        ButtonView { id: "settings_ping_notifications"@, label: "Ping notifications"@, style: SettingsButtonStyle::Secondary, disabled: true }
    };
    seq![
        RowView::Buttons(seq![toggle]),
        RowView::Buttons(seq![btn("user_prefs_ping_back"@, "Back"@, SettingsButtonStyle::Secondary)]),
    ]
}

/// The rows of the ping settings page.
pub fn ping_settings_rows(in_guild: bool, enabled: Option<bool>) -> (r: Vec<SettingsRow>)
    ensures
        r@.map_values(|x: SettingsRow| x@) == ping_rows_spec(in_guild, enabled),
{
    let toggle = if in_guild {
        let style = match enabled {
            Some(true) => SettingsButtonStyle::Success,
            _ => SettingsButtonStyle::Secondary,
        };
        SettingsButton::action(String::from_str("settings_ping_notifications"), String::from_str("Ping notifications"), style)
    } else {
        SettingsButton::action(String::from_str("settings_ping_notifications"), String::from_str("Ping notifications"), SettingsButtonStyle::Secondary)
            .disabled(true)
    };
    let back = SettingsButton::action(String::from_str("user_prefs_ping_back"), String::from_str("Back"), SettingsButtonStyle::Secondary);
    let a = vec![toggle];
    let b = vec![back];
    assert(crate::settings::buttons_view(a@) =~= seq![a@[0]@]);
    assert(crate::settings::buttons_view(b@) =~= seq![b@[0]@]);
    let v = vec![SettingsRow::Buttons(a), SettingsRow::Buttons(b)];
    assert(v@.map_values(|x: SettingsRow| x@) =~= ping_rows_spec(in_guild, enabled));
    v
}

/// The server's ping toggle added to the fourth row of the preference
/// buttons: on (green, "Pings enabled") unless turned off (red, "Pings
/// disabled").
pub open spec fn server_ping_button(enabled: Option<bool>) -> ButtonView {
    if enabled == Some(false) {
        btn("settings_ping_notifications"@, "Pings disabled"@, SettingsButtonStyle::Danger)
    } else {
        btn("settings_ping_notifications"@, "Pings enabled"@, SettingsButtonStyle::Success)
    }
}

/// Adds the server's ping toggle to the fourth row of the preference
/// buttons, when that row is a row of buttons.
pub fn add_server_ping_button(rows: &mut Vec<SettingsRow>, enabled: Option<bool>)
    ensures
        final(rows)@.len() == old(rows)@.len(),
        forall|k: int| 0 <= k < old(rows)@.len() && k != 3 ==> #[trigger] final(rows)@[k]@ == old(rows)@[k]@,
        old(rows)@.len() > 3 ==> final(rows)@[3]@ == (match old(rows)@[3]@ {
            RowView::Buttons(bs) => RowView::Buttons(bs.push(server_ping_button(enabled))),
            other => other,
        }),
{
    if rows.len() > 3 {
        let on = match enabled {
            Some(false) => false,
            _ => true,
        };
        let b = if on {
            SettingsButton::action(String::from_str("settings_ping_notifications"), String::from_str("Pings enabled"), SettingsButtonStyle::Success)
        } else {
            SettingsButton::action(String::from_str("settings_ping_notifications"), String::from_str("Pings disabled"), SettingsButtonStyle::Danger)
        };
        match &mut rows[3] {
            SettingsRow::Buttons(bs) => {
                let ghost before = *bs;
                bs.push(b);
                assert(crate::settings::buttons_view(bs@) =~= crate::settings::buttons_view(before@).push(b@));
            },
            _ => {},
        }
    }
}

} // verus!
