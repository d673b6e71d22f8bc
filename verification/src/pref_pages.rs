//! A user's preference pages filled in from their stored preferences: the
//! computed fields and toggle rows of the preference menus, the embed and
//! rows of each menu page, the compact preferences page, and what a button
//! of these pages asks for.

use vstd::prelude::*;
use crate::text::str_eq;
use crate::alerts::join_with;
use crate::menu_system::chunks5;
use crate::settings::{
    btn, buttons_view, queue_timeout_text, timeout_text, ButtonView, FieldView, RowView, SettingsButton,
    SettingsButtonStyle, SettingsField, SettingsMenu, SettingsRow, state_style, toggle_label,
};
use crate::settings_pages::AsSettingsMenu;
use crate::unified_menu::{ButtonType, DynamicComponent, DynamicField, MenuButton, MenuView, button_view, menu_view};
use crate::user_prefs::{
    UserPrefsMenuSystem, UserPrefsPage, page_index, user_prefs_table, navigation_spec, get_user_prefs_navigation_info,
    back_button_id_spec,
};
use crate::prefs::{TimeoutChoice, timeout_choice, timeout_choice_spec};
use crate::text::{has_prefix, starts_with};
use crate::parse::{parse_u64, parse_u64_spec};
use crate::category_buttons::after;

verus! {

/// The stored preferences of a user that the pages show.
pub struct UserPreferences {
    /// Minutes before the user is taken out of a queue they wait in
    pub queue_expiration: u8,
    /// Whether the user gets a direct message when a game is ready
    pub pm_hot_alert: bool,
    pub vc_auto_join: bool,
    pub vc_auto_leave: bool,
    pub vc_leave_queue: bool,
    pub join_alert_color: u32,
}

/// The value of a computed field.
pub open spec fn field_value(f: DynamicField, p: UserPreferences) -> Seq<char> {
    match f {
        DynamicField::QueueTimeout => timeout_text(p.queue_expiration as u64),
    }
}

/// A row holding one toggle: green when on, red when off.
pub open spec fn toggle_row(id: Seq<char>, label: Seq<char>, on: bool) -> RowView {
    RowView::Buttons(seq![btn(id, label, if on { SettingsButtonStyle::Success } else { SettingsButtonStyle::Danger })])
}

/// The row a computed component shows for preferences `p`.
pub open spec fn component_row(c: DynamicComponent, p: UserPreferences) -> RowView {
    match c {
        DynamicComponent::DmToggle => toggle_row("settings_toggle_dm"@, "DM Alerts"@, p.pm_hot_alert),
        DynamicComponent::VcAutoJoin => toggle_row("settings_vc_auto_join"@, "VC Auto-join"@, p.vc_auto_join),
        DynamicComponent::VcAutoLeave => toggle_row("settings_vc_auto_leave"@, "VC Auto-leave"@, p.vc_auto_leave),
        DynamicComponent::VcLeaveQueue => toggle_row(
            "settings_vc_leave_queue"@,
            "Leave Queue on VC Disconnect"@,
            p.vc_leave_queue,
        ),
        DynamicComponent::QueueTimeoutButtons => RowView::Buttons(seq![
            btn("settings_queue_expiration:30m"@, "30 minutes"@, SettingsButtonStyle::Primary),
            btn("settings_queue_expiration:1h"@, "1 hour"@, SettingsButtonStyle::Primary),
            btn("settings_queue_expiration:2h"@, "2 hours"@, SettingsButtonStyle::Primary),
        ]),
        DynamicComponent::QueueTimeoutCancel => RowView::Buttons(seq![
            btn("settings_queue_expiration:3h"@, "3 hours"@, SettingsButtonStyle::Primary),
            btn("settings_queue_expiration:4h"@, "4 hours"@, SettingsButtonStyle::Primary),
            btn("settings_queue_expiration:cancel"@, "Cancel"@, SettingsButtonStyle::Secondary),
        ]),
    }
}

fn s(lit: &str) -> (r: String)
    ensures
        r@ == lit@,
{
    String::from_str(lit)
}

fn toggle_component(id: &str, label: &str, on: bool) -> (r: SettingsRow)
    ensures
        r@ == toggle_row(id@, label@, on),
{
    let style = if on { SettingsButtonStyle::Success } else { SettingsButtonStyle::Danger };
    let bs = vec![SettingsButton::action(s(id), s(label), style)];
    assert(buttons_view(bs@) =~= seq![btn(id@, label@, if on { SettingsButtonStyle::Success } else { SettingsButtonStyle::Danger })]);
    SettingsRow::Buttons(bs)
}

fn three_choices(a: (&str, &str), b: (&str, &str), c: (&str, &str), last: SettingsButtonStyle) -> (r: SettingsRow)
    ensures
        r@ == RowView::Buttons(seq![
            btn(a.0@, a.1@, SettingsButtonStyle::Primary),
            btn(b.0@, b.1@, SettingsButtonStyle::Primary),
            btn(c.0@, c.1@, last),
        ]),
{
    let bs = vec![
        SettingsButton::action(s(a.0), s(a.1), SettingsButtonStyle::Primary),
        SettingsButton::action(s(b.0), s(b.1), SettingsButtonStyle::Primary),
        SettingsButton::action(s(c.0), s(c.1), last),
    ];
    assert(buttons_view(bs@) =~= seq![
        btn(a.0@, a.1@, SettingsButtonStyle::Primary),
        btn(b.0@, b.1@, SettingsButtonStyle::Primary),
        btn(c.0@, c.1@, last),
    ]);
    SettingsRow::Buttons(bs)
}

/// The DM alerts toggle.
pub fn dm_toggle_component(prefs: &UserPreferences) -> (r: Option<SettingsRow>)
    ensures
        r is Some,
        r.unwrap()@ == component_row(DynamicComponent::DmToggle, *prefs),
{
    Some(toggle_component("settings_toggle_dm", "DM Alerts", prefs.pm_hot_alert))
}

/// The voice auto-join toggle.
pub fn vc_auto_join_component(prefs: &UserPreferences) -> (r: Option<SettingsRow>)
    ensures
        r is Some,
        r.unwrap()@ == component_row(DynamicComponent::VcAutoJoin, *prefs),
{
    Some(toggle_component("settings_vc_auto_join", "VC Auto-join", prefs.vc_auto_join))
}

/// The voice auto-leave toggle.
pub fn vc_auto_leave_component(prefs: &UserPreferences) -> (r: Option<SettingsRow>)
    ensures
        r is Some,
        r.unwrap()@ == component_row(DynamicComponent::VcAutoLeave, *prefs),
{
    Some(toggle_component("settings_vc_auto_leave", "VC Auto-leave", prefs.vc_auto_leave))
}

/// The toggle for leaving the queue on a voice disconnect.
pub fn vc_leave_queue_component(prefs: &UserPreferences) -> (r: Option<SettingsRow>)
    ensures
        r is Some,
        r.unwrap()@ == component_row(DynamicComponent::VcLeaveQueue, *prefs),
{
    Some(toggle_component("settings_vc_leave_queue", "Leave Queue on VC Disconnect", prefs.vc_leave_queue))
}

/// The first row of queue timeout choices.
pub fn queue_timeout_buttons_component(prefs: &UserPreferences) -> (r: Option<SettingsRow>)
    ensures
        r is Some,
        r.unwrap()@ == component_row(DynamicComponent::QueueTimeoutButtons, *prefs),
{
    Some(three_choices(
        ("settings_queue_expiration:30m", "30 minutes"),
        ("settings_queue_expiration:1h", "1 hour"),
        ("settings_queue_expiration:2h", "2 hours"),
        SettingsButtonStyle::Primary,
    ))
}

/// The second row of queue timeout choices, ending with Cancel.
pub fn queue_timeout_cancel_component(prefs: &UserPreferences) -> (r: Option<SettingsRow>)
    ensures
        r is Some,
        r.unwrap()@ == component_row(DynamicComponent::QueueTimeoutCancel, *prefs),
{
    Some(three_choices(
        ("settings_queue_expiration:3h", "3 hours"),
        ("settings_queue_expiration:4h", "4 hours"),
        ("settings_queue_expiration:cancel", "Cancel"),
        SettingsButtonStyle::Secondary,
    ))
}

/// The queue timeout as the preference pages show it.
pub fn queue_timeout_field(prefs: &UserPreferences) -> (r: Option<String>)
    ensures
        r is Some,
        r.unwrap()@ == field_value(DynamicField::QueueTimeout, *prefs),
{
    Some(queue_timeout_text(prefs.queue_expiration as u64))
}

impl DynamicField {
    /// The field's value for `prefs`.
    pub fn value(&self, prefs: &UserPreferences) -> (r: Option<String>)
        ensures
            r is Some,
            r.unwrap()@ == field_value(*self, *prefs),
    {
        match self {
            DynamicField::QueueTimeout => queue_timeout_field(prefs),
        }
    }
}

impl DynamicComponent {
    /// The component's row for `prefs`.
    pub fn row(&self, prefs: &UserPreferences) -> (r: Option<SettingsRow>)
        ensures
            r is Some,
            r.unwrap()@ == component_row(*self, *prefs),
    {
        match self {
            DynamicComponent::DmToggle => dm_toggle_component(prefs),
            DynamicComponent::VcAutoJoin => vc_auto_join_component(prefs),
            DynamicComponent::VcAutoLeave => vc_auto_leave_component(prefs),
            DynamicComponent::VcLeaveQueue => vc_leave_queue_component(prefs),
            DynamicComponent::QueueTimeoutButtons => queue_timeout_buttons_component(prefs),
            DynamicComponent::QueueTimeoutCancel => queue_timeout_cancel_component(prefs),
        }
    }
}

/// A page button as data: (id, label, description, target page, type).
pub type PageButton = (Seq<char>, Seq<char>, Option<Seq<char>>, Option<UserPrefsPage>, ButtonType);

/// The help lines of a page: `**{label}**: {description}` for each button
/// that has a description and is not labelled `Back`.
pub open spec fn prefs_help_lines(bs: Seq<PageButton>) -> Seq<Seq<char>>
    decreases bs.len(),
{
    if bs.len() == 0 {
        Seq::empty()
    } else {
        let b = bs.last();
        match b.2 {
            Some(d) => if b.1 != "Back"@ {
                prefs_help_lines(bs.drop_last()).push("**"@ + b.1 + "**: "@ + d)
            } else {
                prefs_help_lines(bs.drop_last())
            },
            None => prefs_help_lines(bs.drop_last()),
        }
    }
}

/// The embed of a preference page for preferences `p`: its title,
/// description and colour, its fixed fields, its computed fields, then a
/// "Help" field describing its buttons when any has a description.
pub open spec fn prefs_page_embed(m: MenuView<UserPrefsPage>, p: UserPreferences) -> crate::settings::MenuView {
    let statics = m.fields.map_values(|f: (Seq<char>, Seq<char>, bool)| FieldView { name: f.0, value: f.1, inline: f.2 });
    let computed = m.dynamic_fields.map_values(
        |f: (Seq<char>, DynamicField, bool)| FieldView { name: f.0, value: field_value(f.1, p), inline: f.2 },
    );
    let help = prefs_help_lines(m.buttons);
    let fields = statics + computed;
    crate::settings::MenuView {
        title: m.title,
        description: Some(m.description),
        color: m.color,
        fields: if help.len() > 0 {
            fields.push(FieldView { name: "Help"@, value: join_with(help, "\n"@), inline: false })
        } else {
            fields
        },
        rows: Seq::empty(),
        footer: None,
    }
}

/// The buttons of a page that are not toggles (toggles are shown by the
/// computed rows), each in the primary style.
pub open spec fn plain_buttons(bs: Seq<PageButton>) -> Seq<ButtonView>
    decreases bs.len(),
{
    if bs.len() == 0 {
        Seq::empty()
    } else {
        let b = bs.last();
        if b.4 == ButtonType::Toggle {
            plain_buttons(bs.drop_last())
        } else {
            plain_buttons(bs.drop_last()).push(btn(b.0, b.1, SettingsButtonStyle::Primary))
        }
    }
}

/// The rows of a preference page: the computed rows first, then the
/// other buttons in rows of at most five, then, on a page with a parent,
/// a Back button that leads to the parent.
pub open spec fn prefs_page_rows(m: MenuView<UserPrefsPage>, p: UserPreferences) -> Seq<RowView> {
    m.dynamic_components.map_values(|c: DynamicComponent| component_row(c, p))
        + chunks5(plain_buttons(m.buttons)).map_values(|r: Seq<ButtonView>| RowView::Buttons(r))
        + if m.parent is Some {
            seq![RowView::Buttons(seq![btn(back_button_id_spec(m.parent.unwrap()), "Back"@, SettingsButtonStyle::Secondary)])]
        } else {
            Seq::empty()
        }
}

fn is_toggle(t: ButtonType) -> (r: bool)
    ensures
        r == (t == ButtonType::Toggle),
{
    match t {
        ButtonType::Toggle => true,
        _ => false,
    }
}

impl UserPrefsMenuSystem {
    /// The embed of `page` for a user's preferences.
    pub fn build_embed(&self, page: UserPrefsPage, prefs: &UserPreferences) -> (r: Option<SettingsMenu>)
        requires
            self.wf(),
        ensures
            r is Some,
            r.unwrap()@ == prefs_page_embed(user_prefs_table()[page_index(page)], *prefs),
    {
        let menu = match self.get_menu(page) {
            Some(m) => m,
            None => {
                return None;
            },
        };
        let ghost mv = user_prefs_table()[page_index(page)];
        let mut embed = SettingsMenu::new(String::from_str(menu.title))
            .description(String::from_str(menu.description))
            .color(menu.color);
        let ghost statics = mv.fields.map_values(|f: (Seq<char>, Seq<char>, bool)| FieldView { name: f.0, value: f.1, inline: f.2 });
        let ghost computed = mv.dynamic_fields.map_values(
            |f: (Seq<char>, DynamicField, bool)| FieldView { name: f.0, value: field_value(f.1, *prefs), inline: f.2 },
        );
        let nf = menu.fields.len();
        let mut i: usize = 0;
        while i < nf
            invariant
                nf == menu.fields@.len(),
                mv == menu_view(*menu),
                statics == mv.fields.map_values(|f: (Seq<char>, Seq<char>, bool)| FieldView { name: f.0, value: f.1, inline: f.2 }),
                i <= nf,
                embed@.title == mv.title,
                embed@.description == Some(mv.description),
                embed@.color == mv.color,
                embed@.fields == statics.take(i as int),
                embed@.rows == Seq::<RowView>::empty(),
                embed@.footer is None,
            decreases nf - i,
        {
            let f = menu.fields[i];
            embed = embed.field(SettingsField::new(String::from_str(f.0), String::from_str(f.1)).inline(f.2));
            assert(statics.take(i as int + 1) =~= statics.take(i as int).push(statics[i as int]));
            i = i + 1;
        }
        assert(statics.take(nf as int) =~= statics);
        let nd = menu.dynamic_fields.len();
        let mut k: usize = 0;
        while k < nd
            invariant
                nd == menu.dynamic_fields@.len(),
                mv == menu_view(*menu),
                computed == mv.dynamic_fields.map_values(
                    |f: (Seq<char>, DynamicField, bool)| FieldView { name: f.0, value: field_value(f.1, *prefs), inline: f.2 },
                ),
                k <= nd,
                embed@.title == mv.title,
                embed@.description == Some(mv.description),
                embed@.color == mv.color,
                embed@.fields == statics + computed.take(k as int),
                embed@.rows == Seq::<RowView>::empty(),
                embed@.footer is None,
            decreases nd - k,
        {
            let f = menu.dynamic_fields[k];
            match f.1.value(prefs) {
                Some(value) => {
                    embed = embed.field(SettingsField::new(String::from_str(f.0), value).inline(f.2));
                },
                None => {},
            }
            assert(computed.take(k as int + 1) =~= computed.take(k as int).push(computed[k as int]));
            k = k + 1;
        }
        assert(computed.take(nd as int) =~= computed);
        let nb = menu.buttons.len();
        let ghost bv = mv.buttons;
        let mut help = String::new();
        let mut count: usize = 0;
        let mut j: usize = 0;
        while j < nb
            invariant
                nb == menu.buttons@.len(),
                mv == menu_view(*menu),
                bv == mv.buttons,
                bv == menu.buttons@.map_values(|b: MenuButton<UserPrefsPage>| button_view(b)),
                j <= nb,
                count <= j,
                count == prefs_help_lines(bv.take(j as int)).len(),
                help@ == join_with(prefs_help_lines(bv.take(j as int)), "\n"@),
            decreases nb - j,
        {
            let b = menu.buttons[j];
            assert(bv[j as int] == button_view(b));
            assert(bv.take(j as int + 1).drop_last() =~= bv.take(j as int));
            assert(bv.take(j as int + 1).last() == bv[j as int]);
            let ghost prev = prefs_help_lines(bv.take(j as int));
            match b.description {
                Some(d) => {
                    if !str_eq(b.label, "Back") {
                        if count > 0 {
                            help.append("\n");
                        }
                        help.append("**");
                        help.append(b.label);
                        help.append("**: ");
                        help.append(d);
                        count = count + 1;
                        proof {
                            let line = "**"@ + b.label@ + "**: "@ + d@;
                            assert(prefs_help_lines(bv.take(j as int + 1)) == prev.push(line));
                            assert(prev.push(line).drop_last() =~= prev);
                            if prev.len() == 0 {
                                assert(help@ =~= line);
                            } else {
                                assert(help@ =~= join_with(prev, "\n"@) + "\n"@ + line);
                            }
                        }
                    }
                },
                None => {},
            }
            j = j + 1;
        }
        assert(bv.take(nb as int) =~= bv);
        if count > 0 {
            embed = embed.field(SettingsField::new(String::from_str("Help"), help).inline(false));
        }
        Some(embed)
    }

    /// The rows of `page` for a user's preferences; `None` for a page with
    /// no row at all.
    pub fn build_components(&self, page: UserPrefsPage, prefs: &UserPreferences) -> (r: Option<Vec<SettingsRow>>)
        requires
            self.wf(),
        ensures
            prefs_page_rows(user_prefs_table()[page_index(page)], *prefs).len() == 0 ==> r is None,
            prefs_page_rows(user_prefs_table()[page_index(page)], *prefs).len() > 0 ==> r is Some
                && r.unwrap()@.map_values(|x: SettingsRow| x@) == prefs_page_rows(user_prefs_table()[page_index(page)], *prefs),
    {
        let menu = match self.get_menu(page) {
            Some(m) => m,
            None => {
                return None;
            },
        };
        let ghost mv = user_prefs_table()[page_index(page)];
        let ghost dyn_rows = mv.dynamic_components.map_values(|c: DynamicComponent| component_row(c, *prefs));
        let mut rows: Vec<SettingsRow> = Vec::new();
        let nc = menu.dynamic_components.len();
        let mut i: usize = 0;
        while i < nc
            invariant
                nc == menu.dynamic_components@.len(),
                mv == menu_view(*menu),
                dyn_rows == mv.dynamic_components.map_values(|c: DynamicComponent| component_row(c, *prefs)),
                i <= nc,
                rows@.map_values(|x: SettingsRow| x@) == dyn_rows.take(i as int),
            decreases nc - i,
        {
            let ghost before = rows@.map_values(|x: SettingsRow| x@);
            match menu.dynamic_components[i].row(prefs) {
                Some(row) => {
                    rows.push(row);
                },
                None => {},
            }
            assert(rows@.map_values(|x: SettingsRow| x@) =~= before.push(dyn_rows[i as int]));
            assert(dyn_rows.take(i as int + 1) =~= dyn_rows.take(i as int).push(dyn_rows[i as int]));
            i = i + 1;
        }
        assert(dyn_rows.take(nc as int) =~= dyn_rows);
        let nb = menu.buttons.len();
        let ghost bv = mv.buttons;
        let mut plain: Vec<(&'static str, &'static str)> = Vec::new();
        let mut j: usize = 0;
        while j < nb
            invariant
                nb == menu.buttons@.len(),
                mv == menu_view(*menu),
                bv == mv.buttons,
                bv == menu.buttons@.map_values(|b: MenuButton<UserPrefsPage>| button_view(b)),
                j <= nb,
                plain@.map_values(|p: (&'static str, &'static str)| btn(p.0@, p.1@, SettingsButtonStyle::Primary))
                    == plain_buttons(bv.take(j as int)),
            decreases nb - j,
        {
            let b = menu.buttons[j];
            assert(bv[j as int] == button_view(b));
            assert(bv.take(j as int + 1).drop_last() =~= bv.take(j as int));
            assert(bv.take(j as int + 1).last() == bv[j as int]);
            let ghost before = plain@;
            if !is_toggle(b.button_type) {
                plain.push((b.id, b.label));
                assert(plain@.map_values(|p: (&'static str, &'static str)| btn(p.0@, p.1@, SettingsButtonStyle::Primary))
                    =~= before.map_values(|p: (&'static str, &'static str)| btn(p.0@, p.1@, SettingsButtonStyle::Primary))
                        .push(btn(b.id@, b.label@, SettingsButtonStyle::Primary)));
            }
            j = j + 1;
        }
        assert(bv.take(nb as int) =~= bv);
        let ghost pv = plain_buttons(bv);
        let ghost chunk_rows = chunks5(pv).map_values(|r: Seq<ButtonView>| RowView::Buttons(r));
        let np = plain.len();
        let nrows = if np % 5 == 0 { np / 5 } else { np / 5 + 1 };
        let mut t: usize = 0;
        while t < nrows
            invariant
                np == plain@.len(),
                pv == plain@.map_values(|p: (&'static str, &'static str)| btn(p.0@, p.1@, SettingsButtonStyle::Primary)),
                chunk_rows == chunks5(pv).map_values(|r: Seq<ButtonView>| RowView::Buttons(r)),
                nrows == (np + 4) / 5,
                t <= nrows,
                rows@.map_values(|x: SettingsRow| x@) == dyn_rows + chunk_rows.take(t as int),
            decreases nrows - t,
        {
            let start = 5 * t;
            let end = if start + 5 <= np { start + 5 } else { np };
            let mut row: Vec<SettingsButton> = Vec::new();
            let mut q: usize = start;
            while q < end
                invariant
                    np == plain@.len(),
                    pv == plain@.map_values(|p: (&'static str, &'static str)| btn(p.0@, p.1@, SettingsButtonStyle::Primary)),
                    start <= q <= end,
                    end <= np,
                    buttons_view(row@) == pv.subrange(start as int, q as int),
                decreases end - q,
            {
                let ghost rb = row@;
                row.push(SettingsButton::action(String::from_str(plain[q].0), String::from_str(plain[q].1), SettingsButtonStyle::Primary));
                assert(buttons_view(row@) =~= buttons_view(rb).push(pv[q as int]));
                assert(pv.subrange(start as int, q as int + 1) =~= pv.subrange(start as int, q as int).push(pv[q as int]));
                q = q + 1;
            }
            let ghost before = rows@.map_values(|x: SettingsRow| x@);
            rows.push(SettingsRow::Buttons(row));
            assert(chunks5(pv)[t as int] == pv.subrange(start as int, end as int));
            assert(rows@.map_values(|x: SettingsRow| x@) =~= before.push(chunk_rows[t as int]));
            assert(chunk_rows.take(t as int + 1) =~= chunk_rows.take(t as int).push(chunk_rows[t as int]));
            t = t + 1;
        }
        assert(chunk_rows.take(nrows as int) =~= chunk_rows);
        match menu.parent {
            Some(parent) => {
                let ghost before = rows@.map_values(|x: SettingsRow| x@);
                let id = self.get_back_button_id(parent);
                let back = vec![SettingsButton::action(s(id), s("Back"), SettingsButtonStyle::Secondary)];
                assert(buttons_view(back@) =~= seq![btn(back_button_id_spec(parent), "Back"@, SettingsButtonStyle::Secondary)]);
                rows.push(SettingsRow::Buttons(back));
                assert(rows@.map_values(|x: SettingsRow| x@) =~= before.push(
                    RowView::Buttons(seq![btn(back_button_id_spec(parent), "Back"@, SettingsButtonStyle::Secondary)]),
                ));
            },
            None => {},
        }
        assert(rows@.map_values(|x: SettingsRow| x@) =~= prefs_page_rows(mv, *prefs));
        if rows.len() == 0 {
            None
        } else {
            Some(rows)
        }
    }
}

/// The compact preferences page: the timeout, the DM alerts and voice
/// toggles, and the alert editors, in the user's join alert colour.
pub open spec fn prefs_summary(p: UserPreferences) -> crate::settings::MenuView {
    crate::settings::MenuView {
        title: "qBot preferences"@,
        description: Some("Configure your queue preferences"@),
        color: p.join_alert_color,
        fields: Seq::empty(),
        rows: seq![
            RowView::Buttons(seq![btn(
                "settings_queue_expiration"@,
                "Timeout: "@ + timeout_text(p.queue_expiration as u64),
                SettingsButtonStyle::Primary,
            )]),
            RowView::Buttons(seq![btn("settings_toggle_dm"@, toggle_label("DM alerts"@, p.pm_hot_alert), state_style(p.pm_hot_alert))]),
            RowView::Buttons(seq![
                btn("settings_vc_auto_join"@, toggle_label("VC auto-join"@, p.vc_auto_join), state_style(p.vc_auto_join)),
                btn("settings_vc_auto_leave"@, toggle_label("VC auto-leave"@, p.vc_auto_leave), state_style(p.vc_auto_leave)),
            ]),
            RowView::Buttons(seq![
                btn("settings_edit_alert"@, "Edit join alert"@, SettingsButtonStyle::Primary),
                btn("settings_edit_leave_alert"@, "Edit leave alert"@, SettingsButtonStyle::Primary),
            ]),
        ],
        footer: None,
    }
}

impl AsSettingsMenu for UserPreferences {
    fn as_settings_menu(&self) -> (r: SettingsMenu)
        ensures
            r@ == prefs_summary(*self),
    {
        let mut timeout = s("Timeout: ");
        timeout.append(queue_timeout_text(self.queue_expiration as u64).as_str());
        let row1 = vec![SettingsButton::edit(s("settings_queue_expiration"), timeout)];
        let row2 = vec![SettingsButton::toggle(s("settings_toggle_dm"), s("DM alerts"), self.pm_hot_alert)];
        let row3 = vec![
            SettingsButton::toggle(s("settings_vc_auto_join"), s("VC auto-join"), self.vc_auto_join),
            SettingsButton::toggle(s("settings_vc_auto_leave"), s("VC auto-leave"), self.vc_auto_leave),
        ];
        let row4 = vec![
            SettingsButton::edit(s("settings_edit_alert"), s("Edit join alert")),
            SettingsButton::edit(s("settings_edit_leave_alert"), s("Edit leave alert")),
        ];
        let ghost expected = prefs_summary(*self);
        assert(buttons_view(row1@) =~= match expected.rows[0] { RowView::Buttons(b) => b, _ => Seq::empty() });
        assert(buttons_view(row2@) =~= match expected.rows[1] { RowView::Buttons(b) => b, _ => Seq::empty() });
        assert(buttons_view(row3@) =~= match expected.rows[2] { RowView::Buttons(b) => b, _ => Seq::empty() });
        assert(buttons_view(row4@) =~= match expected.rows[3] { RowView::Buttons(b) => b, _ => Seq::empty() });
        let m = SettingsMenu::new(s("qBot preferences"))
            .description(s("Configure your queue preferences"))
            .color(self.join_alert_color)
            .row(SettingsRow::Buttons(row1))
            .row(SettingsRow::Buttons(row2))
            .row(SettingsRow::Buttons(row3))
            .row(SettingsRow::Buttons(row4));
        assert(m@.rows =~= expected.rows);
        m
    }
}

/// What a button of the preference pages asks for.
#[derive(Debug, Clone, Copy, PartialEq, Eq, Structural)]
pub enum PrefsButton {
    /// Show a page of the preference menus (the ping page is built apart)
    Navigate(UserPrefsPage),
    ToggleDm,
    ShowTimeoutChoices,
    Timeout(TimeoutChoice),
    ToggleVcAutoLeave,
    ToggleVcLeaveQueue,
    ToggleVcAutoJoin,
    /// Toggle pings in the server the page was opened from
    TogglePing,
    /// Back to the main preferences page
    BackToMain,
    EditJoinAlert,
    EditLeaveAlert,
    /// A server was chosen for its ping toggle
    PingServerSelect,
    /// Toggle pings in the server the id names (none when it is no number)
    TogglePingIn(Option<u64>),
    Unknown,
}

/// What button `id` asks for, trying navigation first and then each
/// button of the pages in the handler's order. A button that is also a
/// navigation button (the queue timeout button, the ping page's back
/// button) navigates.
pub open spec fn prefs_button_spec(id: Seq<char>) -> PrefsButton {
    match navigation_spec(id) {
        Some(p) => PrefsButton::Navigate(p),
        None => if id == "settings_toggle_dm"@ {
            PrefsButton::ToggleDm
        } else if id == "settings_queue_expiration"@ {
            PrefsButton::ShowTimeoutChoices
        } else if has_prefix(id, "settings_queue_expiration:"@) {
            PrefsButton::Timeout(timeout_choice_spec(id))
        } else if id == "settings_vc_auto_leave"@ {
            PrefsButton::ToggleVcAutoLeave
        } else if id == "settings_vc_leave_queue"@ {
            PrefsButton::ToggleVcLeaveQueue
        } else if id == "settings_vc_auto_join"@ {
            PrefsButton::ToggleVcAutoJoin
        } else if id == "settings_ping_notifications"@ {
            PrefsButton::TogglePing
        } else if id == "user_prefs_ping_back"@ || id == "settings_ping_back"@ {
            PrefsButton::BackToMain
        } else if id == "settings_edit_alert"@ {
            PrefsButton::EditJoinAlert
        } else if id == "settings_edit_leave_alert"@ {
            PrefsButton::EditLeaveAlert
        } else if id == "settings_ping_server_select"@ {
            PrefsButton::PingServerSelect
        } else if has_prefix(id, "settings_toggle_ping_notification_"@) {
            PrefsButton::TogglePingIn(parse_u64_spec(after(id, "settings_toggle_ping_notification_"@)))
        } else {
            PrefsButton::Unknown
        },
    }
}

/// What a button of the preference pages asks for.
pub fn prefs_button(id: &str) -> (r: PrefsButton)
    ensures
        r == prefs_button_spec(id@),
{
    match get_user_prefs_navigation_info(id) {
        Some(p) => {
            return PrefsButton::Navigate(p);
        },
        None => {},
    }
    if str_eq(id, "settings_toggle_dm") {
        PrefsButton::ToggleDm
    } else if str_eq(id, "settings_queue_expiration") {
        PrefsButton::ShowTimeoutChoices
    } else if starts_with(id, "settings_queue_expiration:") {
        PrefsButton::Timeout(timeout_choice(id))
    } else if str_eq(id, "settings_vc_auto_leave") {
        PrefsButton::ToggleVcAutoLeave
    } else if str_eq(id, "settings_vc_leave_queue") {
        PrefsButton::ToggleVcLeaveQueue
    } else if str_eq(id, "settings_vc_auto_join") {
        PrefsButton::ToggleVcAutoJoin
    } else if str_eq(id, "settings_ping_notifications") {
        PrefsButton::TogglePing
    } else if str_eq(id, "user_prefs_ping_back") || str_eq(id, "settings_ping_back") {
        PrefsButton::BackToMain
    } else if str_eq(id, "settings_edit_alert") {
        PrefsButton::EditJoinAlert
    } else if str_eq(id, "settings_edit_leave_alert") {
        PrefsButton::EditLeaveAlert
    } else if str_eq(id, "settings_ping_server_select") {
        PrefsButton::PingServerSelect
    } else if starts_with(id, "settings_toggle_ping_notification_") {
        let n = id.unicode_len();
        let m = "settings_toggle_ping_notification_".unicode_len();
        let rest = id.substring_char(m, n);
        PrefsButton::TogglePingIn(parse_u64(rest))
    } else {
        PrefsButton::Unknown
    }
}

/// The page shown after a preference button changed the preferences:
/// the alert page after the DM toggle, the queue page after a timeout
/// choice or a voice toggle; none for the others.
pub open spec fn page_after_spec(b: PrefsButton) -> Option<UserPrefsPage> {
    match b {
        PrefsButton::ToggleDm => Some(UserPrefsPage::AlertSettings),
        PrefsButton::ShowTimeoutChoices => Some(UserPrefsPage::QueueTimeoutSettings),
        PrefsButton::Timeout(_) => Some(UserPrefsPage::QueueSettings),
        PrefsButton::ToggleVcAutoLeave => Some(UserPrefsPage::QueueSettings),
        PrefsButton::ToggleVcLeaveQueue => Some(UserPrefsPage::QueueSettings),
        PrefsButton::ToggleVcAutoJoin => Some(UserPrefsPage::QueueSettings),
        PrefsButton::BackToMain => Some(UserPrefsPage::Main),
        PrefsButton::Navigate(p) => Some(p),
        _ => None,
    }
}

/// The preferences after button `b` (the DM toggle's stored state is
/// flipped by the store; the others are flipped or set here).
pub open spec fn prefs_after_spec(p: UserPreferences, b: PrefsButton) -> UserPreferences {
    match b {
        PrefsButton::ToggleDm => UserPreferences { pm_hot_alert: !p.pm_hot_alert, ..p },
        PrefsButton::Timeout(TimeoutChoice::Minutes(m)) => UserPreferences { queue_expiration: m as u8, ..p },
        PrefsButton::ToggleVcAutoLeave => UserPreferences { vc_auto_leave: !p.vc_auto_leave, ..p },
        PrefsButton::ToggleVcLeaveQueue => UserPreferences { vc_leave_queue: !p.vc_leave_queue, ..p },
        PrefsButton::ToggleVcAutoJoin => UserPreferences { vc_auto_join: !p.vc_auto_join, ..p },
        _ => p,
    }
}

impl UserPreferences {
    /// Applies what button `b` changes in the preferences, giving the page
    /// to show next, if the button shows one of the preference pages.
    pub fn press(&mut self, b: PrefsButton) -> (r: Option<UserPrefsPage>)
        requires
            b matches PrefsButton::Timeout(TimeoutChoice::Minutes(m)) ==> m <= 255,
        ensures
            r == page_after_spec(b),
            *final(self) == prefs_after_spec(*old(self), b),
    {
        match b {
            PrefsButton::ToggleDm => {
                self.pm_hot_alert = !self.pm_hot_alert;
            },
            PrefsButton::Timeout(TimeoutChoice::Minutes(m)) => {
                self.queue_expiration = m as u8;
            },
            PrefsButton::ToggleVcAutoLeave => {
                self.vc_auto_leave = !self.vc_auto_leave;
            },
            PrefsButton::ToggleVcLeaveQueue => {
                self.vc_leave_queue = !self.vc_leave_queue;
            },
            PrefsButton::ToggleVcAutoJoin => {
                self.vc_auto_join = !self.vc_auto_join;
            },
            _ => {},
        }
        match b {
            PrefsButton::ToggleDm => Some(UserPrefsPage::AlertSettings),
            PrefsButton::ShowTimeoutChoices => Some(UserPrefsPage::QueueTimeoutSettings),
            PrefsButton::Timeout(_) => Some(UserPrefsPage::QueueSettings),
            PrefsButton::ToggleVcAutoLeave => Some(UserPrefsPage::QueueSettings),
            PrefsButton::ToggleVcLeaveQueue => Some(UserPrefsPage::QueueSettings),
            PrefsButton::ToggleVcAutoJoin => Some(UserPrefsPage::QueueSettings),
            PrefsButton::BackToMain => Some(UserPrefsPage::Main),
            PrefsButton::Navigate(p) => Some(p),
            _ => None,
        }
    }
}

} // verus!
