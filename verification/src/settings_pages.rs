//! The server and category settings pages, built as data.

use vstd::prelude::*;
use vstd::string::*;
use crate::text::{dec, push_dec, is_blank, blank};
use crate::parse::{parse_u64, parse_u64_spec};
use crate::settings::{
    SettingsMenu, SettingsField, SettingsButton, SettingsButtonStyle, SettingsRow, MenuView, RowView,
    ButtonView, FieldView, SETTINGS_COLOR, btn, category_button_id, buttons_view, options_view, selection_spec, create_selection_menu,
};

verus! {

/// What the main server settings page says of its sections.
pub const SERVER_OVERVIEW: &'static str = "**Configuration Overview:**\n\n**Server-wide settings**\n• Roles (runner/admin permissions)\n• Team balance method\n• ELO & Rank linking\n\n**Rank management**\n• Add, remove & link ranks\n• Set default rank\n\n**Category management**\n• Queue channels & voice channels\n• Team channels & game settings";

/// A page that can be shown as a settings menu.
pub trait AsSettingsMenu {
    fn as_settings_menu(&self) -> SettingsMenu;
}

/// A boolean setting of the configuration with its button.
pub struct ConfigToggle {
    /// Column of the configuration table
    pub column: &'static str,
    /// Id of the button
    pub button_id: &'static str,
    /// Label shown when enabled
    pub label_on: &'static str,
    /// Label shown when disabled
    pub label_off: &'static str,
    /// Value when the configuration holds none
    pub default: bool,
}

/// A toggle as data: (column, button id, label on, label off, default).
pub open spec fn toggle_view(t: ConfigToggle) -> (Seq<char>, Seq<char>, Seq<char>, Seq<char>, bool) {
    (t.column@, t.button_id@, t.label_on@, t.label_off@, t.default)
}

/// The toggles of the server configuration page, in order.
pub open spec fn server_toggles() -> Seq<(Seq<char>, Seq<char>, Seq<char>, Seq<char>, bool)> {
    seq![
        ("elo_ranks_linked"@, "server_cfg_elo_ranks_linked"@, "ELO-Rank linked"@, "ELO-Rank independent"@, true),
        ("active_elo"@, "server_settings_dynamic_elo"@, "Dynamic ELO enabled"@, "Dynamic ELO disabled"@, false),
        ("post_game_auto_leave"@, "server_cfg_post_game_auto_leave"@, "Post-game auto-remove is enabled"@,
            "Post-game auto-remove is disabled"@, true),
        ("hide_elo"@, "server_cfg_hide_elo"@, "ELO is visible"@, "ELO is hidden"@, false),
    ]
}

/// The toggles of the server configuration page, in order.
pub fn server_config_toggles() -> (r: Vec<ConfigToggle>)
    ensures
        r@.map_values(|t: ConfigToggle| toggle_view(t)) == server_toggles(),
{
    let mut v: Vec<ConfigToggle> = Vec::new();
    v.push(ConfigToggle {
        column: "elo_ranks_linked",
        button_id: "server_cfg_elo_ranks_linked",
        label_on: "ELO-Rank linked",
        label_off: "ELO-Rank independent",
        default: true,
    });
    v.push(ConfigToggle {
        column: "active_elo",
        button_id: "server_settings_dynamic_elo",
        label_on: "Dynamic ELO enabled",
        label_off: "Dynamic ELO disabled",
        default: false,
    });
    v.push(ConfigToggle {
        column: "post_game_auto_leave",
        button_id: "server_cfg_post_game_auto_leave",
        label_on: "Post-game auto-remove is enabled",
        label_off: "Post-game auto-remove is disabled",
        default: true,
    });
    v.push(ConfigToggle {
        column: "hide_elo",
        button_id: "server_cfg_hide_elo",
        label_on: "ELO is visible",
        label_off: "ELO is hidden",
        default: false,
    });
    assert(v@.map_values(|t: ConfigToggle| toggle_view(t)) =~= server_toggles());
    v
}

fn s(lit: &str) -> (r: String)
    ensures
        r@ == lit@,
{
    String::from_str(lit)
}

/// A guild's server settings as stored.
pub struct ServerSettings {
    pub runner_role: Option<String>,
    pub admin_role: Option<String>,
    /// The state of each server configuration toggle, in order
    pub toggle_states: Vec<bool>,
    pub balance_method: String,
    pub post_game_confirm_time: u16,
}

/// Server settings with the guild's name, for the main server page.
pub struct ServerSettingsDisplay {
    pub guild_name: String,
    pub runner_role: Option<String>,
    pub admin_role: Option<String>,
    pub toggle_states: Vec<bool>,
    pub balance_method: String,
    pub post_game_confirm_time: u16,
}

/// The main server settings page.
pub open spec fn server_settings_page(guild_name: Seq<char>) -> MenuView {
    MenuView {
        title: guild_name + " - Server settings"@,
        description: Some(SERVER_OVERVIEW@),
        color: SETTINGS_COLOR,
        fields: Seq::empty(),
        rows: seq![RowView::Buttons(seq![
            btn("server_settings_roles"@, "Server"@, SettingsButtonStyle::Secondary),
            btn("server_settings_ranks"@, "Ranks"@, SettingsButtonStyle::Secondary),
            btn("server_settings_categories"@, "Categories"@, SettingsButtonStyle::Secondary),
        ])],
        footer: Some("Select a category to manage:"@),
    }
}

fn three_buttons(a: SettingsButton, b: SettingsButton, c: SettingsButton) -> (r: SettingsRow)
    ensures
        r@ == RowView::Buttons(seq![a@, b@, c@]),
{
    let mut v: Vec<SettingsButton> = Vec::new();
    v.push(a);
    v.push(b);
    v.push(c);
    let r = SettingsRow::Buttons(v);
    assert(buttons_view(v@) =~= seq![a@, b@, c@]);
    r
}

fn two_buttons(a: SettingsButton, b: SettingsButton) -> (r: SettingsRow)
    ensures
        r@ == RowView::Buttons(seq![a@, b@]),
{
    let mut v: Vec<SettingsButton> = Vec::new();
    v.push(a);
    v.push(b);
    let r = SettingsRow::Buttons(v);
    assert(buttons_view(v@) =~= seq![a@, b@]);
    r
}

impl AsSettingsMenu for ServerSettingsDisplay {
    fn as_settings_menu(&self) -> (r: SettingsMenu)
        ensures
            r@ == server_settings_page(self.guild_name@),
    {
        let mut title = self.guild_name.clone();
        title.append(" - Server settings");
        let row = three_buttons(
            SettingsButton::action(s("server_settings_roles"), s("Server"), SettingsButtonStyle::Secondary),
            SettingsButton::action(s("server_settings_ranks"), s("Ranks"), SettingsButtonStyle::Secondary),
            SettingsButton::action(s("server_settings_categories"), s("Categories"), SettingsButtonStyle::Secondary),
        );
        let m = SettingsMenu::new(title)
            .color(SETTINGS_COLOR)
            .description(s(SERVER_OVERVIEW))
            .row(row)
            .footer(s("Select a category to manage:"));
        assert(m@.rows =~= server_settings_page(self.guild_name@).rows);
        m
    }
}

/// The role a stored role id names, if it reads as a number.
pub open spec fn role_default(role: Option<String>) -> Option<u64> {
    match role {
        Some(r) => parse_u64_spec(r@),
        None => None,
    }
}

/// A stored role id that reads as zero names no role: Discord ids are
/// never zero.
pub open spec fn role_ok(role: Option<String>) -> bool {
    role_default(role) != Some(0u64)
}

fn read_role(role: &Option<String>) -> (r: Option<u64>)
    ensures
        r == role_default(*role),
{
    match role {
        Some(r) => parse_u64(r.as_str()),
        None => None,
    }
}

/// The toggle buttons of the server configuration page: one per toggle
/// that has a state, labelled and coloured by the state.
pub open spec fn toggle_buttons(states: Seq<bool>) -> Seq<ButtonView> {
    let k = if states.len() < server_toggles().len() { states.len() } else { server_toggles().len() };
    Seq::new(k, |i: int| btn(
        server_toggles()[i].1,
        if states[i] { server_toggles()[i].2 } else { server_toggles()[i].3 },
        if states[i] { SettingsButtonStyle::Success } else { SettingsButtonStyle::Danger },
    ))
}

/// Server configuration (roles, balance, ELO) for the server sub-page.
pub struct ServerConfigDisplay {
    pub guild_name: String,
    pub runner_role: Option<String>,
    pub admin_role: Option<String>,
    pub toggle_states: Vec<bool>,
    pub balance_method: String,
    pub post_game_confirm_time: u16,
}

/// The rows of the server configuration page.
pub open spec fn server_config_rows(runner: Option<u64>, admin: Option<u64>, states: Seq<bool>) -> Seq<RowView> {
    let selects = seq![
        RowView::RoleSelect { id: "server_settings_runner_role"@, placeholder: "Select runner role"@, default: runner },
        RowView::RoleSelect { id: "server_settings_admin_role"@, placeholder: "Select admin role"@, default: admin },
        RowView::StringSelect {
            id: "server_settings_balance"@,
            placeholder: "Team balance method..."@,
            options: seq![("Custom distribution algorithm"@, "bch"@), ("Average distribution"@, "average"@)],
        },
    ];
    let toggles = if states.len() == 0 { Seq::empty() } else { seq![RowView::Buttons(toggle_buttons(states))] };
    selects + toggles + seq![RowView::Buttons(seq![
        btn("server_settings_edit_post_game_confirm_time"@, "Edit post-game timeout"@, SettingsButtonStyle::Secondary),
        btn("server_settings_create_roles"@, "Create roles"@, SettingsButtonStyle::Primary),
        btn("server_settings_roles_back"@, "Back"@, SettingsButtonStyle::Secondary),
    ])]
}

/// The server configuration page.
pub open spec fn server_config_page(d: ServerConfigDisplay) -> MenuView {
    MenuView {
        title: d.guild_name@ + " - Server Settings"@,
        description: Some("Configure server-wide settings including roles, team balance method, and ELO settings"@),
        color: SETTINGS_COLOR,
        fields: seq![FieldView {
            name: "Post-game confirm time"@,
            value: dec(d.post_game_confirm_time as nat) + " seconds"@,
            inline: true,
        }],
        rows: server_config_rows(role_default(d.runner_role), role_default(d.admin_role), d.toggle_states@),
        footer: Some("Configure server-wide settings below"@),
    }
}

fn toggle_row(states: &Vec<bool>) -> (r: SettingsRow)
    ensures
        r@ == RowView::Buttons(toggle_buttons(states@)),
{
    let toggles = server_config_toggles();
    let ghost tv = toggles@.map_values(|t: ConfigToggle| toggle_view(t));
    assert(server_toggles().len() == 4);
    assert(toggles@.len() == tv.len());
    let n = if states.len() < toggles.len() { states.len() } else { toggles.len() };
    let mut v: Vec<SettingsButton> = Vec::new();
    let mut i: usize = 0;
    while i < n
        invariant
            tv == server_toggles(),
            tv == toggles@.map_values(|t: ConfigToggle| toggle_view(t)),
            toggles@.len() == 4,
            n <= states@.len(),
            n <= 4,
            n == (if states@.len() < 4 { states@.len() } else { 4 }),
            i <= n,
            v@.len() == i,
            forall|k: int| 0 <= k < i ==> #[trigger] v@[k]@ == toggle_buttons(states@)[k],
        decreases n - i,
    {
        let t = &toggles[i];
        let on = states[i];
        let label = if on { t.label_on } else { t.label_off };
        assert(toggle_view(toggles@[i as int]) == tv[i as int]);
        let style = if on { SettingsButtonStyle::Success } else { SettingsButtonStyle::Danger };
        v.push(SettingsButton::action(String::from_str(t.button_id), String::from_str(label), style));
        i = i + 1;
    }
    let r = SettingsRow::Buttons(v);
    assert(buttons_view(v@) =~= toggle_buttons(states@));
    r
}

fn confirm_time_text(t: u16) -> (r: String)
    ensures
        r@ == dec(t as nat) + " seconds"@,
{
    let mut x = String::new();
    push_dec(&mut x, t as u64);
    x.append(" seconds");
    assert(x@ =~= dec(t as nat) + " seconds"@);
    x
}

fn balance_options() -> (r: Vec<(String, String)>)
    ensures
        options_view(r@) == seq![("Custom distribution algorithm"@, "bch"@), ("Average distribution"@, "average"@)],
{
    let mut v: Vec<(String, String)> = Vec::new();
    v.push((s("Custom distribution algorithm"), s("bch")));
    v.push((s("Average distribution"), s("average")));
    assert(options_view(v@) =~= seq![("Custom distribution algorithm"@, "bch"@), ("Average distribution"@, "average"@)]);
    v
}

impl AsSettingsMenu for ServerConfigDisplay {
    fn as_settings_menu(&self) -> (r: SettingsMenu)
        ensures
            role_ok(self.runner_role) && role_ok(self.admin_role) ==> r@ == server_config_page(*self),
    {
        let runner = read_role(&self.runner_role);
        let admin = read_role(&self.admin_role);
        let mut title = self.guild_name.clone();
        title.append(" - Server Settings");
        let mut m = SettingsMenu::new(title)
            .description(s("Configure server-wide settings including roles, team balance method, and ELO settings"))
            .field(SettingsField::new(s("Post-game confirm time"), confirm_time_text(self.post_game_confirm_time)))
            .color(SETTINGS_COLOR)
            .footer(s("Configure server-wide settings below"));
        m = m.row(SettingsRow::RoleSelect {
            id: s("server_settings_runner_role"),
            placeholder: s("Select runner role"),
            default: runner,
        });
        m = m.row(SettingsRow::RoleSelect {
            id: s("server_settings_admin_role"),
            placeholder: s("Select admin role"),
            default: admin,
        });
        m = m.row(SettingsRow::StringSelect {
            id: s("server_settings_balance"),
            placeholder: s("Team balance method..."),
            options: balance_options(),
        });
        let ghost before = m@.rows;
        if self.toggle_states.len() > 0 {
            m = m.row(toggle_row(&self.toggle_states));
        }
        let ghost mid = m@.rows;
        m = m.row(three_buttons(
            SettingsButton::action(s("server_settings_edit_post_game_confirm_time"), s("Edit post-game timeout"), SettingsButtonStyle::Secondary),
            SettingsButton::action(s("server_settings_create_roles"), s("Create roles"), SettingsButtonStyle::Primary),
            SettingsButton::action(s("server_settings_roles_back"), s("Back"), SettingsButtonStyle::Secondary),
        ));
        proof {
            let want = server_config_rows(runner, admin, self.toggle_states@);
            if self.toggle_states@.len() == 0 {
                assert(mid =~= before);
            }
            assert(m@.rows =~= want);
            assert(m@.fields =~= server_config_page(*self).fields);
        }
        m
    }
}

/// A category as the category list shows it.
pub struct CategoryEntry {
    pub id: u8,
    /// Display name of the category
    pub name: String,
    /// Its queue voice channel, which tells categories apart
    pub queue_vc: u64,
}

/// The value that selects a category: `{id}_{queue_vc}`.
pub open spec fn category_value(c: CategoryEntry) -> Seq<char> {
    dec(c.id as nat) + "_"@ + dec(c.queue_vc as nat)
}

/// The category list for the server settings.
pub struct CategoryListDisplay {
    pub guild_name: String,
    pub categories: Vec<CategoryEntry>,
}

/// The list of categories: `- {name}` lines after a heading.
pub open spec fn category_list_text(cs: Seq<CategoryEntry>) -> Seq<char>
    decreases cs.len(),
{
    if cs.len() == 0 {
        "**Active categories:**\n"@
    } else {
        category_list_text(cs.drop_last()) + "- "@ + cs.last().name@ + "\n"@
    }
}

/// The (name, value) options of the category select.
pub open spec fn category_options(cs: Seq<CategoryEntry>) -> Seq<(Seq<char>, Seq<char>)> {
    cs.map_values(|c: CategoryEntry| (c.name@, category_value(c)))
}

/// The buttons under the category list.
pub open spec fn category_list_buttons(has: bool) -> Seq<ButtonView> {
    let create = btn("server_settings_create_category"@, "Create a category"@, SettingsButtonStyle::Primary);
    let back = btn("server_settings_categories_back"@, "Back"@, SettingsButtonStyle::Secondary);
    if has {
        seq![create, btn("server_settings_remove_category"@, "Remove a category"@, SettingsButtonStyle::Danger), back]
    } else {
        seq![create, back]
    }
}

/// The category list page.
pub open spec fn category_list_page(d: CategoryListDisplay) -> MenuView {
    let cs = d.categories@;
    let select = if cs.len() == 0 {
        Seq::empty()
    } else {
        seq![RowView::StringSelect {
            id: "server_settings_category_select"@,
            placeholder: "Select category to configure"@,
            options: category_options(cs),
        }]
    };
    MenuView {
        title: d.guild_name@ + " - Manage Categories"@,
        description: Some(category_list_text(cs)),
        color: SETTINGS_COLOR,
        fields: Seq::empty(),
        rows: select + seq![RowView::Buttons(category_list_buttons(cs.len() > 0))],
        footer: Some("Select a category below to edit"@),
    }
}

fn category_value_string(c: &CategoryEntry) -> (r: String)
    ensures
        r@ == category_value(*c),
{
    let mut x = String::new();
    push_dec(&mut x, c.id as u64);
    x.append("_");
    push_dec(&mut x, c.queue_vc);
    assert(x@ =~= category_value(*c));
    x
}

impl CategoryListDisplay {
    fn options(&self) -> (r: Vec<(String, String)>)
        ensures
            options_view(r@) == category_options(self.categories@),
    {
        let n = self.categories.len();
        let mut v: Vec<(String, String)> = Vec::new();
        let mut i: usize = 0;
        while i < n
            invariant
                n == self.categories@.len(),
                i <= n,
                v@.len() == i,
                forall|k: int| 0 <= k < i ==> (#[trigger] v@[k]).0@ == self.categories@[k].name@
                    && v@[k].1@ == category_value(self.categories@[k]),
            decreases n - i,
        {
            let c = &self.categories[i];
            v.push((c.name.clone(), category_value_string(c)));
            i = i + 1;
        }
        assert(options_view(v@) =~= category_options(self.categories@));
        v
    }

    fn list_text(&self) -> (r: String)
        ensures
            r@ == category_list_text(self.categories@),
    {
        let n = self.categories.len();
        let mut x = s("**Active categories:**\n");
        let mut i: usize = 0;
        while i < n
            invariant
                n == self.categories@.len(),
                i <= n,
                x@ == category_list_text(self.categories@.take(i as int)),
            decreases n - i,
        {
            let ghost t = self.categories@.take(i as int + 1);
            assert(t.drop_last() =~= self.categories@.take(i as int));
            x.append("- ");
            x.append(self.categories[i].name.as_str());
            x.append("\n");
            i = i + 1;
        }
        assert(self.categories@.take(n as int) =~= self.categories@);
        x
    }

    fn buttons(&self) -> (r: SettingsRow)
        ensures
            r@ == RowView::Buttons(category_list_buttons(self.categories@.len() > 0)),
    {
        let create = SettingsButton::action(s("server_settings_create_category"), s("Create a category"), SettingsButtonStyle::Primary);
        let back = SettingsButton::action(s("server_settings_categories_back"), s("Back"), SettingsButtonStyle::Secondary);
        if self.categories.len() > 0 {
            three_buttons(create, SettingsButton::action(s("server_settings_remove_category"), s("Remove a category"), SettingsButtonStyle::Danger), back)
        } else {
            two_buttons(create, back)
        }
    }

    /// The component rows: the category choice, offered in the way that
    /// suits the number of categories, then the buttons.
    pub fn build_components(&self) -> (r: Vec<SettingsRow>)
        ensures
            r@.map_values(|x: SettingsRow| x@) == (match selection_spec(
                "server_settings_category_select"@,
                "Select category to configure"@,
                category_options(self.categories@),
            ) {
                Some(row) => seq![row],
                None => Seq::empty(),
            }) + seq![RowView::Buttons(category_list_buttons(self.categories@.len() > 0))],
    {
        let mut v: Vec<SettingsRow> = Vec::new();
        if self.categories.len() > 0 {
            match create_selection_menu("server_settings_category_select", "Select category to configure", self.options()) {
                Some(row) => v.push(row),
                None => {},
            }
        }
        let ghost before = v@;
        v.push(self.buttons());
        proof {
            if self.categories@.len() == 0 {
                assert(category_options(self.categories@) =~= Seq::<(Seq<char>, Seq<char>)>::empty());
            }
            assert(v@ == before.push(v@.last()));
        }
        assert(v@.map_values(|x: SettingsRow| x@) =~= (match selection_spec(
            "server_settings_category_select"@,
            "Select category to configure"@,
            category_options(self.categories@),
        ) {
            Some(row) => seq![row],
            None => Seq::empty(),
        }) + seq![RowView::Buttons(category_list_buttons(self.categories@.len() > 0))]);
        v
    }
}

impl AsSettingsMenu for CategoryListDisplay {
    fn as_settings_menu(&self) -> (r: SettingsMenu)
        ensures
            r@ == category_list_page(*self),
    {
        let mut title = self.guild_name.clone();
        title.append(" - Manage Categories");
        let mut m = SettingsMenu::new(title)
            .description(self.list_text())
            .color(SETTINGS_COLOR)
            .footer(s("Select a category below to edit"));
        if self.categories.len() > 0 {
            m = m.row(SettingsRow::StringSelect {
                id: s("server_settings_category_select"),
                placeholder: s("Select category to configure"),
                options: self.options(),
            });
        }
        m = m.row(self.buttons());
        assert(m@.rows =~= category_list_page(*self).rows);
        m
    }
}

/// Category settings for display.
pub struct CategorySettingsDisplay {
    pub category_id: u8,
    pub name: Option<String>,
    pub quota: u8,
    pub confirm_time: u16,
    pub connect_info: Option<String>,
    pub format_names: Vec<String>,
    pub vc_create: String,
    pub vc_destroy: String,
    pub vc_keep_min: bool,
}

/// The name a category is shown under: its own, or `Category {id}`.
pub open spec fn category_display_name(name: Option<String>, id: u8) -> Seq<char> {
    match name {
        Some(n) => n@,
        None => "Category "@ + dec(id as nat),
    }
}

/// Connect info as shown: in backticks, or `-` when missing or blank.
pub open spec fn connect_display(info: Option<String>) -> Seq<char> {
    match info {
        Some(c) => if is_blank(c@) { "-"@ } else { "`"@ + c@ + "`"@ },
        None => "-"@,
    }
}

/// Names as `- {name}` lines joined by line feeds.
pub open spec fn dash_lines(ns: Seq<String>) -> Seq<char>
    decreases ns.len(),
{
    if ns.len() == 0 {
        Seq::empty()
    } else if ns.len() == 1 {
        "- "@ + ns[0]@
    } else {
        dash_lines(ns.drop_last()) + "\n- "@ + ns.last()@
    }
}

/// The category settings page.
pub open spec fn category_settings_page(d: CategorySettingsDisplay) -> MenuView {
    let name = category_display_name(d.name, d.category_id);
    let gid = d.category_id;
    let formats = if d.format_names@.len() == 0 { "None"@ } else { dash_lines(d.format_names@) };
    MenuView {
        title: name + " Settings"@,
        description: None,
        color: SETTINGS_COLOR,
        fields: seq![
            FieldView { name: "Name"@, value: name, inline: true },
            FieldView { name: "Quota"@, value: dec(d.quota as nat) + " players"@, inline: true },
            FieldView { name: "Confirm expiry"@, value: dec(d.confirm_time as nat) + " seconds"@, inline: true },
            FieldView { name: "Connect info"@, value: connect_display(d.connect_info), inline: false },
            FieldView { name: "Formats"@, value: formats, inline: false },
            FieldView { name: "Team VC create"@, value: d.vc_create@, inline: true },
            FieldView { name: "Team VC destroy"@, value: d.vc_destroy@, inline: true },
            FieldView { name: "Keep minimum VCs"@, value: if d.vc_keep_min { "Yes"@ } else { "No"@ }, inline: true },
        ],
        rows: seq![
            RowView::Buttons(seq![
                btn(category_button_id("edit_name"@, gid), "Name"@, SettingsButtonStyle::Primary),
                btn(category_button_id("edit_quota"@, gid), "Quota"@, SettingsButtonStyle::Primary),
                btn(category_button_id("edit_confirm_time"@, gid), "Confirm expiry"@, SettingsButtonStyle::Primary),
            ]),
            RowView::Buttons(seq![
                btn(category_button_id("edit_connect"@, gid), "Connect info"@, SettingsButtonStyle::Primary),
                btn(category_button_id("formats"@, gid), "Formats"@, SettingsButtonStyle::Primary),
                btn(category_button_id("link_message"@, gid), "Re-link dashboard"@, SettingsButtonStyle::Success),
            ]),
            RowView::Buttons(seq![
                btn(category_button_id("edit_vc_create"@, gid), "VC create"@, SettingsButtonStyle::Primary),
                btn(category_button_id("edit_vc_destroy"@, gid), "VC destroy"@, SettingsButtonStyle::Primary),
                btn(category_button_id("edit_vc_keepmin"@, gid), "Keep min VCs"@, SettingsButtonStyle::Primary),
            ]),
            RowView::Buttons(seq![
                btn(category_button_id("elo_gate"@, gid), "ELO gate"@, SettingsButtonStyle::Primary),
                btn("server_settings_categories"@, "Back"@, SettingsButtonStyle::Secondary),
            ]),
        ],
        footer: None,
    }
}

fn with_suffix(n: u64, suffix: &str) -> (r: String)
    ensures
        r@ == dec(n as nat) + suffix@,
{
    let mut x = String::new();
    push_dec(&mut x, n);
    x.append(suffix);
    assert(x@ =~= dec(n as nat) + suffix@);
    x
}

impl CategorySettingsDisplay {
    fn name_display(&self) -> (r: String)
        ensures
            r@ == category_display_name(self.name, self.category_id),
    {
        match &self.name {
            Some(n) => n.clone(),
            None => {
                let mut x = s("Category ");
                push_dec(&mut x, self.category_id as u64);
                x
            },
        }
    }

    fn connect_text(&self) -> (r: String)
        ensures
            r@ == connect_display(self.connect_info),
    {
        match &self.connect_info {
            Some(c) => {
                if blank(c.as_str()) {
                    s("-")
                } else {
                    let mut x = s("`");
                    x.append(c.as_str());
                    x.append("`");
                    x
                }
            },
            None => s("-"),
        }
    }

    fn formats_text(&self) -> (r: String)
        ensures
            r@ == (if self.format_names@.len() == 0 { "None"@ } else { dash_lines(self.format_names@) }),
    {
        let n = self.format_names.len();
        if n == 0 {
            return s("None");
        }
        let mut x = s("- ");
        x.append(self.format_names[0].as_str());
        let mut i: usize = 1;
        assert(self.format_names@.take(1).len() == 1);
        while i < n
            invariant
                n == self.format_names@.len(),
                1 <= i <= n,
                x@ == dash_lines(self.format_names@.take(i as int)),
            decreases n - i,
        {
            let ghost t = self.format_names@.take(i as int + 1);
            assert(t.drop_last() =~= self.format_names@.take(i as int));
            x.append("\n- ");
            x.append(self.format_names[i].as_str());
            i = i + 1;
        }
        assert(self.format_names@.take(n as int) =~= self.format_names@);
        x
    }
}

impl AsSettingsMenu for CategorySettingsDisplay {
    fn as_settings_menu(&self) -> (r: SettingsMenu)
        ensures
            r@ == category_settings_page(*self),
    {
        let gid = self.category_id;
        let name = self.name_display();
        let mut title = name.clone();
        title.append(" Settings");
        let keep = if self.vc_keep_min { s("Yes") } else { s("No") };
        let m = SettingsMenu::new(title)
            .field(SettingsField::new(s("Name"), name))
            .field(SettingsField::new(s("Quota"), with_suffix(self.quota as u64, " players")))
            .field(SettingsField::new(s("Confirm expiry"), with_suffix(self.confirm_time as u64, " seconds")))
            .field(SettingsField::new(s("Connect info"), self.connect_text()).inline(false))
            .field(SettingsField::new(s("Formats"), self.formats_text()).inline(false))
            .field(SettingsField::new(s("Team VC create"), self.vc_create.clone()))
            .field(SettingsField::new(s("Team VC destroy"), self.vc_destroy.clone()))
            .field(SettingsField::new(s("Keep minimum VCs"), keep))
            .color(SETTINGS_COLOR)
            .row(three_buttons(
                SettingsButton::category_edit("edit_name", s("Name"), gid),
                SettingsButton::category_edit("edit_quota", s("Quota"), gid),
                SettingsButton::category_edit("edit_confirm_time", s("Confirm expiry"), gid),
            ))
            .row(three_buttons(
                SettingsButton::category_edit("edit_connect", s("Connect info"), gid),
                SettingsButton::category_action("formats", s("Formats"), SettingsButtonStyle::Primary, gid),
                SettingsButton::category_action("link_message", s("Re-link dashboard"), SettingsButtonStyle::Success, gid),
            ))
            .row(three_buttons(
                SettingsButton::category_edit("edit_vc_create", s("VC create"), gid),
                SettingsButton::category_edit("edit_vc_destroy", s("VC destroy"), gid),
                SettingsButton::category_edit("edit_vc_keepmin", s("Keep min VCs"), gid),
            ))
            .row(two_buttons(
                SettingsButton::category_action("elo_gate", s("ELO gate"), SettingsButtonStyle::Primary, gid),
                SettingsButton::action(s("server_settings_categories"), s("Back"), SettingsButtonStyle::Secondary),
            ));
        assert(m@.fields =~= category_settings_page(*self).fields);
        assert(m@.rows =~= category_settings_page(*self).rows);
        m
    }
}

/// The formats of a category, for its format settings.
pub struct FormatListDisplay {
    pub category_id: u8,
    pub category_name: String,
    /// (id, name, quota) of each format
    pub formats: Vec<(u8, String, u8)>,
}

/// One line per format: `- **{name}** (quota: {quota}, id: {id})`.
pub open spec fn format_lines(fs: Seq<(u8, String, u8)>) -> Seq<char>
    decreases fs.len(),
{
    if fs.len() == 0 {
        Seq::empty()
    } else {
        let f = fs.last();
        format_lines(fs.drop_last()) + "- **"@ + f.1@ + "** (quota: "@ + dec(f.2 as nat) + ", id: "@
            + dec(f.0 as nat) + ")\n"@
    }
}

/// The description of the format list.
pub open spec fn format_list_text(fs: Seq<(u8, String, u8)>) -> Seq<char> {
    if fs.len() == 0 { "*No formats configured.*\n"@ } else { format_lines(fs) }
}

/// Formats offered for editing: (`{name} (quota: {quota})`, `{category}_{id}`).
pub open spec fn format_options(gid: u8, fs: Seq<(u8, String, u8)>) -> Seq<(Seq<char>, Seq<char>)> {
    fs.map_values(|f: (u8, String, u8)| (
        f.1@ + " (quota: "@ + dec(f.2 as nat) + ")"@,
        dec(gid as nat) + "_"@ + dec(f.0 as nat),
    ))
}

/// The buttons of the format list: add while fewer than three formats,
/// remove while more than one, and back.
pub open spec fn format_list_buttons(gid: u8, count: nat) -> Seq<ButtonView> {
    let add = if count < 3 {
        seq![btn("category_fmt_add_"@ + dec(gid as nat), "Add format"@, SettingsButtonStyle::Primary)]
    } else {
        Seq::empty()
    };
    let remove = if count > 1 {
        seq![btn("category_fmt_remove_"@ + dec(gid as nat), "Remove format"@, SettingsButtonStyle::Danger)]
    } else {
        Seq::empty()
    };
    add + remove + seq![btn("category_fmt_back_"@ + dec(gid as nat), "Back"@, SettingsButtonStyle::Secondary)]
}

fn prefixed_id(prefix: &str, n: u8) -> (r: String)
    ensures
        r@ == prefix@ + dec(n as nat),
{
    let mut x = s(prefix);
    push_dec(&mut x, n as u64);
    x
}

impl FormatListDisplay {
    /// The embed of the format list, as a page without rows.
    pub fn build_embed(&self) -> (r: SettingsMenu)
        ensures
            r@ == (MenuView {
                title: self.category_name@ + " - Formats"@,
                description: Some(format_list_text(self.formats@)),
                color: SETTINGS_COLOR,
                fields: Seq::empty(),
                rows: Seq::empty(),
                footer: Some("Manage formats for this category"@),
            }),
    {
        let n = self.formats.len();
        let mut d = String::new();
        let mut i: usize = 0;
        while i < n
            invariant
                n == self.formats@.len(),
                i <= n,
                d@ == format_lines(self.formats@.take(i as int)),
            decreases n - i,
        {
            let ghost t = self.formats@.take(i as int + 1);
            assert(t.drop_last() =~= self.formats@.take(i as int));
            let f = &self.formats[i];
            d.append("- **");
            d.append(f.1.as_str());
            d.append("** (quota: ");
            push_dec(&mut d, f.2 as u64);
            d.append(", id: ");
            push_dec(&mut d, f.0 as u64);
            d.append(")\n");
            i = i + 1;
        }
        assert(self.formats@.take(n as int) =~= self.formats@);
        if n == 0 {
            d = s("*No formats configured.*\n");
        }
        let mut title = self.category_name.clone();
        title.append(" - Formats");
        SettingsMenu::new(title)
            .description(d)
            .color(SETTINGS_COLOR)
            .footer(s("Manage formats for this category"))
    }

    fn options(&self) -> (r: Vec<(String, String)>)
        ensures
            options_view(r@) == format_options(self.category_id, self.formats@),
    {
        let n = self.formats.len();
        let mut v: Vec<(String, String)> = Vec::new();
        let mut i: usize = 0;
        while i < n
            invariant
                n == self.formats@.len(),
                i <= n,
                v@.len() == i,
                forall|k: int| 0 <= k < i ==> (#[trigger] options_view(v@)[k]) == format_options(self.category_id, self.formats@)[k],
            decreases n - i,
        {
            let f = &self.formats[i];
            let mut label = f.1.clone();
            label.append(" (quota: ");
            push_dec(&mut label, f.2 as u64);
            label.append(")");
            let mut value = String::new();
            push_dec(&mut value, self.category_id as u64);
            value.append("_");
            push_dec(&mut value, f.0 as u64);
            let ghost before = v@;
            v.push((label, value));
            proof {
                assert forall|k: int| 0 <= k < i + 1 implies (#[trigger] options_view(v@)[k]) == format_options(self.category_id, self.formats@)[k] by {
                    if k < i {
                        assert(v@[k] == before[k]);
                        assert(options_view(before)[k] == format_options(self.category_id, self.formats@)[k]);
                    }
                }
            }
            i = i + 1;
        }
        assert(options_view(v@) =~= format_options(self.category_id, self.formats@));
        v
    }

    /// The component rows: the buttons, then the choice of a format to
    /// edit when there is one.
    pub fn build_components(&self) -> (r: Vec<SettingsRow>)
        ensures
            r@.map_values(|x: SettingsRow| x@) == seq![RowView::Buttons(format_list_buttons(self.category_id, self.formats@.len()))]
                + (match selection_spec("category_fmt_edit"@, "Select format to edit"@, format_options(self.category_id, self.formats@)) {
                    Some(row) => seq![row],
                    None => Seq::empty(),
                }),
    {
        let gid = self.category_id;
        let n = self.formats.len();
        let mut buttons: Vec<SettingsButton> = Vec::new();
        if n < 3 {
            buttons.push(SettingsButton::action(prefixed_id("category_fmt_add_", gid), s("Add format"), SettingsButtonStyle::Primary));
        }
        if n > 1 {
            buttons.push(SettingsButton::action(prefixed_id("category_fmt_remove_", gid), s("Remove format"), SettingsButtonStyle::Danger));
        }
        buttons.push(SettingsButton::action(prefixed_id("category_fmt_back_", gid), s("Back"), SettingsButtonStyle::Secondary));
        assert(buttons_view(buttons@) =~= format_list_buttons(gid, n as nat));
        let mut v: Vec<SettingsRow> = Vec::new();
        v.push(SettingsRow::Buttons(buttons));
        let ghost first = v@;
        if n > 0 {
            match create_selection_menu("category_fmt_edit", "Select format to edit", self.options()) {
                Some(row) => v.push(row),
                None => {},
            }
        }
        proof {
            if n == 0 {
                assert(format_options(gid, self.formats@) =~= Seq::<(Seq<char>, Seq<char>)>::empty());
            }
        }
        assert(v@.map_values(|x: SettingsRow| x@) =~= seq![RowView::Buttons(format_list_buttons(self.category_id, self.formats@.len()))]
            + (match selection_spec("category_fmt_edit"@, "Select format to edit"@, format_options(self.category_id, self.formats@)) {
                Some(row) => seq![row],
                None => Seq::empty(),
            }));
        v
    }
}

} // verus!
