//! The role page and the group pages (groups being the earlier name of
//! queue categories) of the server settings.

use vstd::prelude::*;
use vstd::string::*;
use crate::text::{dec, push_dec};
use crate::parse::{split_spec, split_on};
use crate::nav_pages::{role_default, role_default_spec, opt_chars};
use crate::settings::{
    btn, create_selection_menu, options_view, selection_spec, ButtonView, Ephemeral, FieldView, MenuView, RowView,
    SettingsButton, SettingsButtonStyle, SettingsField, SettingsMenu, SettingsRow, SETTINGS_COLOR,
};
use crate::settings_pages::AsSettingsMenu;

verus! {

fn s(lit: &str) -> (r: String)
    ensures
        r@ == lit@,
{
    String::from_str(lit)
}

/// The runner and admin roles as configured (comma-separated role ids).
pub struct RoleConfigDisplay {
    pub guild_name: String,
    pub runner_role: Option<String>,
    pub admin_role: Option<String>,
}

/// The mentions of the roles `ids`, joined by `, `.
pub open spec fn mentions(ids: Seq<Seq<char>>) -> Seq<char>
    decreases ids.len(),
{
    if ids.len() == 0 {
        Seq::empty()
    } else if ids.len() == 1 {
        "<@&"@ + ids[0] + ">"@
    } else {
        mentions(ids.drop_last()) + ", "@ + "<@&"@ + ids.last() + ">"@
    }
}

/// A role setting as shown: the mention of each comma-separated id, or
/// `*Not configured*`.
pub open spec fn role_display(o: Option<Seq<char>>) -> Seq<char> {
    match o {
        Some(ids) => mentions(split_spec(ids, ',')),
        None => "*Not configured*"@,
    }
}

/// The role page's embed.
pub open spec fn role_page(d: RoleConfigDisplay) -> MenuView {
    MenuView {
        title: d.guild_name@ + " - Manage Roles"@,
        description: None,
        color: SETTINGS_COLOR,
        fields: seq![
            FieldView { name: "Runner Role"@, value: role_display(opt_chars(d.runner_role)), inline: true },
            FieldView { name: "Admin Role"@, value: role_display(opt_chars(d.admin_role)), inline: true },
        ],
        rows: Seq::empty(),
        footer: Some("Select roles below or use Create Roles to auto-generate"@),
    }
}

/// The role page's rows: the runner and admin role selects, preselecting
/// the configured role, then the Create roles and Back buttons.
pub open spec fn role_rows(d: RoleConfigDisplay) -> Seq<RowView> {
    seq![
        RowView::RoleSelect {
            id: "server_settings_runner_role"@,
            placeholder: "Select Runner Role"@,
            default: role_default_spec(opt_chars(d.runner_role)),
        },
        RowView::RoleSelect {
            id: "server_settings_admin_role"@,
            placeholder: "Select Admin Role"@,
            default: role_default_spec(opt_chars(d.admin_role)),
        },
        RowView::Buttons(seq![
            btn("server_settings_create_roles"@, "Create roles"@, SettingsButtonStyle::Primary),
            btn("server_settings_roles_back"@, "Back"@, SettingsButtonStyle::Secondary),
        ]),
    ]
}

fn role_display_string(o: &Option<String>) -> (r: String)
    ensures
        r@ == role_display(opt_chars(*o)),
{
    match o {
        Some(ids) => {
            let parts = split_on(ids.as_str(), ',');
            let ghost pv = parts@.map_values(|x: String| x@);
            let n = parts.len();
            let mut out = String::new();
            let mut i: usize = 0;
            while i < n
                invariant
                    n == parts@.len(),
                    pv == parts@.map_values(|x: String| x@),
                    i <= n,
                    out@ == mentions(pv.take(i as int)),
                decreases n - i,
            {
                assert(pv.take(i as int + 1).drop_last() =~= pv.take(i as int));
                assert(pv.take(i as int + 1).last() == parts@[i as int]@);
                if i > 0 {
                    out.append(", ");
                }
                out.append("<@&");
                out.append(parts[i].as_str());
                out.append(">");
                proof {
                    if i == 0 {
                        assert(pv.take(1) =~= seq![parts@[0]@]);
                    }
                }
                i = i + 1;
            }
            assert(pv.take(n as int) =~= pv);
            out
        },
        None => s("*Not configured*"),
    }
}

impl RoleConfigDisplay {
    /// The role page's embed.
    pub fn build_embed(&self) -> (r: SettingsMenu)
        ensures
            r@ == role_page(*self),
    {
        let mut title = self.guild_name.clone();
        title.append(" - Manage Roles");
        let m = SettingsMenu::new(title)
            .field(SettingsField::new(s("Runner Role"), role_display_string(&self.runner_role)))
            .field(SettingsField::new(s("Admin Role"), role_display_string(&self.admin_role)))
            .color(SETTINGS_COLOR)
            .footer(s("Select roles below or use Create Roles to auto-generate"));
        assert(m@.fields =~= role_page(*self).fields);
        m
    }

    /// The role page's rows.
    pub fn build_components(&self) -> (r: Vec<SettingsRow>)
        ensures
            r@.map_values(|x: SettingsRow| x@) == role_rows(*self),
    {
        let runner = SettingsRow::RoleSelect {
            id: s("server_settings_runner_role"),
            placeholder: s("Select Runner Role"),
            default: role_default(&self.runner_role),
        };
        let admin = SettingsRow::RoleSelect {
            id: s("server_settings_admin_role"),
            placeholder: s("Select Admin Role"),
            default: role_default(&self.admin_role),
        };
        let bs = vec![
            SettingsButton::action(s("server_settings_create_roles"), s("Create roles"), SettingsButtonStyle::Primary),
            Ephemeral::back(s("server_settings_roles_back")),
        ];
        assert(crate::settings::buttons_view(bs@) =~= seq![
            btn("server_settings_create_roles"@, "Create roles"@, SettingsButtonStyle::Primary),
            btn("server_settings_roles_back"@, "Back"@, SettingsButtonStyle::Secondary),
        ]);
        let v = vec![runner, admin, SettingsRow::Buttons(bs)];
        assert(v@.map_values(|x: SettingsRow| x@) =~= role_rows(*self));
        v
    }
}

/// A group as the group list shows it.
pub struct GroupEntry {
    pub group_id: u8,
    /// The name the group is shown under
    pub name: String,
    /// Its queue voice channel, which tells groups apart
    pub queue_vc: u64,
}

/// The group list of the server settings.
pub struct GroupListDisplay {
    pub guild_name: String,
    pub groups: Vec<GroupEntry>,
}

/// The list of groups: `- {name}` lines after a heading.
pub open spec fn group_list_text(gs: Seq<GroupEntry>) -> Seq<char>
    decreases gs.len(),
{
    if gs.len() == 0 {
        "**Active groups:**\n"@
    } else {
        group_list_text(gs.drop_last()) + "- "@ + gs.last().name@ + "\n"@
    }
}

/// The (name, `{group}_{queue_vc}`) options of the group select.
pub open spec fn group_options(gs: Seq<GroupEntry>) -> Seq<(Seq<char>, Seq<char>)> {
    gs.map_values(|g: GroupEntry| (g.name@, dec(g.group_id as nat) + "_"@ + dec(g.queue_vc as nat)))
}

/// The buttons under the group list.
pub open spec fn group_list_buttons(has: bool) -> Seq<ButtonView> {
    let create = btn("server_settings_create_group"@, "Create New Group"@, SettingsButtonStyle::Primary);
    let back = btn("server_settings_groups_back"@, "Back"@, SettingsButtonStyle::Secondary);
    if has {
        seq![create, btn("server_settings_remove_group"@, "Remove Group"@, SettingsButtonStyle::Danger), back]
    } else {
        seq![create, back]
    }
}

impl GroupListDisplay {
    /// The group list's embed.
    pub fn build_embed(&self) -> (r: SettingsMenu)
        ensures
            r@ == (MenuView {
                title: self.guild_name@ + " - Manage Groups"@,
                description: Some(group_list_text(self.groups@)),
                color: SETTINGS_COLOR,
                fields: Seq::empty(),
                rows: Seq::empty(),
                footer: Some("Select a group below to edit"@),
            }),
    {
        let n = self.groups.len();
        let mut x = s("**Active groups:**\n");
        let mut i: usize = 0;
        while i < n
            invariant
                n == self.groups@.len(),
                i <= n,
                x@ == group_list_text(self.groups@.take(i as int)),
            decreases n - i,
        {
            assert(self.groups@.take(i as int + 1).drop_last() =~= self.groups@.take(i as int));
            x.append("- ");
            x.append(self.groups[i].name.as_str());
            x.append("\n");
            i = i + 1;
        }
        assert(self.groups@.take(n as int) =~= self.groups@);
        let mut title = self.guild_name.clone();
        title.append(" - Manage Groups");
        SettingsMenu::new(title).description(x).color(SETTINGS_COLOR).footer(s("Select a group below to edit"))
    }

    /// The group list's rows: the group choice, offered in the way that
    /// suits the number of groups, then the buttons.
    pub fn build_components(&self) -> (r: Vec<SettingsRow>)
        ensures
            r@.map_values(|x: SettingsRow| x@) == (match selection_spec(
                "server_settings_group_select"@,
                "Select group to configure"@,
                group_options(self.groups@),
            ) {
                Some(row) => seq![row],
                None => Seq::empty(),
            }) + seq![RowView::Buttons(group_list_buttons(self.groups@.len() > 0))],
    {
        let n = self.groups.len();
        let mut opts: Vec<(String, String)> = Vec::new();
        let mut i: usize = 0;
        while i < n
            invariant
                n == self.groups@.len(),
                i <= n,
                options_view(opts@) == group_options(self.groups@.take(i as int)),
            decreases n - i,
        {
            let g = &self.groups[i];
            let mut value = String::new();
            push_dec(&mut value, g.group_id as u64);
            value.append("_");
            push_dec(&mut value, g.queue_vc);
            let ghost before = options_view(opts@);
            opts.push((g.name.clone(), value));
            assert(options_view(opts@) =~= before.push((g.name@, value@)));
            assert(self.groups@.take(i as int + 1) =~= self.groups@.take(i as int).push(*g));
            assert(group_options(self.groups@.take(i as int + 1)) =~= group_options(self.groups@.take(i as int)).push((g.name@, value@)));
            i = i + 1;
        }
        assert(self.groups@.take(n as int) =~= self.groups@);
        let mut v: Vec<SettingsRow> = Vec::new();
        if n > 0 {
            match create_selection_menu("server_settings_group_select", "Select group to configure", opts) {
                Some(row) => v.push(row),
                None => {},
            }
        }
        proof {
            if n == 0 {
                assert(group_options(self.groups@) =~= Seq::<(Seq<char>, Seq<char>)>::empty());
            }
        }
        let create = SettingsButton::action(s("server_settings_create_group"), s("Create New Group"), SettingsButtonStyle::Primary);
        let back = Ephemeral::back(s("server_settings_groups_back"));
        let bs = if n > 0 {
            vec![create, SettingsButton::action(s("server_settings_remove_group"), s("Remove Group"), SettingsButtonStyle::Danger), back]
        } else {
            vec![create, back]
        };
        assert(crate::settings::buttons_view(bs@) =~= group_list_buttons(n > 0));
        let ghost before = v@;
        v.push(SettingsRow::Buttons(bs));
        assert(v@.map_values(|x: SettingsRow| x@) =~= before.map_values(|x: SettingsRow| x@).push(RowView::Buttons(group_list_buttons(n > 0))));
        v
    }
}

/// A group's settings as its page shows them, with its team balance
/// method's name.
pub struct GroupSettingsDisplay {
    pub group_id: u8,
    pub name: Option<String>,
    pub quota: u8,
    pub timeout: u16,
    pub connect_info: Option<String>,
    pub team_balance: String,
}

/// The name a group is shown under: its own, or `Group {id}`.
pub open spec fn group_name(d: GroupSettingsDisplay) -> Seq<char> {
    match d.name {
        Some(n) => n@,
        None => "Group "@ + dec(d.group_id as nat),
    }
}

/// A group's settings page.
pub open spec fn group_settings_page(d: GroupSettingsDisplay) -> MenuView {
    let gid = dec(d.group_id as nat);
    MenuView {
        title: group_name(d) + " Settings"@,
        description: None,
        color: SETTINGS_COLOR,
        fields: seq![
            FieldView { name: "Name"@, value: group_name(d), inline: true },
            FieldView { name: "Quota"@, value: dec(d.quota as nat) + " players"@, inline: true },
            FieldView { name: "Hot Join Timeout"@, value: dec(d.timeout as nat) + " seconds"@, inline: true },
            FieldView {
                name: "Connect Info"@,
                value: match d.connect_info { Some(c) => "`"@ + c@ + "`"@, None => "*Not configured*"@ },
                inline: false,
            },
            FieldView { name: "Team Balance"@, value: d.team_balance@, inline: true },
        ],
        rows: seq![
            RowView::Buttons(seq![
                btn("group_settings_edit_name_"@ + gid, "Edit Name"@, SettingsButtonStyle::Primary),
                btn("group_settings_edit_quota_"@ + gid, "Edit Quota"@, SettingsButtonStyle::Primary),
                btn("group_settings_edit_timeout_"@ + gid, "Edit Timeout"@, SettingsButtonStyle::Primary),
            ]),
            RowView::Buttons(seq![
                btn("group_settings_edit_connect_"@ + gid, "Edit Connect Info"@, SettingsButtonStyle::Primary),
                btn("group_settings_link_message_"@ + gid, "Link Message"@, SettingsButtonStyle::Success),
            ]),
            RowView::StringSelect {
                id: "group_settings_balance_"@ + gid,
                placeholder: "Select team balance method..."@,
                options: seq![("BCH"@, "bch"@), ("Average"@, "average"@)],
            },
        ],
        footer: None,
    }
}

fn with_id(prefix: &str, id: u8) -> (r: String)
    ensures
        r@ == prefix@ + dec(id as nat),
{
    let mut x = s(prefix);
    push_dec(&mut x, id as u64);
    x
}

fn with_unit(n: u64, unit: &str) -> (r: String)
    ensures
        r@ == dec(n as nat) + unit@,
{
    let mut x = String::new();
    push_dec(&mut x, n);
    x.append(unit);
    x
}

impl AsSettingsMenu for GroupSettingsDisplay {
    fn as_settings_menu(&self) -> (r: SettingsMenu)
        ensures
            r@ == group_settings_page(*self),
    {
        let name = match &self.name {
            Some(n) => n.clone(),
            None => with_id("Group ", self.group_id),
        };
        let connect = match &self.connect_info {
            Some(c) => {
                let mut x = s("`");
                x.append(c.as_str());
                x.append("`");
                x
            },
            None => s("*Not configured*"),
        };
        let mut title = name.clone();
        title.append(" Settings");
        let gid = self.group_id;
        let row1 = vec![
            SettingsButton::edit(with_id("group_settings_edit_name_", gid), s("Edit Name")),
            SettingsButton::edit(with_id("group_settings_edit_quota_", gid), s("Edit Quota")),
            SettingsButton::edit(with_id("group_settings_edit_timeout_", gid), s("Edit Timeout")),
        ];
        let row2 = vec![
            SettingsButton::edit(with_id("group_settings_edit_connect_", gid), s("Edit Connect Info")),
            SettingsButton::action(with_id("group_settings_link_message_", gid), s("Link Message"), SettingsButtonStyle::Success),
        ];
        let options = vec![(s("BCH"), s("bch")), (s("Average"), s("average"))];
        let ghost expected = group_settings_page(*self);
        assert(crate::settings::buttons_view(row1@) =~= match expected.rows[0] { RowView::Buttons(b) => b, _ => Seq::empty() });
        assert(crate::settings::buttons_view(row2@) =~= match expected.rows[1] { RowView::Buttons(b) => b, _ => Seq::empty() });
        assert(options_view(options@) =~= seq![("BCH"@, "bch"@), ("Average"@, "average"@)]);
        let m = SettingsMenu::new(title)
            .field(SettingsField::new(s("Name"), name))
            .field(SettingsField::new(s("Quota"), with_unit(self.quota as u64, " players")))
            .field(SettingsField::new(s("Hot Join Timeout"), with_unit(self.timeout as u64, " seconds")))
            .field(SettingsField::new(s("Connect Info"), connect).inline(false))
            .field(SettingsField::new(s("Team Balance"), self.team_balance.clone()))
            .color(SETTINGS_COLOR)
            .row(SettingsRow::Buttons(row1))
            .row(SettingsRow::Buttons(row2))
            .row(SettingsRow::StringSelect {
                id: with_id("group_settings_balance_", gid),
                placeholder: s("Select team balance method..."),
                options,
            });
        assert(m@.fields =~= expected.fields);
        assert(m@.rows =~= expected.rows);
        m
    }
}

} // verus!
