//! The rank pages of the server settings: the ranks grouped by ELO with
//! their roles, the choices of the default rank and of the rank to edit,
//! and the page of one rank.

use vstd::prelude::*;
use vstd::string::*;
use crate::text::{dec, push_dec, str_eq};
use crate::settings::{
    btn, options_view, ButtonView, Ephemeral, FieldView, MenuView, RowView, SettingsButton, SettingsButtonStyle,
    SettingsField, SettingsMenu, SettingsRow, SETTINGS_COLOR,
};
use crate::settings_pages::AsSettingsMenu;
use crate::player_menu::{GuildRank, name_count};

verus! {

fn s(lit: &str) -> (r: String)
    ensures
        r@ == lit@,
{
    String::from_str(lit)
}

/// The ranks of a guild for the rank page: (name, ELO, role id) each, the
/// states of the rank toggles, and the default rank's role.
pub struct RankConfigDisplay {
    pub guild_name: String,
    pub rank_roles: Vec<GuildRank>,
    pub toggle_states: Vec<bool>,
    pub default_rank_role: Option<u64>,
}

/// The ranks of `rs` whose ELO is `e`, in order.
pub open spec fn at_elo(rs: Seq<GuildRank>, e: int) -> Seq<GuildRank> {
    rs.filter(|r: GuildRank| r.1 as int == e)
}

/// The role mentions of `rs`, joined by `, `.
pub open spec fn role_mentions(rs: Seq<GuildRank>) -> Seq<char>
    decreases rs.len(),
{
    if rs.len() == 0 {
        Seq::empty()
    } else if rs.len() == 1 {
        "<@&"@ + dec(rs[0].2 as nat) + ">"@
    } else {
        role_mentions(rs.drop_last()) + ", "@ + "<@&"@ + dec(rs.last().2 as nat) + ">"@
    }
}

/// Whether the default rank's role is among `rs`.
pub open spec fn holds_default(rs: Seq<GuildRank>, d: Option<u64>) -> bool {
    exists|k: int| 0 <= k < rs.len() && d == Some((#[trigger] rs[k]).2)
}

/// The line of ELO `e`: `‹**{e}**› {roles}`, with ` (default)` when the
/// default rank is among them; nothing when no rank has that ELO.
pub open spec fn elo_line(rs: Seq<GuildRank>, d: Option<u64>, e: int) -> Seq<char> {
    let g = at_elo(rs, e);
    if g.len() == 0 {
        Seq::empty()
    } else {
        "‹**"@ + dec(e as nat) + "**› "@ + role_mentions(g) + (if holds_default(g, d) { " (default)"@ } else { Seq::empty() }) + "\n"@
    }
}

/// The lines of the ELO values from `e` up, in ascending order.
pub open spec fn elo_lines(rs: Seq<GuildRank>, d: Option<u64>, e: int) -> Seq<char>
    decreases 65536 - e,
{
    if e < 0 || e >= 65536 {
        Seq::empty()
    } else {
        elo_line(rs, d, e) + elo_lines(rs, d, e + 1)
    }
}

/// The description of the rank page.
pub open spec fn rank_description(rs: Seq<GuildRank>, d: Option<u64>) -> Seq<char> {
    if rs.len() == 0 {
        "No ranks configured yet. Click 'Add Rank' to create your first rank."@
    } else {
        elo_lines(rs, d, 0)
    }
}

/// A rank in the default rank choice: its name, with its role id when
/// another rank bears the same name, and marked when it is the default.
pub open spec fn default_option(rs: Seq<GuildRank>, d: Option<u64>, r: GuildRank) -> (Seq<char>, Seq<char>) {
    let is_default = d == Some(r.2);
    let dup = name_count(rs, r.0@) > 1;
    (
        if is_default && dup {
            r.0@ + " (ID "@ + dec(r.2 as nat) + ", current default)"@
        } else if is_default {
            r.0@ + " (current default)"@
        } else if dup {
            r.0@ + " (ID "@ + dec(r.2 as nat) + ")"@
        } else {
            r.0@
        },
        dec(r.2 as nat),
    )
}

/// A rank in the choice of the rank to edit.
pub open spec fn edit_option(rs: Seq<GuildRank>, r: GuildRank) -> (Seq<char>, Seq<char>) {
    (if name_count(rs, r.0@) > 1 { r.0@ + " (ID "@ + dec(r.2 as nat) + ")"@ } else { r.0@ }, dec(r.2 as nat))
}

/// The buttons under the rank choices.
pub open spec fn rank_buttons() -> Seq<ButtonView> {
    seq![
        btn("server_settings_rank_add"@, "Add rank"@, SettingsButtonStyle::Success),
        btn("server_settings_rank_link"@, "Link ranks"@, SettingsButtonStyle::Primary),
        btn("server_settings_ranks_back"@, "Back"@, SettingsButtonStyle::Secondary),
    ]
}

/// The rank choices: the default rank, then the rank to edit (none
/// without ranks).
pub open spec fn rank_selects(rs: Seq<GuildRank>, d: Option<u64>) -> Seq<RowView> {
    if rs.len() == 0 {
        Seq::empty()
    } else {
        seq![
            RowView::StringSelect {
                id: "server_settings_default_rank_select"@,
                placeholder: "Set default rank"@,
                options: rs.map_values(|r: GuildRank| default_option(rs, d, r)),
            },
            RowView::StringSelect {
                id: "server_settings_rank_select"@,
                placeholder: "Select rank to configure"@,
                options: rs.map_values(|r: GuildRank| edit_option(rs, r)),
            },
        ]
    }
}

/// The rank page. The rank toggles are all moved to the server page, so a
/// row of toggles, shown when toggle states are given, is empty.
pub open spec fn rank_page(p: RankConfigDisplay) -> MenuView {
    let rs = p.rank_roles@;
    let toggles = if p.toggle_states@.len() > 0 { seq![RowView::Buttons(Seq::empty())] } else { Seq::empty() };
    MenuView {
        title: p.guild_name@ + " - Manage Ranks"@,
        description: Some(rank_description(rs, p.default_rank_role)),
        color: SETTINGS_COLOR,
        fields: Seq::empty(),
        rows: toggles + rank_selects(rs, p.default_rank_role) + seq![RowView::Buttons(rank_buttons())],
        footer: Some(if rs.len() == 0 {
            "Configure ranks by adding new ones below"@
        } else {
            "Select a rank below to edit its name, ELO, or linked role"@
        }),
    }
}

proof fn lemma_no_elo(rs: Seq<GuildRank>, e: int, e2: int)
    requires
        e < e2,
        forall|k: int| 0 <= k < rs.len() ==> !(e <= (#[trigger] rs[k]).1 < e2),
    ensures
        at_elo(rs, e).len() == 0,
    decreases rs.len(),
{
    reveal(Seq::filter);
    if rs.len() > 0 {
        assert forall|k: int| 0 <= k < rs.drop_last().len() implies !(e <= (#[trigger] rs.drop_last()[k]).1 < e2) by {
            assert(rs.drop_last()[k] == rs[k]);
        }
        lemma_no_elo(rs.drop_last(), e, e2);
        assert(!(e <= rs[rs.len() - 1].1 < e2));
    }
}

proof fn lemma_skip_lines(rs: Seq<GuildRank>, d: Option<u64>, e: int, e2: int)
    requires
        0 <= e <= e2 <= 65536,
        forall|k: int| 0 <= k < rs.len() ==> !(e <= (#[trigger] rs[k]).1 < e2),
    ensures
        elo_lines(rs, d, e) == elo_lines(rs, d, e2),
    decreases e2 - e,
{
    if e < e2 {
        lemma_no_elo(rs, e, e2);
        lemma_skip_lines(rs, d, e + 1, e2);
    }
}

/// The smallest ELO of `rs` at or above `e`, if any.
fn next_elo(rs: &Vec<GuildRank>, e: u32) -> (r: Option<u16>)
    ensures
        match r {
            Some(v) => e <= v && (exists|k: int| 0 <= k < rs@.len() && (#[trigger] rs@[k]).1 == v)
                && forall|k: int| 0 <= k < rs@.len() ==> !(e <= (#[trigger] rs@[k]).1 < v),
            None => forall|k: int| 0 <= k < rs@.len() ==> (#[trigger] rs@[k]).1 < e,
        },
{
    let n = rs.len();
    let mut best: Option<u16> = None;
    let mut i: usize = 0;
    while i < n
        invariant
            n == rs@.len(),
            i <= n,
            match best {
                Some(v) => e <= v && (exists|k: int| 0 <= k < i && (#[trigger] rs@[k]).1 == v)
                    && forall|k: int| 0 <= k < i ==> !(e <= (#[trigger] rs@[k]).1 < v),
                None => forall|k: int| 0 <= k < i ==> (#[trigger] rs@[k]).1 < e,
            },
        decreases n - i,
    {
        let v = rs[i].1;
        if e <= v as u32 {
            match best {
                Some(b) => {
                    if v < b {
                        best = Some(v);
                    }
                },
                None => {
                    best = Some(v);
                },
            }
        }
        i = i + 1;
    }
    best
}

/// The line of ELO `e`.
fn elo_line_string(rs: &Vec<GuildRank>, d: Option<u64>, e: u16) -> (r: String)
    ensures
        r@ == elo_line(rs@, d, e as int),
{
    let n = rs.len();
    let mut roles = String::new();
    let mut count: usize = 0;
    let mut dflt = false;
    let mut i: usize = 0;
    while i < n
        invariant
            n == rs@.len(),
            i <= n,
            count == at_elo(rs@.take(i as int), e as int).len(),
            roles@ == role_mentions(at_elo(rs@.take(i as int), e as int)),
            dflt == holds_default(at_elo(rs@.take(i as int), e as int), d),
        decreases n - i,
    {
        let ghost before = at_elo(rs@.take(i as int), e as int);
        assert(rs@.take(i as int + 1) =~= rs@.take(i as int).push(rs@[i as int]));
        proof {
            reveal(Seq::filter);
            assert(rs@.take(i as int + 1).drop_last() =~= rs@.take(i as int));
        }
        let r = &rs[i];
        if r.1 == e {
            assert(at_elo(rs@.take(i as int + 1), e as int) =~= before.push(*r));
            if count > 0 {
                roles.append(", ");
            }
            roles.append("<@&");
            push_dec(&mut roles, r.2);
            roles.append(">");
            proof {
                let now = before.push(*r);
                assert(now.drop_last() =~= before);
                if before.len() == 0 {
                    assert(roles@ =~= role_mentions(now));
                } else {
                    assert(roles@ =~= role_mentions(now));
                }
                if holds_default(now, d) && !holds_default(before, d) {
                    let k = choose|k: int| 0 <= k < now.len() && d == Some((#[trigger] now[k]).2);
                    assert(k == before.len());
                }
                if holds_default(before, d) {
                    let k = choose|k: int| 0 <= k < before.len() && d == Some((#[trigger] before[k]).2);
                    assert(now[k] == before[k]);
                }
            }
            match d {
                Some(x) => {
                    if x == r.2 {
                        dflt = true;
                        assert(before.push(*r)[before.len() as int] == *r);
                    }
                },
                None => {},
            }
            count = count + 1;
        } else {
            assert(at_elo(rs@.take(i as int + 1), e as int) =~= before);
        }
        i = i + 1;
    }
    assert(rs@.take(n as int) =~= rs@);
    if count == 0 {
        return String::new();
    }
    let mut line = s("‹**");
    push_dec(&mut line, e as u64);
    line.append("**› ");
    line.append(roles.as_str());
    if dflt {
        line.append(" (default)");
    }
    line.append("\n");
    line
}

/// The description of the rank page.
fn rank_description_string(rs: &Vec<GuildRank>, d: Option<u64>) -> (r: String)
    requires
        rs@.len() > 0,
    ensures
        r@ == elo_lines(rs@, d, 0),
{
    let mut out = String::new();
    let mut e: u32 = 0;
    while e < 65536
        invariant
            e <= 65536,
            out@ + elo_lines(rs@, d, e as int) == elo_lines(rs@, d, 0),
        decreases 65536 - e,
    {
        match next_elo(rs, e) {
            None => {
                proof {
                    lemma_skip_lines(rs@, d, e as int, 65536);
                }
                e = 65536;
            },
            Some(v) => {
                proof {
                    lemma_skip_lines(rs@, d, e as int, v as int);
                }
                let line = elo_line_string(rs, d, v);
                out.append(line.as_str());
                e = v as u32 + 1;
            },
        }
    }
    assert(out@ + elo_lines(rs@, d, 65536) == out@);
    out
}

fn id_text(prefix: &String, id: u64, suffix: &str) -> (r: String)
    ensures
        r@ == prefix@ + " (ID "@ + dec(id as nat) + suffix@,
{
    let mut x = prefix.clone();
    x.append(" (ID ");
    push_dec(&mut x, id);
    x.append(suffix);
    x
}

fn count_names(rs: &Vec<GuildRank>, name: &String) -> (r: u64)
    ensures
        r == name_count(rs@, name@),
{
    let n = rs.len();
    let mut c: u64 = 0;
    let mut i: usize = 0;
    while i < n
        invariant
            n == rs@.len(),
            i <= n,
            c <= i,
            c == name_count(rs@.take(i as int), name@),
        decreases n - i,
    {
        assert(rs@.take(i as int + 1).drop_last() =~= rs@.take(i as int));
        assert(rs@.take(i as int + 1).last() == rs@[i as int]);
        if str_eq(rs[i].0.as_str(), name.as_str()) {
            c = c + 1;
        }
        i = i + 1;
    }
    assert(rs@.take(n as int) =~= rs@);
    c
}

fn dec_string(n: u64) -> (r: String)
    ensures
        r@ == dec(n as nat),
{
    let mut x = String::new();
    push_dec(&mut x, n);
    x
}

impl RankConfigDisplay {
    fn selects(&self) -> (r: Vec<SettingsRow>)
        ensures
            r@.map_values(|x: SettingsRow| x@) == rank_selects(self.rank_roles@, self.default_rank_role),
    {
        let rs = &self.rank_roles;
        let d = self.default_rank_role;
        let n = rs.len();
        let mut defaults: Vec<(String, String)> = Vec::new();
        let mut edits: Vec<(String, String)> = Vec::new();
        let mut i: usize = 0;
        while i < n
            invariant
                n == rs@.len(),
                rs@ == self.rank_roles@,
                d == self.default_rank_role,
                i <= n,
                defaults@.len() == i,
                edits@.len() == i,
                forall|k: int| 0 <= k < i ==> ((#[trigger] defaults@[k]).0@, defaults@[k].1@) == default_option(rs@, d, rs@[k]),
                forall|k: int| 0 <= k < i ==> ((#[trigger] edits@[k]).0@, edits@[k].1@) == edit_option(rs@, rs@[k]),
            decreases n - i,
        {
            let r = &rs[i];
            let dup = count_names(rs, &r.0) > 1;
            let is_default = match d {
                Some(x) => x == r.2,
                None => false,
            };
            let label = if is_default && dup {
                id_text(&r.0, r.2, ", current default)")
            } else if is_default {
                let mut x = r.0.clone();
                x.append(" (current default)");
                x
            } else if dup {
                id_text(&r.0, r.2, ")")
            } else {
                r.0.clone()
            };
            defaults.push((label, dec_string(r.2)));
            let elabel = if dup { id_text(&r.0, r.2, ")") } else { r.0.clone() };
            edits.push((elabel, dec_string(r.2)));
            i = i + 1;
        }
        let mut v: Vec<SettingsRow> = Vec::new();
        if n > 0 {
            assert(options_view(defaults@) =~= rs@.map_values(|r: GuildRank| default_option(rs@, d, r)));
            assert(options_view(edits@) =~= rs@.map_values(|r: GuildRank| edit_option(rs@, r)));
            v.push(SettingsRow::StringSelect {
                id: s("server_settings_default_rank_select"),
                placeholder: s("Set default rank"),
                options: defaults,
            });
            v.push(SettingsRow::StringSelect {
                id: s("server_settings_rank_select"),
                placeholder: s("Select rank to configure"),
                options: edits,
            });
        }
        assert(v@.map_values(|x: SettingsRow| x@) =~= rank_selects(self.rank_roles@, self.default_rank_role));
        v
    }

    fn buttons(&self) -> (r: SettingsRow)
        ensures
            r@ == RowView::Buttons(rank_buttons()),
    {
        let bs = vec![
            SettingsButton::action(s("server_settings_rank_add"), s("Add rank"), SettingsButtonStyle::Success),
            SettingsButton::action(s("server_settings_rank_link"), s("Link ranks"), SettingsButtonStyle::Primary),
            Ephemeral::back(s("server_settings_ranks_back")),
        ];
        assert(crate::settings::buttons_view(bs@) =~= rank_buttons());
        SettingsRow::Buttons(bs)
    }

    /// The rank page's rows, as sent: the rank choices and the buttons (no
    /// rank toggle remains to show).
    pub fn build_components(&self) -> (r: Vec<SettingsRow>)
        ensures
            r@.map_values(|x: SettingsRow| x@) == rank_selects(self.rank_roles@, self.default_rank_role)
                + seq![RowView::Buttons(rank_buttons())],
    {
        let mut v = self.selects();
        let ghost before = v@.map_values(|x: SettingsRow| x@);
        v.push(self.buttons());
        assert(v@.map_values(|x: SettingsRow| x@) =~= before.push(RowView::Buttons(rank_buttons())));
        v
    }
}

impl AsSettingsMenu for RankConfigDisplay {
    fn as_settings_menu(&self) -> (r: SettingsMenu)
        ensures
            r@ == rank_page(*self),
    {
        let desc = if self.rank_roles.len() == 0 {
            s("No ranks configured yet. Click 'Add Rank' to create your first rank.")
        } else {
            rank_description_string(&self.rank_roles, self.default_rank_role)
        };
        let footer = if self.rank_roles.len() == 0 {
            s("Configure ranks by adding new ones below")
        } else {
            s("Select a rank below to edit its name, ELO, or linked role")
        };
        let mut title = self.guild_name.clone();
        title.append(" - Manage Ranks");
        let mut m = SettingsMenu::new(title).description(desc).color(SETTINGS_COLOR).footer(footer);
        if self.toggle_states.len() > 0 {
            let none: Vec<SettingsButton> = Vec::new();
            assert(crate::settings::buttons_view(none@) =~= Seq::<ButtonView>::empty());
            m = m.row(SettingsRow::Buttons(none));
        }
        let mut sel = self.selects();
        let k = sel.len();
        let ghost base = m@.rows;
        let ghost sv = sel@.map_values(|x: SettingsRow| x@);
        let mut t: usize = 0;
        while sel.len() > 0
            invariant
                sv == rank_selects(self.rank_roles@, self.default_rank_role),
                k == sv.len(),
                sel@.len() + t == k,
                forall|x: int| 0 <= x < sel@.len() ==> (#[trigger] sel@[x])@ == sv[t + x],
                m@.title == self.guild_name@ + " - Manage Ranks"@,
                m@.description == Some(rank_description(self.rank_roles@, self.default_rank_role)),
                m@.color == SETTINGS_COLOR,
                m@.fields == Seq::<FieldView>::empty(),
                m@.footer == rank_page(*self).footer,
                m@.rows == base + sv.take(t as int),
            decreases sel@.len(),
        {
            let ghost before = sel@;
            let row = sel.remove(0);
            assert(row@ == sv[t as int]);
            assert forall|x: int| 0 <= x < sel@.len() implies (#[trigger] sel@[x])@ == sv[t + 1 + x] by {
                assert(sel@[x] == before[x + 1]);
            }
            m = m.row(row);
            assert(sv.take(t as int + 1) =~= sv.take(t as int).push(sv[t as int]));
            t = t + 1;
        }
        assert(sv.take(k as int) =~= sv);
        m = m.row(self.buttons());
        assert(m@.rows =~= rank_page(*self).rows);
        m
    }
}

/// One rank with its Discord role, for its own page.
pub struct RankRoleConfigDisplay {
    pub guild_name: String,
    pub rank_name: String,
    pub rank_key: String,
    pub elo: u16,
    pub role_id: u64,
}

/// The page of one rank.
pub open spec fn rank_role_page(p: RankRoleConfigDisplay) -> MenuView {
    MenuView {
        title: p.guild_name@ + " - "@ + p.rank_name@ + " Rank"@,
        description: None,
        color: SETTINGS_COLOR,
        fields: seq![
            FieldView { name: "Name"@, value: p.rank_name@, inline: true },
            FieldView { name: "ELO Threshold"@, value: dec(p.elo as nat), inline: true },
            FieldView { name: "Discord role"@, value: "<@&"@ + dec(p.role_id as nat) + ">"@, inline: true },
        ],
        rows: Seq::empty(),
        footer: Some("Edit name, ELO, or link a Discord role"@),
    }
}

/// The rows of the page of one rank: the role to link (preselecting the
/// linked one), then editing, removing and going back.
pub open spec fn rank_role_rows(p: RankRoleConfigDisplay) -> Seq<RowView> {
    seq![
        RowView::RoleSelect {
            id: "server_settings_rank_role_"@ + p.rank_key@,
            placeholder: "Link discord Role"@,
            default: Some(p.role_id),
        },
        RowView::Buttons(seq![
            btn("server_settings_rank_edit_"@ + p.rank_key@, "Edit name & ELO"@, SettingsButtonStyle::Primary),
            btn("server_settings_rank_delete_"@ + p.rank_key@, "Remove rank"@, SettingsButtonStyle::Danger),
            btn("server_settings_rank_back"@, "Back to ranks"@, SettingsButtonStyle::Secondary),
        ]),
    ]
}

fn keyed(prefix: &str, key: &String) -> (r: String)
    ensures
        r@ == prefix@ + key@,
{
    let mut x = s(prefix);
    x.append(key.as_str());
    x
}

impl RankRoleConfigDisplay {
    /// The page of one rank.
    pub fn build_embed(&self) -> (r: SettingsMenu)
        ensures
            r@ == rank_role_page(*self),
    {
        let mut title = self.guild_name.clone();
        title.append(" - ");
        title.append(self.rank_name.as_str());
        title.append(" Rank");
        let mut role = s("<@&");
        push_dec(&mut role, self.role_id);
        role.append(">");
        let m = SettingsMenu::new(title)
            .field(SettingsField::new(s("Name"), self.rank_name.clone()))
            .field(SettingsField::new(s("ELO Threshold"), dec_string(self.elo as u64)))
            .field(SettingsField::new(s("Discord role"), role))
            .color(SETTINGS_COLOR)
            .footer(s("Edit name, ELO, or link a Discord role"));
        assert(m@.fields =~= rank_role_page(*self).fields);
        m
    }

    /// The rows of the page of one rank.
    pub fn build_components(&self) -> (r: Vec<SettingsRow>)
        ensures
            r@.map_values(|x: SettingsRow| x@) == rank_role_rows(*self),
    {
        let select = SettingsRow::RoleSelect {
            id: keyed("server_settings_rank_role_", &self.rank_key),
            placeholder: s("Link discord Role"),
            default: Some(self.role_id),
        };
        let bs = vec![
            SettingsButton::action(keyed("server_settings_rank_edit_", &self.rank_key), s("Edit name & ELO"), SettingsButtonStyle::Primary),
            SettingsButton::action(keyed("server_settings_rank_delete_", &self.rank_key), s("Remove rank"), SettingsButtonStyle::Danger),
            SettingsButton::action(s("server_settings_rank_back"), s("Back to ranks"), SettingsButtonStyle::Secondary),
        ];
        assert(crate::settings::buttons_view(bs@) =~= match rank_role_rows(*self)[1] { RowView::Buttons(b) => b, _ => Seq::empty() });
        let v = vec![select, SettingsRow::Buttons(bs)];
        assert(v@.map_values(|x: SettingsRow| x@) =~= rank_role_rows(*self));
        v
    }
}

} // verus!
