//! The page an admin edits a player on: the player's Steam profile, ELO,
//! rank and record, the edit buttons, and the choice of rank.

use vstd::prelude::*;
use vstd::string::*;
use crate::text::{dec, push_dec};
use crate::settings::{
    btn, FieldView, MenuView, RowView, SettingsButton, SettingsButtonStyle, SettingsField, SettingsMenu, SettingsRow,
    SETTINGS_COLOR,
};

verus! {

/// What the page shows of a player.
pub struct PlayerSettings {
    pub user_id: u64,
    pub username: String,
    pub steam_id: Option<u64>,
    pub elo: u16,
    pub dynamic_elo: Option<u16>,
    pub rank: String,
    pub games: u32,
    pub wins: u32,
}

/// A rank of the guild: (name, ELO, role id).
pub type GuildRank = (String, u16, u64);

/// At most this many ranks are offered.
pub const MAX_RANK_OPTIONS: usize = 25;

/// The Steam field: the profile link of a set (non-zero) id, else `Not
/// set`.
pub open spec fn steam_text(id: Option<u64>) -> Seq<char> {
    match id {
        Some(v) => if v != 0 { "https://steamcommunity.com/profiles/"@ + dec(v as nat) } else { "Not set"@ },
        None => "Not set"@,
    }
}

/// How many of `rs` bear the name `name`.
pub open spec fn name_count(rs: Seq<GuildRank>, name: Seq<char>) -> nat
    decreases rs.len(),
{
    if rs.len() == 0 {
        0
    } else {
        name_count(rs.drop_last(), name) + if rs.last().0@ == name { 1nat } else { 0nat }
    }
}

/// The ranks offered: the first 25.
pub open spec fn offered(rs: Seq<GuildRank>) -> Seq<GuildRank> {
    if rs.len() > MAX_RANK_OPTIONS { rs.take(MAX_RANK_OPTIONS as int) } else { rs }
}

/// A rank as offered: `{name} (ELO: {elo})`, with `, ID {role}` added when
/// another offered rank bears the same name; valued with the role id.
pub open spec fn rank_option(shown: Seq<GuildRank>, r: GuildRank) -> (Seq<char>, Seq<char>) {
    (
        if name_count(shown, r.0@) > 1 {
            r.0@ + " (ELO: "@ + dec(r.1 as nat) + ", ID "@ + dec(r.2 as nat) + ")"@
        } else {
            r.0@ + " (ELO: "@ + dec(r.1 as nat) + ")"@
        },
        dec(r.2 as nat),
    )
}

/// The rank options.
pub open spec fn rank_options(rs: Seq<GuildRank>) -> Seq<(Seq<char>, Seq<char>)> {
    offered(rs).map_values(|r: GuildRank| rank_option(offered(rs), r))
}

/// The player settings page, with `winrate` the record's win rate as
/// shown.
pub open spec fn player_page(p: PlayerSettings, winrate: Seq<char>, ranks: Seq<GuildRank>) -> MenuView {
    let uid = dec(p.user_id as nat);
    let top = RowView::Buttons(seq![
        btn("player_settings_edit_steam_"@ + uid, "Edit Steam ID"@, SettingsButtonStyle::Primary),
        btn("player_settings_edit_elo_"@ + uid, "Edit ELO"@, SettingsButtonStyle::Primary),
    ]);
    let select = if ranks.len() > 0 {
        seq![RowView::StringSelect {
            id: "player_settings_rank_select_"@ + uid,
            placeholder: "Edit rank..."@,
            options: rank_options(ranks),
        }]
    } else {
        Seq::empty()
    };
    let alerts = RowView::Buttons(seq![btn("player_settings_edit_alerts_"@ + uid, "Edit alerts"@, SettingsButtonStyle::Primary)]);
    MenuView {
        title: p.username@ + " - Player Settings"@,
        description: None,
        color: SETTINGS_COLOR,
        fields: seq![
            FieldView { name: "Steam ID"@, value: steam_text(p.steam_id), inline: true },
            FieldView { name: "ELO"@, value: dec(p.elo as nat), inline: true },
            FieldView { name: "Rank"@, value: p.rank@, inline: true },
            FieldView { name: "Games"@, value: dec(p.games as nat), inline: true },
            FieldView { name: "Wins"@, value: dec(p.wins as nat), inline: true },
            FieldView { name: "Winrate"@, value: winrate, inline: true },
        ],
        rows: seq![top] + select + seq![alerts],
        footer: None,
    }
}

fn dec_string(n: u64) -> (r: String)
    ensures
        r@ == dec(n as nat),
{
    let mut s = String::new();
    push_dec(&mut s, n);
    s
}

fn steam_string(id: Option<u64>) -> (r: String)
    ensures
        r@ == steam_text(id),
{
    match id {
        Some(v) => {
            if v != 0 {
                let mut s = String::from_str("https://steamcommunity.com/profiles/");
                push_dec(&mut s, v);
                s
            } else {
                String::from_str("Not set")
            }
        },
        None => String::from_str("Not set"),
    }
}

fn count_name(rs: &Vec<GuildRank>, n: usize, name: &String) -> (r: usize)
    requires
        n <= rs@.len(),
    ensures
        r == name_count(rs@.take(n as int), name@),
{
    let mut c: usize = 0;
    let mut i: usize = 0;
    while i < n
        invariant
            n <= rs@.len(),
            i <= n,
            c <= i,
            c == name_count(rs@.take(i as int), name@),
        decreases n - i,
    {
        assert(rs@.take(i as int + 1).drop_last() =~= rs@.take(i as int));
        assert(rs@.take(i as int + 1).last() == rs@[i as int]);
        if crate::text::str_eq(rs[i].0.as_str(), name.as_str()) {
            c = c + 1;
        }
        i = i + 1;
    }
    c
}

fn options_of(rs: &Vec<GuildRank>) -> (r: Vec<(String, String)>)
    ensures
        r@.map_values(|o: (String, String)| (o.0@, o.1@)) == rank_options(rs@),
{
    let n = if rs.len() > MAX_RANK_OPTIONS { MAX_RANK_OPTIONS } else { rs.len() };
    let ghost shown = offered(rs@);
    assert(shown =~= rs@.take(n as int));
    let mut out: Vec<(String, String)> = Vec::new();
    let mut i: usize = 0;
    while i < n
        invariant
            n <= rs@.len(),
            shown == rs@.take(n as int),
            i <= n,
            out@.len() == i,
            forall|k: int| 0 <= k < i ==> ((#[trigger] out@[k]).0@, out@[k].1@) == rank_option(shown, shown[k]),
        decreases n - i,
    {
        let r = &rs[i];
        assert(shown[i as int] == *r);
        let count = count_name(rs, n, &r.0);
        let mut label = r.0.clone();
        label.append(" (ELO: ");
        push_dec(&mut label, r.1 as u64);
        if count > 1 {
            label.append(", ID ");
            push_dec(&mut label, r.2);
        }
        label.append(")");
        out.push((label, dec_string(r.2)));
        i = i + 1;
    }
    assert(out@.map_values(|o: (String, String)| (o.0@, o.1@)) =~= rank_options(rs@));
    out
}

fn edit_button(prefix: &str, uid: u64, label: &str) -> (r: SettingsButton)
    ensures
        r@ == btn(prefix@ + dec(uid as nat), label@, SettingsButtonStyle::Primary),
{
    let mut id = String::from_str(prefix);
    push_dec(&mut id, uid);
    SettingsButton::edit(id, String::from_str(label))
}

/// The player settings page, with `winrate` the record's win rate as
/// shown (`0%` without games).
pub fn player_settings_menu(p: &PlayerSettings, winrate: String, ranks: &Vec<GuildRank>) -> (r: SettingsMenu)
    ensures
        r@ == player_page(*p, winrate@, ranks@),
{
    let mut title = p.username.clone();
    title.append(" - Player Settings");
    let top_buttons = vec![
        edit_button("player_settings_edit_steam_", p.user_id, "Edit Steam ID"),
        edit_button("player_settings_edit_elo_", p.user_id, "Edit ELO"),
    ];
    let ghost uid = dec(p.user_id as nat);
    assert(crate::settings::buttons_view(top_buttons@) =~= seq![
        btn("player_settings_edit_steam_"@ + uid, "Edit Steam ID"@, SettingsButtonStyle::Primary),
        btn("player_settings_edit_elo_"@ + uid, "Edit ELO"@, SettingsButtonStyle::Primary),
    ]);
    let top = SettingsRow::Buttons(top_buttons);
    let mut menu = SettingsMenu::new(title)
        .field(SettingsField::new(String::from_str("Steam ID"), steam_string(p.steam_id)))
        .field(SettingsField::new(String::from_str("ELO"), dec_string(p.elo as u64)))
        .field(SettingsField::new(String::from_str("Rank"), p.rank.clone()))
        .field(SettingsField::new(String::from_str("Games"), dec_string(p.games as u64)))
        .field(SettingsField::new(String::from_str("Wins"), dec_string(p.wins as u64)))
        .field(SettingsField::new(String::from_str("Winrate"), winrate))
        .color(SETTINGS_COLOR)
        .row(top);
    if ranks.len() > 0 {
        let mut id = String::from_str("player_settings_rank_select_");
        push_dec(&mut id, p.user_id);
        menu = menu.row(SettingsRow::StringSelect {
            id,
            placeholder: String::from_str("Edit rank..."),
            options: options_of(ranks),
        });
    }
    let alert_buttons = vec![edit_button("player_settings_edit_alerts_", p.user_id, "Edit alerts")];
    assert(crate::settings::buttons_view(alert_buttons@) =~= seq![
        btn("player_settings_edit_alerts_"@ + uid, "Edit alerts"@, SettingsButtonStyle::Primary),
    ]);
    menu = menu.row(SettingsRow::Buttons(alert_buttons));
    assert(menu@.fields =~= player_page(*p, winrate@, ranks@).fields);
    assert(menu@.rows =~= player_page(*p, winrate@, ranks@).rows);
    menu
}

} // verus!
