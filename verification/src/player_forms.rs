//! The player settings an admin edits: which player a component is for,
//! and what the submitted Steam id, ELO and alert fields read as.

use vstd::prelude::*;
use vstd::string::*;
use crate::parse::{split_spec, split_on, parse_u64, parse_u64_spec, parse_u16, parse_u16_spec};
use crate::forms::{trim, trim_spec};
use crate::ids::{from_hex, from_hex_spec};
use crate::text::{dec, push_dec};
use crate::settings::{btn, buttons_view, MenuView, RowView, SettingsButton, SettingsButtonStyle, SettingsMenu, SettingsRow};

verus! {

/// The player a component id is for: its last `_`-separated field read as
/// a number.
pub open spec fn target_user_spec(id: Seq<char>) -> Option<u64> {
    let ps = split_spec(id, '_');
    parse_u64_spec(ps[ps.len() - 1])
}

/// The player a component id is for; `None` is an invalid id.
pub fn target_user(id: &str) -> (r: Option<u64>)
    ensures
        r == target_user_spec(id@),
{
    let parts = split_on(id, '_');
    proof {
        crate::parse::lemma_split_nonempty(id@, '_', 0);
    }
    let ghost pv = parts@.map_values(|x: String| x@);
    assert(pv.len() == parts@.len());
    let n = parts.len();
    assert(pv[n - 1] == parts@[n - 1]@);
    parse_u64(parts[n - 1].as_str())
}

/// What an optional number field reads as: blank is none, else the
/// trimmed text read as a number (an error when it does not read).
pub open spec fn opt_u64_spec(s: Seq<char>) -> Result<Option<u64>, ()> {
    if trim_spec(s).len() == 0 {
        Ok(None)
    } else {
        match parse_u64_spec(trim_spec(s)) {
            Some(v) => Ok(Some(v)),
            None => Err(()),
        }
    }
}

/// Reads the Steam id field; an error is "Invalid Steam ID. Must be a
/// 64-bit number."
pub fn read_steam_id(s: &str) -> (r: Result<Option<u64>, ()>)
    ensures
        r == opt_u64_spec(s@),
{
    let t = trim(s);
    if t.unicode_len() == 0 {
        Ok(None)
    } else {
        match parse_u64(t.as_str()) {
            Some(v) => Ok(Some(v)),
            None => Err(()),
        }
    }
}

/// What an optional ELO field reads as.
pub open spec fn opt_u16_spec(s: Seq<char>) -> Result<Option<u16>, ()> {
    if trim_spec(s).len() == 0 {
        Ok(None)
    } else {
        match parse_u16_spec(trim_spec(s)) {
            Some(v) => Ok(Some(v)),
            None => Err(()),
        }
    }
}

/// Reads the dynamic ELO field; an error is "Invalid Dynamic ELO. Must be
/// a valid number."
pub fn read_dynamic_elo(s: &str) -> (r: Result<Option<u16>, ()>)
    ensures
        r == opt_u16_spec(s@),
{
    let t = trim(s);
    if t.unicode_len() == 0 {
        Ok(None)
    } else {
        match parse_u16(t.as_str()) {
            Some(v) => Ok(Some(v)),
            None => Err(()),
        }
    }
}

/// Reads the ELO field; `None` is "Invalid ELO. Must be a valid number."
pub fn read_elo(s: &str) -> (r: Option<u16>)
    ensures
        r == parse_u16_spec(trim_spec(s@)),
{
    let t = trim(s);
    parse_u16(t.as_str())
}

/// `s` without its leading `#` characters.
pub open spec fn strip_hashes(s: Seq<char>) -> Seq<char>
    decreases s.len(),
{
    if s.len() > 0 && s[0] == '#' { strip_hashes(s.drop_first()) } else { s }
}

/// The colour an alert colour field gives: the trimmed text without
/// leading `#`, read as hexadecimal, when it is at most `FFFFFF`; none
/// (the colour is kept) otherwise.
pub open spec fn color_spec(s: Seq<char>) -> Option<u32> {
    let t = trim_spec(s);
    if t.len() == 0 {
        None
    } else {
        match from_hex_spec(strip_hashes(t)) {
            Ok(v) => if v <= 0xFFFFFF { Some(v as u32) } else { None },
            Err(_) => None,
        }
    }
}

fn strip_hashes_exec(s: &str) -> (r: &str)
    ensures
        r@ == strip_hashes(s@),
{
    let n = s.unicode_len();
    let mut i: usize = 0;
    assert(s@.subrange(0, n as int) =~= s@);
    while i < n && s.get_char(i) == '#'
        invariant
            n == s@.len(),
            i <= n,
            strip_hashes(s@) == strip_hashes(s@.subrange(i as int, n as int)),
        decreases n - i,
    {
        assert(s@.subrange(i as int, n as int).drop_first() =~= s@.subrange(i as int + 1, n as int));
        i = i + 1;
    }
    s.substring_char(i, n)
}

/// Reads an alert colour field.
pub fn read_color(s: &str) -> (r: Option<u32>)
    ensures
        r == color_spec(s@),
{
    let t = trim(s);
    if t.unicode_len() == 0 {
        return None;
    }
    let h = strip_hashes_exec(t.as_str());
    match from_hex(h) {
        Ok(v) => if v <= 0xFFFFFF { Some(v as u32) } else { None },
        Err(_) => None,
    }
}

/// Whether setting a player's ELO must first be confirmed: when ELO and
/// ranks are linked and the new ELO's rank role differs from the current
/// one.
pub open spec fn needs_confirm_spec(linked: bool, old_role: u64, new_role: u64) -> bool {
    linked && old_role != new_role
}

/// Whether setting a player's ELO must first be confirmed.
pub fn elo_change_needs_confirm(linked: bool, old_role: u64, new_role: u64) -> (r: bool)
    ensures
        r == needs_confirm_spec(linked, old_role, new_role),
{
    linked && old_role != new_role
}

/// The text asking an admin to confirm an ELO change that changes a
/// player's rank.
pub open spec fn elo_prompt_text(
    username: Seq<char>,
    elo: u16,
    old_rank: Seq<char>,
    old_elo: u16,
    new_rank: Seq<char>,
    old_role: u64,
    new_role: u64,
) -> Seq<char> {
    "Setting **"@ + username + "'s** ELO to **"@ + dec(elo as nat) + "** will change their rank:\n\n**Current:** "@
        + old_rank + " (ELO "@ + dec(old_elo as nat) + ")\n**New:** "@ + new_rank + " (ELO "@ + dec(elo as nat)
        + ")\n\nThis will update their Discord role from <@&"@ + dec(old_role as nat) + "> to <@&"@
        + dec(new_role as nat) + ">.\n\nDo you want to continue?"@
}

/// The confirmation of an ELO change that changes a player's rank, with
/// its Confirm and Cancel buttons for player `user_id`.
pub open spec fn elo_prompt(
    user_id: u64,
    username: Seq<char>,
    elo: u16,
    old_rank: Seq<char>,
    old_elo: u16,
    new_rank: Seq<char>,
    old_role: u64,
    new_role: u64,
) -> MenuView {
    MenuView {
        title: "Rank Change Required"@,
        description: Some(elo_prompt_text(username, elo, old_rank, old_elo, new_rank, old_role, new_role)),
        color: 0xFFA500,
        fields: Seq::empty(),
        rows: seq![RowView::Buttons(seq![
            btn("confirm_elo_change_"@ + dec(user_id as nat) + "_"@ + dec(elo as nat), "Confirm"@, SettingsButtonStyle::Success),
            btn("cancel_elo_change_"@ + dec(user_id as nat), "Cancel"@, SettingsButtonStyle::Danger),
        ])],
        footer: None,
    }
}

/// The confirmation of an ELO change that changes a player's rank.
pub fn elo_change_prompt(
    user_id: u64,
    username: &str,
    elo: u16,
    old_rank: &str,
    old_elo: u16,
    new_rank: &str,
    old_role: u64,
    new_role: u64,
) -> (r: SettingsMenu)
    ensures
        r@ == elo_prompt(user_id, username@, elo, old_rank@, old_elo, new_rank@, old_role, new_role),
{
    let mut d = String::from_str("Setting **");
    d.append(username);
    d.append("'s** ELO to **");
    push_dec(&mut d, elo as u64);
    d.append("** will change their rank:\n\n**Current:** ");
    d.append(old_rank);
    d.append(" (ELO ");
    push_dec(&mut d, old_elo as u64);
    d.append(")\n**New:** ");
    d.append(new_rank);
    d.append(" (ELO ");
    push_dec(&mut d, elo as u64);
    d.append(")\n\nThis will update their Discord role from <@&");
    push_dec(&mut d, old_role);
    d.append("> to <@&");
    push_dec(&mut d, new_role);
    d.append(">.\n\nDo you want to continue?");
    assert(d@ =~= elo_prompt_text(username@, elo, old_rank@, old_elo, new_rank@, old_role, new_role));
    let mut confirm = String::from_str("confirm_elo_change_");
    push_dec(&mut confirm, user_id);
    confirm.append("_");
    push_dec(&mut confirm, elo as u64);
    let mut cancel = String::from_str("cancel_elo_change_");
    push_dec(&mut cancel, user_id);
    let bs = vec![
        SettingsButton::action(confirm, String::from_str("Confirm"), SettingsButtonStyle::Success),
        SettingsButton::action(cancel, String::from_str("Cancel"), SettingsButtonStyle::Danger),
    ];
    let ghost expected = elo_prompt(user_id, username@, elo, old_rank@, old_elo, new_rank@, old_role, new_role);
    assert(buttons_view(bs@) =~= match expected.rows[0] { RowView::Buttons(b) => b, _ => Seq::empty() });
    let m = SettingsMenu::new(String::from_str("Rank Change Required"))
        .description(d)
        .color(0xFFA500)
        .row(SettingsRow::Buttons(bs));
    assert(m@.rows =~= expected.rows);
    m
}

} // verus!
