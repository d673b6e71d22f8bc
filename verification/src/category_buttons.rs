//! Which part of a category's settings a button or select names, read from
//! its id in the order the category settings handler tries them, and the
//! values those ids carry.

use vstd::prelude::*;
use vstd::string::*;
use crate::text::{dec, push_dec, has_prefix, str_eq, starts_with};
use crate::parse::{parse_u8_spec, parse_u8, parse_unsigned, parse_u64, split_spec, split_on, next_sep};
use crate::category::Format;

verus! {

/// The part of a category's settings that a component id names.
#[derive(Debug, Clone, Copy, PartialEq, Eq, Structural)]
pub enum CategoryButton {
    /// Removing a format; `true` where the choice came from the select
    /// menu (its value holds `{category}_{format}`), `false` where the id
    /// carries it.
    FmtConfirmRemove(bool),
    /// Editing a format's name and quota, as for `FmtConfirmRemove`.
    FmtEdit(bool),
    /// Opening the ELO gate's minimum rank choice.
    EloGate,
    /// The minimum rank was chosen (`true`: from the select menu).
    EloGateMin(bool),
    /// The maximum rank was chosen (`true`: from the select menu).
    EloGateMax(bool),
    /// Clearing the ELO gate.
    EloGateClear,
    /// The id ends in no category id: the handler refuses it.
    BadId,
    EditName(u8),
    EditQuota(u8),
    EditConfirmTime(u8),
    EditConnect(u8),
    CycleVcCreate(u8),
    CycleVcDestroy(u8),
    ToggleVcKeepMin(u8),
    LinkMessage(u8),
    LinkMsgConfirm(u8),
    LinkMsgManual(u8),
    Formats(u8),
    FmtBack(u8),
    FmtAdd(u8),
    FmtRemove(u8),
    SettingsBack(u8),
    /// A category id and no known action.
    Unknown(u8),
}

/// The part of `id` after the prefix `p`.
pub open spec fn after(id: Seq<char>, p: Seq<char>) -> Seq<char> {
    id.subrange(p.len() as int, id.len() as int)
}

/// Index of the last `sep` in `s[..i]`, or -1.
pub open spec fn last_sep(s: Seq<char>, sep: char, i: int) -> int
    decreases i,
{
    if i <= 0 {
        -1
    } else if s[i - 1] == sep {
        i - 1
    } else {
        last_sep(s, sep, i - 1)
    }
}

/// The last field of `s` split on `sep`: what `s.rsplit(sep).next()` gives.
pub open spec fn last_field(s: Seq<char>, sep: char) -> Seq<char> {
    s.subrange(last_sep(s, sep, s.len() as int) + 1, s.len() as int)
}

/// The ids and prefixes that carry a category id at their end, in the
/// order the handler tries them, after the category id was read.
pub open spec fn by_category(id: Seq<char>, c: u8) -> CategoryButton {
    if has_prefix(id, "category_settings_edit_name_"@) {
        CategoryButton::EditName(c)
    } else if has_prefix(id, "category_settings_edit_quota_"@) {
        CategoryButton::EditQuota(c)
    } else if has_prefix(id, "category_settings_edit_confirm_time_"@) {
        CategoryButton::EditConfirmTime(c)
    } else if has_prefix(id, "category_settings_edit_connect_"@) {
        CategoryButton::EditConnect(c)
    } else if has_prefix(id, "category_settings_edit_vc_create_"@) {
        CategoryButton::CycleVcCreate(c)
    } else if has_prefix(id, "category_settings_edit_vc_destroy_"@) {
        CategoryButton::CycleVcDestroy(c)
    } else if has_prefix(id, "category_settings_edit_vc_keepmin_"@) {
        CategoryButton::ToggleVcKeepMin(c)
    } else if has_prefix(id, "category_settings_link_message_"@) {
        CategoryButton::LinkMessage(c)
    } else if has_prefix(id, "category_link_msg_confirm_"@) {
        CategoryButton::LinkMsgConfirm(c)
    } else if has_prefix(id, "category_link_msg_manual_"@) {
        CategoryButton::LinkMsgManual(c)
    } else if has_prefix(id, "category_settings_formats_"@) {
        CategoryButton::Formats(c)
    } else if has_prefix(id, "category_fmt_back_"@) {
        CategoryButton::FmtBack(c)
    } else if has_prefix(id, "category_fmt_add_"@) {
        CategoryButton::FmtAdd(c)
    } else if has_prefix(id, "category_fmt_remove_"@) {
        CategoryButton::FmtRemove(c)
    } else if has_prefix(id, "category_settings_back_"@) {
        CategoryButton::SettingsBack(c)
    } else {
        CategoryButton::Unknown(c)
    }
}

/// What a category settings component id names, and the part of the id
/// after the matched prefix (empty for an exact match and for the actions
/// that read the category id from the id's last field).
pub open spec fn category_button_spec(id: Seq<char>) -> (CategoryButton, Seq<char>) {
    if id == "category_fmt_confirm_remove"@ {
        (CategoryButton::FmtConfirmRemove(true), Seq::empty())
    } else if has_prefix(id, "category_fmt_confirm_remove_"@) {
        (CategoryButton::FmtConfirmRemove(false), after(id, "category_fmt_confirm_remove_"@))
    } else if id == "category_fmt_edit"@ {
        (CategoryButton::FmtEdit(true), Seq::empty())
    } else if has_prefix(id, "category_fmt_edit_"@) {
        (CategoryButton::FmtEdit(false), after(id, "category_fmt_edit_"@))
    } else if has_prefix(id, "category_settings_elo_gate_"@) {
        (CategoryButton::EloGate, after(id, "category_settings_elo_gate_"@))
    } else if id == "elo_gate_min"@ {
        (CategoryButton::EloGateMin(true), Seq::empty())
    } else if has_prefix(id, "elo_gate_min_"@) {
        (CategoryButton::EloGateMin(false), after(id, "elo_gate_min_"@))
    } else if id == "elo_gate_max"@ {
        (CategoryButton::EloGateMax(true), Seq::empty())
    } else if has_prefix(id, "elo_gate_max_"@) {
        (CategoryButton::EloGateMax(false), after(id, "elo_gate_max_"@))
    } else if has_prefix(id, "elo_gate_clear_"@) {
        (CategoryButton::EloGateClear, after(id, "elo_gate_clear_"@))
    } else {
        match parse_u8_spec(last_field(id, '_')) {
            None => (CategoryButton::BadId, Seq::empty()),
            Some(c) => (by_category(id, c), Seq::empty()),
        }
    }
}

fn strip(s: &str, prefix: &str) -> (r: String)
    requires
        has_prefix(s@, prefix@),
    ensures
        r@ == after(s@, prefix@),
{
    let n = s.unicode_len();
    let m = prefix.unicode_len();
    String::from_str(s.substring_char(m, n))
}

/// The last field of `s` split on `sep`.
pub fn last_field_of(s: &str, sep: char) -> (r: String)
    ensures
        r@ == last_field(s@, sep),
{
    let n = s.unicode_len();
    let mut i: usize = n;
    while i > 0 && s.get_char(i - 1) != sep
        invariant
            n == s@.len(),
            i <= n,
            last_sep(s@, sep, n as int) == last_sep(s@, sep, i as int),
            forall|j: int| i <= j < n ==> s@[j] != sep,
        decreases i,
    {
        i = i - 1;
    }
    assert(last_sep(s@, sep, i as int) == i - 1);
    String::from_str(s.substring_char(i, n))
}

fn by_category_exec(id: &str, c: u8) -> (r: CategoryButton)
    ensures
        r == by_category(id@, c),
{
    if starts_with(id, "category_settings_edit_name_") {
        CategoryButton::EditName(c)
    } else if starts_with(id, "category_settings_edit_quota_") {
        CategoryButton::EditQuota(c)
    } else if starts_with(id, "category_settings_edit_confirm_time_") {
        CategoryButton::EditConfirmTime(c)
    } else if starts_with(id, "category_settings_edit_connect_") {
        CategoryButton::EditConnect(c)
    } else if starts_with(id, "category_settings_edit_vc_create_") {
        CategoryButton::CycleVcCreate(c)
    } else if starts_with(id, "category_settings_edit_vc_destroy_") {
        CategoryButton::CycleVcDestroy(c)
    } else if starts_with(id, "category_settings_edit_vc_keepmin_") {
        CategoryButton::ToggleVcKeepMin(c)
    } else if starts_with(id, "category_settings_link_message_") {
        CategoryButton::LinkMessage(c)
    } else if starts_with(id, "category_link_msg_confirm_") {
        CategoryButton::LinkMsgConfirm(c)
    } else if starts_with(id, "category_link_msg_manual_") {
        CategoryButton::LinkMsgManual(c)
    } else if starts_with(id, "category_settings_formats_") {
        CategoryButton::Formats(c)
    } else if starts_with(id, "category_fmt_back_") {
        CategoryButton::FmtBack(c)
    } else if starts_with(id, "category_fmt_add_") {
        CategoryButton::FmtAdd(c)
    } else if starts_with(id, "category_fmt_remove_") {
        CategoryButton::FmtRemove(c)
    } else if starts_with(id, "category_settings_back_") {
        CategoryButton::SettingsBack(c)
    } else {
        CategoryButton::Unknown(c)
    }
}

/// Reads what a category settings component id names, trying each id and
/// prefix in the order the handler does.
pub fn classify_category_button(id: &str) -> (r: (CategoryButton, String))
    ensures
        r.0 == category_button_spec(id@).0,
        r.1@ == category_button_spec(id@).1,
{
    let empty = String::new();
    assert(empty@ =~= Seq::<char>::empty());
    if str_eq(id, "category_fmt_confirm_remove") {
        (CategoryButton::FmtConfirmRemove(true), empty)
    } else if starts_with(id, "category_fmt_confirm_remove_") {
        (CategoryButton::FmtConfirmRemove(false), strip(id, "category_fmt_confirm_remove_"))
    } else if str_eq(id, "category_fmt_edit") {
        (CategoryButton::FmtEdit(true), empty)
    } else if starts_with(id, "category_fmt_edit_") {
        (CategoryButton::FmtEdit(false), strip(id, "category_fmt_edit_"))
    } else if starts_with(id, "category_settings_elo_gate_") {
        (CategoryButton::EloGate, strip(id, "category_settings_elo_gate_"))
    } else if str_eq(id, "elo_gate_min") {
        (CategoryButton::EloGateMin(true), empty)
    } else if starts_with(id, "elo_gate_min_") {
        (CategoryButton::EloGateMin(false), strip(id, "elo_gate_min_"))
    } else if str_eq(id, "elo_gate_max") {
        (CategoryButton::EloGateMax(true), empty)
    } else if starts_with(id, "elo_gate_max_") {
        (CategoryButton::EloGateMax(false), strip(id, "elo_gate_max_"))
    } else if starts_with(id, "elo_gate_clear_") {
        (CategoryButton::EloGateClear, strip(id, "elo_gate_clear_"))
    } else {
        let field = last_field_of(id, '_');
        match parse_u8(field.as_str()) {
            None => (CategoryButton::BadId, empty),
            Some(c) => (by_category_exec(id, c), empty),
        }
    }
}

/// A `{category}_{format}` pair as the removal and edit choices carry it:
/// exactly two fields, each a `u8`.
pub open spec fn id_pair_spec(s: Seq<char>) -> Option<(u8, u8)> {
    let parts = split_spec(s, '_');
    if parts.len() == 2 {
        match (parse_u8_spec(parts[0]), parse_u8_spec(parts[1])) {
            (Some(a), Some(b)) => Some((a, b)),
            _ => None,
        }
    } else {
        None
    }
}

/// Reads a `{category}_{format}` pair.
pub fn parse_id_pair(s: &str) -> (r: Option<(u8, u8)>)
    ensures
        r == id_pair_spec(s@),
{
    let parts = split_on(s, '_');
    proof {
        assert(parts@.map_values(|x: String| x@).len() == parts@.len());
    }
    if parts.len() != 2 {
        return None;
    }
    proof {
        assert(parts@.map_values(|x: String| x@)[0] == parts@[0]@);
        assert(parts@.map_values(|x: String| x@)[1] == parts@[1]@);
    }
    let a = parse_u8(parts[0].as_str());
    let b = parse_u8(parts[1].as_str());
    match (a, b) {
        (Some(x), Some(y)) => Some((x, y)),
        _ => None,
    }
}

/// What `s.parse::<usize>()` gives, as an option.
pub open spec fn parse_usize_spec(s: Seq<char>) -> Option<usize> {
    match parse_unsigned(s) {
        Some(v) => if v <= usize::MAX { Some(v as usize) } else { None },
        None => None,
    }
}

/// What `s.parse::<usize>()` gives, as an option.
pub fn parse_usize(s: &str) -> (r: Option<usize>)
    ensures
        r == parse_usize_spec(s@),
{
    match parse_u64(s) {
        Some(v) => {
            if v <= usize::MAX as u64 {
                Some(v as usize)
            } else {
                None
            }
        },
        None => None,
    }
}

/// A `u8` read from `s`, or 0 where it does not parse.
pub open spec fn u8_or_zero(s: Seq<char>) -> u8 {
    match parse_u8_spec(s) {
        Some(v) => v,
        None => 0,
    }
}

/// A `usize` read from `s`, or 0 where it does not parse.
pub open spec fn usize_or_zero(s: Seq<char>) -> usize {
    match parse_usize_spec(s) {
        Some(v) => v,
        None => 0,
    }
}

/// The minimum rank choice `{category}_{min}` split at its first `_`, each
/// part read as a number or 0; none where the value holds no `_`.
pub open spec fn gate_min_spec(s: Seq<char>) -> Option<(u8, usize)> {
    let e = next_sep(s, '_', 0);
    if e < s.len() {
        Some((u8_or_zero(s.subrange(0, e)), usize_or_zero(s.subrange(e + 1, s.len() as int))))
    } else {
        None
    }
}

/// The maximum rank choice `{category}_{min}_{max}` split at its first two
/// `_`, each part read as a number or 0; none where it holds fewer than two.
pub open spec fn gate_max_spec(s: Seq<char>) -> Option<(u8, usize, usize)> {
    let e1 = next_sep(s, '_', 0);
    let e2 = next_sep(s, '_', e1 + 1);
    if e1 < s.len() && e2 < s.len() {
        Some((
            u8_or_zero(s.subrange(0, e1)),
            usize_or_zero(s.subrange(e1 + 1, e2)),
            usize_or_zero(s.subrange(e2 + 1, s.len() as int)),
        ))
    } else {
        None
    }
}

proof fn lemma_next_sep_bounds(s: Seq<char>, sep: char, i: int)
    requires
        0 <= i <= s.len(),
    ensures
        i <= next_sep(s, sep, i) <= s.len(),
        next_sep(s, sep, i) < s.len() ==> s[next_sep(s, sep, i)] == sep,
        forall|j: int| i <= j < next_sep(s, sep, i) ==> s[j] != sep,
    decreases s.len() - i,
{
    if i < s.len() && s[i] != sep {
        lemma_next_sep_bounds(s, sep, i + 1);
    }
}

fn find_sep(s: &str, sep: char, from: usize) -> (r: usize)
    requires
        from <= s@.len(),
    ensures
        r as int == next_sep(s@, sep, from as int),
{
    let n = s.unicode_len();
    let mut i = from;
    while i < n && s.get_char(i) != sep
        invariant
            n == s@.len(),
            from <= i <= n,
            next_sep(s@, sep, from as int) == next_sep(s@, sep, i as int),
        decreases n - i,
    {
        i = i + 1;
    }
    i
}

fn u8_or_zero_exec(s: &str) -> (r: u8)
    ensures
        r == u8_or_zero(s@),
{
    match parse_u8(s) {
        Some(v) => v,
        None => 0,
    }
}

fn usize_or_zero_exec(s: &str) -> (r: usize)
    ensures
        r == usize_or_zero(s@),
{
    match parse_usize(s) {
        Some(v) => v,
        None => 0,
    }
}

/// Reads the minimum rank choice.
pub fn parse_gate_min(s: &str) -> (r: Option<(u8, usize)>)
    ensures
        r == gate_min_spec(s@),
{
    let n = s.unicode_len();
    let e = find_sep(s, '_', 0);
    proof {
        lemma_next_sep_bounds(s@, '_', 0);
    }
    if e >= n {
        return None;
    }
    let a = String::from_str(s.substring_char(0, e));
    let b = String::from_str(s.substring_char(e + 1, n));
    Some((u8_or_zero_exec(a.as_str()), usize_or_zero_exec(b.as_str())))
}

/// Reads the maximum rank choice.
pub fn parse_gate_max(s: &str) -> (r: Option<(u8, usize, usize)>)
    ensures
        r == gate_max_spec(s@),
{
    let n = s.unicode_len();
    let e1 = find_sep(s, '_', 0);
    proof {
        lemma_next_sep_bounds(s@, '_', 0);
    }
    if e1 >= n {
        return None;
    }
    let e2 = find_sep(s, '_', e1 + 1);
    proof {
        lemma_next_sep_bounds(s@, '_', e1 + 1);
    }
    if e2 >= n {
        return None;
    }
    let a = String::from_str(s.substring_char(0, e1));
    let b = String::from_str(s.substring_char(e1 + 1, e2));
    let c = String::from_str(s.substring_char(e2 + 1, n));
    Some((u8_or_zero_exec(a.as_str()), usize_or_zero_exec(b.as_str()), usize_or_zero_exec(c.as_str())))
}

/// The choice offered for a removable format: `{name} (quota: {quota})`
/// valued `{category}_{format}`.
pub open spec fn removable_option(category_id: u8, f: Format) -> (Seq<char>, Seq<char>) {
    (
        f.name@ + " (quota: "@ + dec(f.quota as nat) + ")"@,
        dec(category_id as nat) + "_"@ + dec(f.id as nat),
    )
}

/// The formats that can be removed, every one but the default (id 0), as
/// choices, in their order.
pub open spec fn removable_spec(category_id: u8, fs: Seq<Format>) -> Seq<(Seq<char>, Seq<char>)>
    decreases fs.len(),
{
    if fs.len() == 0 {
        Seq::empty()
    } else if fs.last().id != 0 {
        removable_spec(category_id, fs.drop_last()).push(removable_option(category_id, fs.last()))
    } else {
        removable_spec(category_id, fs.drop_last())
    }
}

/// The choices of the format removal menu.
pub fn removable_formats(category_id: u8, formats: &Vec<Format>) -> (r: Vec<(String, String)>)
    ensures
        r@.map_values(|o: (String, String)| (o.0@, o.1@)) == removable_spec(category_id, formats@),
{
    let mut out: Vec<(String, String)> = Vec::new();
    let n = formats.len();
    let mut i: usize = 0;
    while i < n
        invariant
            n == formats@.len(),
            i <= n,
            out@.map_values(|o: (String, String)| (o.0@, o.1@)) == removable_spec(category_id, formats@.take(i as int)),
        decreases n - i,
    {
        let f = &formats[i];
        assert(formats@.take(i as int + 1).drop_last() =~= formats@.take(i as int));
        assert(formats@.take(i as int + 1).last() == formats@[i as int]);
        if f.id != 0 {
            let ghost before = out@.map_values(|o: (String, String)| (o.0@, o.1@));
            let mut label = f.name.clone();
            label.append(" (quota: ");
            push_dec(&mut label, f.quota as u64);
            label.append(")");
            let mut value = String::new();
            push_dec(&mut value, category_id as u64);
            value.append("_");
            push_dec(&mut value, f.id as u64);
            assert(label@ =~= removable_option(category_id, *f).0);
            assert(value@ =~= removable_option(category_id, *f).1);
            out.push((label, value));
            assert(out@.map_values(|o: (String, String)| (o.0@, o.1@)) =~= before.push(removable_option(category_id, *f)));
        }
        i = i + 1;
    }
    assert(formats@.take(n as int) =~= formats@);
    out
}

} // verus!
