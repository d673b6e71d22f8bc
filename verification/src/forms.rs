//! The forms of the server settings: what a submitted rank, category or
//! timeout form is read as, and why one is refused.

use vstd::prelude::*;
use vstd::string::*;
use crate::text::{is_ws, str_eq};
use crate::parse::{parse_u8, parse_u8_spec, parse_u16, parse_u16_spec};

verus! {

/// Index of the first character of `s[i..]` that is not whitespace (or
/// the length).
pub open spec fn lead(s: Seq<char>, i: int) -> int
    decreases s.len() - i,
{
    if 0 <= i < s.len() && is_ws(s[i]) {
        lead(s, i + 1)
    } else {
        i
    }
}

/// End of `s[..j]` once trailing whitespace is dropped.
pub open spec fn trail(s: Seq<char>, j: int) -> int
    decreases j,
{
    if 0 < j <= s.len() && is_ws(s[j - 1]) {
        trail(s, j - 1)
    } else {
        j
    }
}

/// `s.trim()`: `s` without leading and trailing whitespace.
pub open spec fn trim_spec(s: Seq<char>) -> Seq<char> {
    let a = lead(s, 0);
    let b = trail(s, s.len() as int);
    if a < b { s.subrange(a, b) } else { Seq::empty() }
}

fn ws(c: char) -> (r: bool)
    ensures
        r == is_ws(c),
{
    ('\t' <= c && c <= '\r') || c == ' ' || c == '\u{85}' || c == '\u{A0}' || c == '\u{1680}'
        || ('\u{2000}' <= c && c <= '\u{200A}') || c == '\u{2028}' || c == '\u{2029}'
        || c == '\u{202F}' || c == '\u{205F}' || c == '\u{3000}'
}

/// `s.trim()`.
pub fn trim(s: &str) -> (r: String)
    ensures
        r@ == trim_spec(s@),
{
    let n = s.unicode_len();
    let mut a: usize = 0;
    while a < n && ws(s.get_char(a))
        invariant
            n == s@.len(),
            a <= n,
            lead(s@, 0) == lead(s@, a as int),
        decreases n - a,
    {
        a = a + 1;
    }
    let mut b: usize = n;
    while b > 0 && ws(s.get_char(b - 1))
        invariant
            n == s@.len(),
            b <= n,
            trail(s@, n as int) == trail(s@, b as int),
        decreases b,
    {
        b = b - 1;
    }
    if a < b {
        String::from_str(s.substring_char(a, b))
    } else {
        let e = String::new();
        assert(e@ =~= trim_spec(s@));
        e
    }
}

/// Name for what `str::to_lowercase` gives: the lower-case form of every
/// character, as the Unicode tables have it.
pub uninterp spec fn lowercase(s: Seq<char>) -> Seq<char>;

/// `str::to_lowercase`, which depends on the text alone.
#[verifier::external_body]
pub(crate) fn to_lowercase(s: &str) -> (r: String)
    ensures
        r@ == lowercase(s@),
{
    s.to_lowercase()
}

/// `s` with every space replaced by `-`.
pub open spec fn dash_spaces(s: Seq<char>) -> Seq<char> {
    s.map_values(|c: char| if c == ' ' { '-' } else { c })
}

fn replace_spaces(s: &str) -> (r: String)
    ensures
        r@ == dash_spaces(s@),
{
    let n = s.unicode_len();
    let mut out = String::new();
    let mut i: usize = 0;
    while i < n
        invariant
            n == s@.len(),
            i <= n,
            out@ == dash_spaces(s@.take(i as int)),
        decreases n - i,
    {
        let c = s.get_char(i);
        if c == ' ' {
            out.append("-");
        } else {
            out.append(s.substring_char(i, i + 1));
        }
        proof {
            reveal_strlit("-");
            assert(dash_spaces(s@.take(i as int + 1)) =~= dash_spaces(s@.take(i as int)).push(if c == ' ' { '-' } else { c }));
        }
        assert(out@ =~= dash_spaces(s@.take(i as int + 1)));
        i = i + 1;
    }
    assert(s@.take(n as int) =~= s@);
    out
}

/// A rank as submitted: its name and ELO threshold.
#[derive(Debug, Clone, PartialEq, Eq)]
pub struct RankForm {
    pub name: String,
    pub elo: u16,
}

/// Why a rank form is refused.
#[derive(Debug, Clone, Copy, PartialEq, Eq, Structural)]
pub enum RankFormError {
    /// "Rank name cannot be empty."
    EmptyName,
    /// "Invalid ELO. Must be a valid number."
    InvalidElo,
}

/// What a rank form reads as: the trimmed name, which must not be empty,
/// and the trimmed ELO read as a `u16`.
pub open spec fn rank_form_spec(name: Seq<char>, elo: Seq<char>) -> Result<(Seq<char>, u16), RankFormError> {
    if trim_spec(name).len() == 0 {
        Err(RankFormError::EmptyName)
    } else {
        match parse_u16_spec(trim_spec(elo)) {
            Some(e) => Ok((trim_spec(name), e)),
            None => Err(RankFormError::InvalidElo),
        }
    }
}

/// Reads a submitted rank form (adding, linking or editing a rank).
pub fn read_rank_form(name: &str, elo: &str) -> (r: Result<RankForm, RankFormError>)
    ensures
        match r {
            Ok(f) => rank_form_spec(name@, elo@) == Ok::<(Seq<char>, u16), RankFormError>((f.name@, f.elo)),
            Err(e) => rank_form_spec(name@, elo@) == Err::<(Seq<char>, u16), RankFormError>(e),
        },
{
    let n = trim(name);
    if n.unicode_len() == 0 {
        return Err(RankFormError::EmptyName);
    }
    let e = trim(elo);
    match parse_u16(e.as_str()) {
        Some(v) => Ok(RankForm { name: n, elo: v }),
        None => Err(RankFormError::InvalidElo),
    }
}

/// The settings of a category as submitted.
#[derive(Debug, Clone, PartialEq, Eq)]
pub struct CategoryForm {
    pub name: Option<String>,
    pub quota: u8,
    pub confirm_time: u16,
    pub connect_info: Option<String>,
}

/// Why a category settings form is refused.
#[derive(Debug, Clone, Copy, PartialEq, Eq, Structural)]
pub enum CategoryFormError {
    /// "Invalid quota. Must be between 2 and 100."
    InvalidQuota,
    /// "Invalid time. Must be a positive number."
    InvalidTime,
}

/// An optional text field: trimmed, none when blank.
pub open spec fn opt_field(s: Seq<char>) -> Option<Seq<char>> {
    if trim_spec(s).len() == 0 { None } else { Some(trim_spec(s)) }
}

/// A quota as a form gives it: a whole number from 2 to 100.
pub open spec fn quota_spec(s: Seq<char>) -> Option<u8> {
    match parse_u8_spec(trim_spec(s)) {
        Some(q) => if 2 <= q <= 100 { Some(q) } else { None },
        None => None,
    }
}

/// What a category settings form reads as; the quota is checked first.
pub open spec fn category_form_spec(name: Seq<char>, quota: Seq<char>, time: Seq<char>, connect: Seq<char>)
    -> Result<(Option<Seq<char>>, u8, u16, Option<Seq<char>>), CategoryFormError> {
    match quota_spec(quota) {
        None => Err(CategoryFormError::InvalidQuota),
        Some(q) => match parse_u16_spec(trim_spec(time)) {
            Some(t) => if t > 0 {
                Ok((opt_field(name), q, t, opt_field(connect)))
            } else {
                Err(CategoryFormError::InvalidTime)
            },
            None => Err(CategoryFormError::InvalidTime),
        },
    }
}

fn read_quota(s: &str) -> (r: Option<u8>)
    ensures
        r == quota_spec(s@),
{
    let t = trim(s);
    match parse_u8(t.as_str()) {
        Some(q) => if 2 <= q && q <= 100 { Some(q) } else { None },
        None => None,
    }
}

fn read_opt(s: &str) -> (r: Option<String>)
    ensures
        match r {
            Some(x) => opt_field(s@) == Some(x@),
            None => opt_field(s@) is None,
        },
{
    let t = trim(s);
    if t.unicode_len() == 0 { None } else { Some(t) }
}

/// Reads a submitted category settings form.
pub fn read_category_form(name: &str, quota: &str, time: &str, connect: &str) -> (r: Result<CategoryForm, CategoryFormError>)
    ensures
        match r {
            Ok(f) => category_form_spec(name@, quota@, time@, connect@) == Ok::<(Option<Seq<char>>, u8, u16, Option<Seq<char>>), CategoryFormError>((
                match f.name { Some(x) => Some(x@), None => None },
                f.quota,
                f.confirm_time,
                match f.connect_info { Some(x) => Some(x@), None => None },
            )),
            Err(e) => category_form_spec(name@, quota@, time@, connect@) == Err::<(Option<Seq<char>>, u8, u16, Option<Seq<char>>), CategoryFormError>(e),
        },
{
    let q = match read_quota(quota) {
        Some(q) => q,
        None => {
            return Err(CategoryFormError::InvalidQuota);
        },
    };
    let t = trim(time);
    let ct = match parse_u16(t.as_str()) {
        Some(v) => if v > 0 { v } else { return Err(CategoryFormError::InvalidTime); },
        None => {
            return Err(CategoryFormError::InvalidTime);
        },
    };
    Ok(CategoryForm { name: read_opt(name), quota: q, confirm_time: ct, connect_info: read_opt(connect) })
}

/// The post-game confirm time as a form gives it: 30 to 300 seconds.
pub open spec fn post_game_time_spec(s: Seq<char>) -> Option<u16> {
    match parse_u16_spec(trim_spec(s)) {
        Some(t) => if 30 <= t <= 300 { Some(t) } else { None },
        None => None,
    }
}

/// Reads the post-game confirm time form; `None` is "Invalid time. Must be
/// between 30 and 300 seconds."
pub fn read_post_game_time(s: &str) -> (r: Option<u16>)
    ensures
        r == post_game_time_spec(s@),
{
    let t = trim(s);
    match parse_u16(t.as_str()) {
        Some(v) => if 30 <= v && v <= 300 { Some(v) } else { None },
        None => None,
    }
}

/// A new category as submitted.
#[derive(Debug, Clone, PartialEq, Eq)]
pub struct NewCategoryForm {
    pub name: String,
    /// Prefix of the channel names
    pub channel_prefix: String,
    /// Name of the channel category to create
    pub guild_category: String,
    pub quota: u8,
    /// Whether only the bot may post in the dashboard channel
    pub bot_only_dashboard: bool,
}

/// Why a new category form is refused.
#[derive(Debug, Clone, Copy, PartialEq, Eq, Structural)]
pub enum NewCategoryError {
    /// A name, the prefix or the channel category name is empty
    EmptyField,
    /// "Bot-only dashboard must be 'yes' or 'no'."
    BotOnlyNotYesNo,
    /// "Invalid quota. Must be between 2 and 100."
    InvalidQuota,
}

/// What a new category form reads as, given the lower-cased trimmed prefix
/// and bot-only answer: the prefix has its spaces replaced by `-`; the
/// empty fields are checked first, then the answer, then the quota.
pub open spec fn new_category_spec(name: Seq<char>, prefix_lower: Seq<char>, guild_category: Seq<char>, quota: Seq<char>, bot_lower: Seq<char>)
    -> Result<(Seq<char>, Seq<char>, Seq<char>, u8, bool), NewCategoryError> {
    let prefix = dash_spaces(prefix_lower);
    if trim_spec(name).len() == 0 || prefix.len() == 0 || trim_spec(guild_category).len() == 0 {
        Err(NewCategoryError::EmptyField)
    } else if bot_lower != "yes"@ && bot_lower != "no"@ {
        Err(NewCategoryError::BotOnlyNotYesNo)
    } else {
        match quota_spec(quota) {
            Some(q) => Ok((trim_spec(name), prefix, trim_spec(guild_category), q, bot_lower == "yes"@)),
            None => Err(NewCategoryError::InvalidQuota),
        }
    }
}

/// Reads a new category form whose prefix and bot-only answer were
/// trimmed and lower-cased already.
pub fn read_new_category_lowered(name: &str, prefix_lower: &str, guild_category: &str, quota: &str, bot_lower: &str)
    -> (r: Result<NewCategoryForm, NewCategoryError>)
    ensures
        match r {
            Ok(f) => new_category_spec(name@, prefix_lower@, guild_category@, quota@, bot_lower@)
                == Ok::<(Seq<char>, Seq<char>, Seq<char>, u8, bool), NewCategoryError>((
                    f.name@, f.channel_prefix@, f.guild_category@, f.quota, f.bot_only_dashboard)),
            Err(e) => new_category_spec(name@, prefix_lower@, guild_category@, quota@, bot_lower@)
                == Err::<(Seq<char>, Seq<char>, Seq<char>, u8, bool), NewCategoryError>(e),
        },
{
    let n = trim(name);
    let p = replace_spaces(prefix_lower);
    let g = trim(guild_category);
    if n.unicode_len() == 0 || p.unicode_len() == 0 || g.unicode_len() == 0 {
        return Err(NewCategoryError::EmptyField);
    }
    let yes = str_eq(bot_lower, "yes");
    if !yes && !str_eq(bot_lower, "no") {
        return Err(NewCategoryError::BotOnlyNotYesNo);
    }
    match read_quota(quota) {
        Some(q) => Ok(NewCategoryForm { name: n, channel_prefix: p, guild_category: g, quota: q, bot_only_dashboard: yes }),
        None => Err(NewCategoryError::InvalidQuota),
    }
}

/// Reads a submitted new category form: the prefix and the bot-only
/// answer are trimmed and lower-cased.
pub fn read_new_category(name: &str, prefix: &str, guild_category: &str, quota: &str, bot_only: &str)
    -> (r: Result<NewCategoryForm, NewCategoryError>)
    ensures
        match r {
            Ok(f) => new_category_spec(name@, lowercase(trim_spec(prefix@)), guild_category@, quota@, lowercase(trim_spec(bot_only@)))
                == Ok::<(Seq<char>, Seq<char>, Seq<char>, u8, bool), NewCategoryError>((
                    f.name@, f.channel_prefix@, f.guild_category@, f.quota, f.bot_only_dashboard)),
            Err(e) => new_category_spec(name@, lowercase(trim_spec(prefix@)), guild_category@, quota@, lowercase(trim_spec(bot_only@)))
                == Err::<(Seq<char>, Seq<char>, Seq<char>, u8, bool), NewCategoryError>(e),
        },
{
    let p = to_lowercase(trim(prefix).as_str());
    let b = to_lowercase(trim(bot_only).as_str());
    read_new_category_lowered(name, p.as_str(), guild_category, quota, b.as_str())
}

} // verus!
