//! The join and leave announcements of a player: their title, colour,
//! description (the player's template with `{user}`, `{rank}` and `{name}`
//! filled in), footer and thumbnail.

use vstd::prelude::*;
use vstd::string::*;
use crate::text::{dec, push_dec, has_prefix, starts_with, blank, is_blank};
use crate::alerts::sanitize_text;

verus! {

/// A player's announcement preferences.
pub struct AlertSettings {
    pub join_alert_color: u32,
    pub join_alert_desc: Option<String>,
    pub join_alert_footer: Option<String>,
    pub join_alert_footer_img: Option<String>,
    pub join_alert_img: Option<String>,
    pub leave_alert_desc: Option<String>,
    pub leave_alert_footer: Option<String>,
    pub leave_alert_footer_img: Option<String>,
    pub leave_alert_img: Option<String>,
}

/// An announcement as sent.
pub struct AlertEmbed {
    pub title: String,
    pub color: u32,
    pub description: Option<String>,
    pub footer: Option<String>,
    pub footer_icon: Option<String>,
    pub thumbnail: Option<String>,
}

/// An optional string as characters.
pub open spec fn ostr(o: Option<String>) -> Option<Seq<char>> {
    match o {
        Some(s) => Some(s@),
        None => None,
    }
}

/// `s` with every occurrence of `pat` replaced by `with`, scanning from the
/// left as `str::replace` does (`pat` is not empty).
pub open spec fn replace_spec(s: Seq<char>, pat: Seq<char>, with: Seq<char>) -> Seq<char>
    decreases s.len(),
{
    if pat.len() == 0 || s.len() == 0 {
        s
    } else if has_prefix(s, pat) {
        with + replace_spec(s.skip(pat.len() as int), pat, with)
    } else {
        seq![s[0]] + replace_spec(s.skip(1), pat, with)
    }
}

/// `s` with every occurrence of `pat` replaced by `with`.
pub fn replace_all(s: &str, pat: &str, with: &str) -> (r: String)
    requires
        pat@.len() > 0,
    ensures
        r@ == replace_spec(s@, pat@, with@),
{
    let n = s.unicode_len();
    let m = pat.unicode_len();
    let mut out = String::new();
    let mut i: usize = 0;
    assert(s@.skip(0) =~= s@);
    while i < n
        invariant
            n == s@.len(),
            m == pat@.len(),
            m > 0,
            i <= n,
            out@ + replace_spec(s@.skip(i as int), pat@, with@) == replace_spec(s@, pat@, with@),
        decreases n - i,
    {
        let rest = s.substring_char(i, n);
        assert(rest@ =~= s@.skip(i as int));
        if starts_with(rest, pat) {
            assert(s@.skip(i as int).skip(m as int) =~= s@.skip(i as int + m as int));
            out.append(with);
            assert(out@ + replace_spec(s@.skip(i as int + m as int), pat@, with@) == replace_spec(s@, pat@, with@));
            i = i + m;
        } else {
            assert(s@.skip(i as int).skip(1) =~= s@.skip(i as int + 1));
            let c = s.substring_char(i, i + 1);
            assert(c@ =~= seq![s@[i as int]]);
            out.append(c);
            assert(out@ + replace_spec(s@.skip(i as int + 1), pat@, with@) == replace_spec(s@, pat@, with@));
            i = i + 1;
        }
    }
    assert(s@.skip(n as int) =~= Seq::<char>::empty());
    out
}

/// `<@{id}>`: a user mention.
pub open spec fn user_mention(id: u64) -> Seq<char> {
    "<@"@ + dec(id as nat) + ">"@
}

/// The description of a join announcement: the player's template, when set
/// and not blank, with `{user}`, `{rank}` and `{name}` filled in.
pub open spec fn join_description(desc: Option<Seq<char>>, user: u64, rank: Seq<char>, name: Seq<char>) -> Option<Seq<char>> {
    match desc {
        Some(d) => if is_blank(d) {
            None
        } else {
            Some(replace_spec(replace_spec(replace_spec(d, "{user}"@, user_mention(user)), "{rank}"@, rank), "{name}"@, name))
        },
        None => None,
    }
}

/// The description of a leave announcement: as for joins, without the
/// rank.
pub open spec fn leave_description(desc: Option<Seq<char>>, user: u64, name: Seq<char>) -> Option<Seq<char>> {
    match desc {
        Some(d) => if is_blank(d) {
            None
        } else {
            Some(replace_spec(replace_spec(d, "{user}"@, user_mention(user)), "{name}"@, name))
        },
        None => None,
    }
}

/// The title of an announcement: `{name} {verb} the [{format} ]queue`.
pub open spec fn alert_title(name: Seq<char>, verb: Seq<char>, fmt: Option<Seq<char>>) -> Seq<char> {
    match fmt {
        Some(f) => name + " "@ + verb + " the "@ + f + " queue"@,
        None => name + " "@ + verb + " the queue"@,
    }
}

/// The lines that stand in for a description over the limits, when
/// replacement is switched on.
pub fn spam_replacements() -> (r: Vec<&'static str>)
    ensures
        r@.len() == 10,
        r@.map_values(|t: &'static str| t@) == seq![
            "If this is shart city, then I am the mayor"@,
            "*proceeds to triple-dribble in front of your goal and die*"@,
            "If it wasn't for xCape, I'd be GM already..."@,
            "@ me = free pocket medic"@,
            "idk, glop bomb is the best way to score"@,
            "#removemedic"@,
            "#justiceforsleepy"@,
            "#justiceforwerxify"@,
            "im so fucking ass"@,
            "Rawr x3 nuzzles how are you pounces on you you're so warm"@,
        ],
{
    let v = vec![
        "If this is shart city, then I am the mayor",
        "*proceeds to triple-dribble in front of your goal and die*",
        "If it wasn't for xCape, I'd be GM already...",
        "@ me = free pocket medic",
        "idk, glop bomb is the best way to score",
        "#removemedic",
        "#justiceforsleepy",
        "#justiceforwerxify",
        "im so fucking ass",
        "Rawr x3 nuzzles how are you pounces on you you're so warm",
    ];
    assert(v@.map_values(|t: &'static str| t@) =~= seq![
        "If this is shart city, then I am the mayor"@,
        "*proceeds to triple-dribble in front of your goal and die*"@,
        "If it wasn't for xCape, I'd be GM already..."@,
        "@ me = free pocket medic"@,
        "idk, glop bomb is the best way to score"@,
        "#removemedic"@,
        "#justiceforsleepy"@,
        "#justiceforwerxify"@,
        "im so fucking ass"@,
        "Rawr x3 nuzzles how are you pounces on you you're so warm"@,
    ]);
    v
}

/// The lines that stand in for a footer over the limits, when replacement
/// is switched on.
pub fn footer_spam_replacements() -> (r: Vec<&'static str>)
    ensures
        r@.len() == 5,
        r@.map_values(|t: &'static str| t@) == seq![
            "Mmmm, feet :3"@,
            "Go team!"@,
            "PUG PUG PUG!"@,
            "GG!"@,
            "qBot is best bot"@,
        ],
{
    let v = vec![
        "Mmmm, feet :3",
        "Go team!",
        "PUG PUG PUG!",
        "GG!",
        "qBot is best bot",
    ];
    assert(v@.map_values(|t: &'static str| t@) =~= seq![
        "Mmmm, feet :3"@,
        "Go team!"@,
        "PUG PUG PUG!"@,
        "GG!"@,
        "qBot is best bot"@,
    ]);
    v
}

fn clone_opt(o: &Option<String>) -> (r: Option<String>)
    ensures
        ostr(r) == ostr(*o),
{
    match o {
        Some(s) => Some(s.clone()),
        None => None,
    }
}

/// The text as announced: in a guild the limits apply (replacement being
/// switched off, the text stays); a preview shows it as written.
fn announced(text: &str, in_guild: bool, replacements: &Vec<&'static str>) -> (r: String)
    requires
        replacements@.len() > 0,
    ensures
        r@ == text@,
{
    if in_guild {
        sanitize_text(text, replacements.as_slice())
    } else {
        String::from_str(text)
    }
}

fn title_string(name: &str, verb: &str, fmt: Option<&str>) -> (r: String)
    ensures
        r@ == alert_title(name@, verb@, match fmt { Some(f) => Some(f@), None => None }),
{
    let mut t = String::from_str(name);
    t.append(" ");
    t.append(verb);
    match fmt {
        Some(f) => {
            t.append(" the ");
            t.append(f);
            t.append(" queue");
        },
        None => {
            t.append(" the queue");
        },
    }
    t
}

fn mention_string(user: u64) -> (r: String)
    ensures
        r@ == user_mention(user),
{
    let mut m = String::from_str("<@");
    push_dec(&mut m, user);
    m.append(">");
    m
}

/// The join announcement of `user`, shown as `name` (their guild nickname
/// or user name), at rank `rank`, for format `fmt` if named; `in_guild`
/// is false for a preview.
pub fn join_alert_embed(settings: &AlertSettings, user: u64, name: &str, in_guild: bool, rank: &str, fmt: Option<&str>) -> (r: AlertEmbed)
    ensures
        r.title@ == alert_title(name@, "joined"@, match fmt { Some(f) => Some(f@), None => None }),
        r.color == settings.join_alert_color,
        ostr(r.description) == join_description(ostr(settings.join_alert_desc), user, rank@, name@),
        ostr(r.footer) == ostr(settings.join_alert_footer),
        ostr(r.footer_icon) == (if settings.join_alert_footer is Some { ostr(settings.join_alert_footer_img) } else { None }),
        ostr(r.thumbnail) == ostr(settings.join_alert_img),
{
    proof {
        reveal_strlit("{user}");
        reveal_strlit("{rank}");
        reveal_strlit("{name}");
    }
    let description = match &settings.join_alert_desc {
        Some(d) => {
            if blank(d.as_str()) {
                None
            } else {
                let text = announced(d.as_str(), in_guild, &spam_replacements());
                let a = replace_all(text.as_str(), "{user}", mention_string(user).as_str());
                let b = replace_all(a.as_str(), "{rank}", rank);
                Some(replace_all(b.as_str(), "{name}", name))
            }
        },
        None => None,
    };
    let (footer, footer_icon) = match &settings.join_alert_footer {
        Some(f) => (Some(announced(f.as_str(), in_guild, &footer_spam_replacements())), clone_opt(&settings.join_alert_footer_img)),
        None => (None, None),
    };
    AlertEmbed {
        title: title_string(name, "joined", fmt),
        color: settings.join_alert_color,
        description,
        footer,
        footer_icon,
        thumbnail: clone_opt(&settings.join_alert_img),
    }
}

/// The leave announcement of `user`, shown as `name`, for format `fmt` if
/// named; its colour is the player's join colour.
pub fn leave_alert_embed(settings: &AlertSettings, user: u64, name: &str, in_guild: bool, fmt: Option<&str>) -> (r: AlertEmbed)
    ensures
        r.title@ == alert_title(name@, "left"@, match fmt { Some(f) => Some(f@), None => None }),
        r.color == settings.join_alert_color,
        ostr(r.description) == leave_description(ostr(settings.leave_alert_desc), user, name@),
        ostr(r.footer) == ostr(settings.leave_alert_footer),
        ostr(r.footer_icon) == (if settings.leave_alert_footer is Some { ostr(settings.leave_alert_footer_img) } else { None }),
        ostr(r.thumbnail) == ostr(settings.leave_alert_img),
{
    proof {
        reveal_strlit("{user}");
        reveal_strlit("{name}");
    }
    let description = match &settings.leave_alert_desc {
        Some(d) => {
            if blank(d.as_str()) {
                None
            } else {
                let text = announced(d.as_str(), in_guild, &spam_replacements());
                let a = replace_all(text.as_str(), "{user}", mention_string(user).as_str());
                Some(replace_all(a.as_str(), "{name}", name))
            }
        },
        None => None,
    };
    let (footer, footer_icon) = match &settings.leave_alert_footer {
        Some(f) => (Some(announced(f.as_str(), in_guild, &footer_spam_replacements())), clone_opt(&settings.leave_alert_footer_img)),
        None => (None, None),
    };
    AlertEmbed {
        title: title_string(name, "left", fmt),
        color: settings.join_alert_color,
        description,
        footer,
        footer_icon,
        thumbnail: clone_opt(&settings.leave_alert_img),
    }
}

} // verus!
