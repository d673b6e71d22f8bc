//! Log line prefixes, the line logged when a command is used, and the line
//! logged when a player joins or leaves a queue.

use vstd::prelude::*;
use vstd::string::*;
use crate::text::{dec, push_dec};

verus! {

/// `[GUILD]`
pub open spec fn prefix_guild_spec(g: Seq<char>) -> Seq<char> {
    seq!['['] + g + seq![']']
}

/// `[GUILD/CATEGORY]`
pub open spec fn prefix_category_spec(g: Seq<char>, c: Seq<char>) -> Seq<char> {
    seq!['['] + g + seq!['/'] + c + seq![']']
}

/// `[GUILD/CATEGORY/FORMAT]`, or `[GUILD/CATEGORY]` for an empty format
/// name.
pub open spec fn prefix_format_spec(g: Seq<char>, c: Seq<char>, f: Seq<char>) -> Seq<char> {
    seq!['['] + g + seq!['/'] + c + (if f.len() == 0 { Seq::empty() } else { seq!['/'] + f }) + seq![']']
}

/// Generate log prefix in format [GUILD_NAME]
pub fn log_prefix_guild(guild_name: &str) -> (r: String)
    ensures
        r@ == prefix_guild_spec(guild_name@),
{
    proof {
        reveal_strlit("[");
        reveal_strlit("]");
    }
    let mut s = String::from_str("[");
    s.append(guild_name);
    s.append("]");
    assert(s@ =~= prefix_guild_spec(guild_name@));
    s
}

/// Generate log prefix in format [GUILD_NAME/CATEGORY_NAME]
pub fn log_prefix_category(guild_name: &str, category_name: &str) -> (r: String)
    ensures
        r@ == prefix_category_spec(guild_name@, category_name@),
{
    proof {
        reveal_strlit("[");
        reveal_strlit("]");
        reveal_strlit("/");
    }
    let mut s = String::from_str("[");
    s.append(guild_name);
    s.append("/");
    s.append(category_name);
    s.append("]");
    assert(s@ =~= prefix_category_spec(guild_name@, category_name@));
    s
}

/// Generate log prefix in format [GUILD_NAME/CATEGORY_NAME/FORMAT_NAME]; the
/// format part is left out when the format name is empty.
pub fn log_prefix_format(guild_name: &str, category_name: &str, format_name: &str) -> (r: String)
    ensures
        r@ == prefix_format_spec(guild_name@, category_name@, format_name@),
{
    proof {
        reveal_strlit("[");
        reveal_strlit("]");
        reveal_strlit("/");
    }
    let mut s = String::from_str("[");
    s.append(guild_name);
    s.append("/");
    s.append(category_name);
    if format_name.unicode_len() > 0 {
        s.append("/");
        s.append(format_name);
    }
    s.append("]");
    assert(s@ =~= prefix_format_spec(guild_name@, category_name@, format_name@));
    s
}

/// The line logged when a command is used:
/// `[GUILD] TAG used /COMMAND[ on TARGET][ PARAMS]`.
pub open spec fn command_usage_spec(
    guild_name: Seq<char>,
    tag: Seq<char>,
    command: Seq<char>,
    target_tag: Option<Seq<char>>,
    params: Option<Seq<char>>,
) -> Seq<char> {
    prefix_guild_spec(guild_name) + " "@ + tag + " used /"@ + command
        + match target_tag { Some(t) => " on "@ + t, None => Seq::empty() }
        + match params { Some(p) => " "@ + p, None => Seq::empty() }
}

/// The line logged when a command is used (the user tags are looked up,
/// and the line logged, by the caller).
pub fn command_usage_line(
    guild_name: &str,
    tag: &str,
    command: &str,
    target_tag: Option<&str>,
    params: Option<&str>,
) -> (r: String)
    ensures
        r@ == command_usage_spec(
            guild_name@,
            tag@,
            command@,
            match target_tag { Some(t) => Some(t@), None => None },
            match params { Some(p) => Some(p@), None => None },
        ),
{
    let mut s = log_prefix_guild(guild_name);
    s.append(" ");
    s.append(tag);
    s.append(" used /");
    s.append(command);
    let ghost base = s@;
    match target_tag {
        Some(t) => {
            s.append(" on ");
            s.append(t);
        },
        None => {},
    }
    let ghost mid = s@;
    assert(mid =~= base + match target_tag { Some(t) => " on "@ + t@, None => Seq::<char>::empty() });
    match params {
        Some(p) => {
            s.append(" ");
            s.append(p);
        },
        None => {},
    }
    assert(s@ =~= mid + match params { Some(p) => " "@ + p@, None => Seq::<char>::empty() });
    s
}

/// How a player joined or left a queue.
#[derive(Debug, Clone, Copy, PartialEq, Eq)]
pub enum QueueToggleType {
    /// Button Join
    BJ,
    /// Button Leave
    BL,
    /// Voice Join
    VJ,
    /// Voice Leave
    VL,
}

/// Whether the toggle is a join.
pub open spec fn is_join(t: QueueToggleType) -> bool {
    t is BJ || t is VJ
}

/// The action word logged for a toggle.
pub open spec fn action_word(t: QueueToggleType) -> Seq<char> {
    if is_join(t) { "joined"@ } else { "left"@ }
}

/// Whether the toggle came through the voice channel.
pub open spec fn is_voice(t: QueueToggleType) -> bool {
    t is VJ || t is VL
}

/// The line logged when a player joins or leaves a queue:
/// `PREFIX [#POSITION ]TAG ACTION[ (VC)][ [CURRENT/QUOTA]]`, where the
/// position is shown for joins only.
pub open spec fn queue_toggle_line_spec(
    guild_name: Seq<char>,
    category_name: Seq<char>,
    tag: Seq<char>,
    t: QueueToggleType,
    pool_size: Option<(usize, usize)>,
    fmt_name: Option<Seq<char>>,
    position: usize,
) -> Seq<char> {
    let prefix = prefix_format_spec(guild_name, category_name, match fmt_name { Some(f) => f, None => Seq::empty() });
    let pos_part = if is_join(t) { seq!['#'] + dec(position as nat) + seq![' '] } else { Seq::empty() };
    let src_part = if is_voice(t) { " (VC)"@ } else { Seq::empty() };
    let size_part = match pool_size {
        Some((cur, quota)) => " ["@ + dec(cur as nat) + seq!['/'] + dec(quota as nat) + seq![']'],
        None => Seq::empty(),
    };
    prefix + seq![' '] + pos_part + tag + seq![' '] + action_word(t) + src_part + size_part
}

fn push_pos_part(s: &mut String, t: QueueToggleType, position: usize)
    ensures
        final(s)@ == old(s)@ + if is_join(t) { seq!['#'] + dec(position as nat) + seq![' '] } else { Seq::empty() },
{
    proof {
        reveal_strlit("#");
        reveal_strlit(" ");
    }
    let ghost g = s@;
    match t {
        QueueToggleType::BJ | QueueToggleType::VJ => {
            s.append("#");
            push_dec(s, position as u64);
            s.append(" ");
            assert(s@ =~= g + (seq!['#'] + dec(position as nat) + seq![' ']));
        },
        _ => {
            assert(s@ =~= g + Seq::<char>::empty());
        },
    }
}

fn push_action(s: &mut String, t: QueueToggleType)
    ensures
        final(s)@ == old(s)@ + action_word(t) + if is_voice(t) { " (VC)"@ } else { Seq::empty() },
{
    let ghost g = s@;
    match t {
        QueueToggleType::BJ => {
            s.append("joined");
            assert(s@ =~= g + "joined"@ + Seq::<char>::empty());
        },
        QueueToggleType::VJ => {
            s.append("joined");
            s.append(" (VC)");
            assert(s@ =~= g + "joined"@ + " (VC)"@);
        },
        QueueToggleType::BL => {
            s.append("left");
            assert(s@ =~= g + "left"@ + Seq::<char>::empty());
        },
        QueueToggleType::VL => {
            s.append("left");
            s.append(" (VC)");
            assert(s@ =~= g + "left"@ + " (VC)"@);
        },
    }
}

fn push_size_part(s: &mut String, pool_size: Option<(usize, usize)>)
    ensures
        final(s)@ == old(s)@ + match pool_size {
            Some((cur, quota)) => " ["@ + dec(cur as nat) + seq!['/'] + dec(quota as nat) + seq![']'],
            None => Seq::empty(),
        },
{
    proof {
        reveal_strlit("/");
        reveal_strlit("]");
    }
    let ghost g = s@;
    match pool_size {
        Some((cur, quota)) => {
            s.append(" [");
            push_dec(s, cur as u64);
            s.append("/");
            push_dec(s, quota as u64);
            s.append("]");
            assert(s@ =~= g + (" ["@ + dec(cur as nat) + seq!['/'] + dec(quota as nat) + seq![']']));
        },
        None => {
            assert(s@ =~= g + Seq::<char>::empty());
        },
    }
}

/// The line logged when a player joins or leaves a queue (the logging itself
/// is the caller's).
pub fn queue_toggle_line(
    guild_name: &str,
    category_name: &str,
    tag: &str,
    queue_type: QueueToggleType,
    pool_size: Option<(usize, usize)>,
    fmt_name: Option<&str>,
    position: usize,
) -> (r: String)
    ensures
        r@ == queue_toggle_line_spec(
            guild_name@,
            category_name@,
            tag@,
            queue_type,
            pool_size,
            match fmt_name { Some(f) => Some(f@), None => None },
            position,
        ),
{
    proof {
        reveal_strlit(" ");
        reveal_strlit("");
    }
    let f = match fmt_name {
        Some(f) => f,
        None => "",
    };
    let mut s = log_prefix_format(guild_name, category_name, f);
    s.append(" ");
    push_pos_part(&mut s, queue_type, position);
    s.append(tag);
    s.append(" ");
    push_action(&mut s, queue_type);
    push_size_part(&mut s, pool_size);
    let ghost fv = match fmt_name { Some(f) => f@, None => Seq::<char>::empty() };
    assert(f@ =~= fv);
    assert(s@ =~= queue_toggle_line_spec(
        guild_name@,
        category_name@,
        tag@,
        queue_type,
        pool_size,
        match fmt_name { Some(f) => Some(f@), None => None },
        position,
    ));
    s
}

} // verus!
