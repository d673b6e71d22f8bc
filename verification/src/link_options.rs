//! The options offered once every channel of a category to link is known:
//! the bot's earlier dashboard messages found in the dashboard channel,
//! the category already using these channels, and the buttons to link an
//! existing dashboard, create a new one, or give a message id; and the
//! channels those buttons carry, read back.

use vstd::prelude::*;
use vstd::string::*;
use crate::text::{dec, push_dec};
use crate::ids::{hex, push_hex, from_hex, from_hex_spec, cid_spec, parse_cid, IntErrorKind, lemma_hex_round_trip};
use crate::parse::{split_spec, split_on, join_spec, no_sep, lemma_split_join};
use crate::link::lemma_hex_no_sep;
use crate::link::LinkedChannels;
use crate::menu_system::{contains_sub, contains_str};
use crate::settings::{
    btn, buttons_view, ButtonView, MenuView, RowView, SettingsButton, SettingsButtonStyle, SettingsMenu, SettingsRow,
    SETTINGS_COLOR,
};

verus! {

/// A message fetched from the dashboard channel: its id, author and time,
/// whether it has an embed, and the title and description of its first
/// embed.
pub struct FetchedMessage {
    pub id: u64,
    pub author: u64,
    pub timestamp: i64,
    pub has_embed: bool,
    pub title: Option<String>,
    pub description: Option<String>,
}

/// An optional text, empty when absent.
pub open spec fn text_or_empty(o: Option<String>) -> Seq<char> {
    match o {
        Some(s) => s@,
        None => Seq::empty(),
    }
}

/// Whether message `m` looks like a dashboard the bot (`bot`) posted: the
/// bot wrote it, it has an embed, and the embed's title holds `Queue` or
/// its description holds `Queue` or `Join`.
pub open spec fn looks_like_dashboard(m: FetchedMessage, bot: u64) -> bool {
    &&& m.author == bot
    &&& m.has_embed
    &&& (contains_sub(text_or_empty(m.title), "Queue"@) || contains_sub(text_or_empty(m.description), "Queue"@)
        || contains_sub(text_or_empty(m.description), "Join"@))
}

/// The (id, time) of the messages of `ms` that look like dashboards, in
/// order.
pub open spec fn dashboards_spec(ms: Seq<FetchedMessage>, bot: u64) -> Seq<(u64, i64)>
    decreases ms.len(),
{
    if ms.len() == 0 {
        Seq::empty()
    } else {
        let m = ms.last();
        let before = dashboards_spec(ms.drop_last(), bot);
        if looks_like_dashboard(m, bot) { before.push((m.id, m.timestamp)) } else { before }
    }
}

fn opt_contains(o: &Option<String>, needle: &str) -> (r: bool)
    ensures
        r == contains_sub(text_or_empty(*o), needle@),
{
    match o {
        Some(s) => contains_str(s.as_str(), needle),
        None => {
            proof {
                reveal_strlit("");
            }
            assert(text_or_empty(*o) =~= ""@);
            contains_str("", needle)
        },
    }
}

/// The messages of `ms` that look like dashboards the bot posted.
pub fn dashboard_messages(ms: &Vec<FetchedMessage>, bot: u64) -> (r: Vec<(u64, i64)>)
    ensures
        r@ == dashboards_spec(ms@, bot),
{
    let n = ms.len();
    let mut out: Vec<(u64, i64)> = Vec::new();
    let mut i: usize = 0;
    while i < n
        invariant
            n == ms@.len(),
            i <= n,
            out@ == dashboards_spec(ms@.take(i as int), bot),
        decreases n - i,
    {
        assert(ms@.take(i as int + 1).drop_last() =~= ms@.take(i as int));
        assert(ms@.take(i as int + 1).last() == ms@[i as int]);
        let m = &ms[i];
        if m.author == bot && m.has_embed
            && (opt_contains(&m.title, "Queue") || opt_contains(&m.description, "Queue")
                || opt_contains(&m.description, "Join")) {
            out.push((m.id, m.timestamp));
        }
        i = i + 1;
    }
    assert(ms@.take(n as int) =~= ms@);
    out
}

/// Index of the newest of `v[..n]`: the first with the latest time.
pub open spec fn newest_index(v: Seq<(u64, i64)>, n: int) -> int
    decreases n,
{
    if n <= 1 {
        0
    } else {
        let b = newest_index(v, n - 1);
        if v[n - 1].1 > v[b].1 { n - 1 } else { b }
    }
}

/// The id of the newest message of `v`, the first of the latest ones.
pub fn newest_message(v: &Vec<(u64, i64)>) -> (r: Option<u64>)
    ensures
        v@.len() == 0 ==> r is None,
        v@.len() > 0 ==> r == Some(v@[newest_index(v@, v@.len() as int)].0),
{
    let n = v.len();
    if n == 0 {
        return None;
    }
    let mut best: usize = 0;
    let mut i: usize = 1;
    while i < n
        invariant
            n == v@.len(),
            1 <= i <= n,
            best as int == newest_index(v@, i as int),
            best < i,
        decreases n - i,
    {
        if v[i].1 > v[best].1 {
            best = i;
        }
        i = i + 1;
    }
    Some(v[best].0)
}

/// The channels to link, in hexadecimal joined by `_`.
pub open spec fn state5(d: u64, q: u64, v: u64, r: u64, b: u64) -> Seq<char> {
    hex(d as nat) + "_"@ + hex(q as nat) + "_"@ + hex(v as nat) + "_"@ + hex(r as nat) + "_"@ + hex(b as nat)
}

/// The channels to link and a dashboard message, in hexadecimal.
pub open spec fn state6(d: u64, q: u64, v: u64, r: u64, b: u64, m: u64) -> Seq<char> {
    state5(d, q, v, r, b) + "_"@ + hex(m as nat)
}

/// The red channel of the first team set (0 without one).
pub open spec fn first_red(c: LinkedChannels) -> u64 {
    if c.teams@.len() > 0 { c.teams@[0].0 } else { 0 }
}

/// The blue channel of the first team set (0 without one).
pub open spec fn first_blue(c: LinkedChannels) -> u64 {
    if c.teams@.len() > 0 { c.teams@[0].1 } else { 0 }
}

/// The warning about the category already using the channels.
pub open spec fn duplicate_text(name: Seq<char>, c: LinkedChannels) -> Seq<char> {
    "\u{26a0}\u{fe0f} **Duplicate Category Detected**\n\nCategory "@ + name
        + " is already using one or more of these channels:\n\u{2022} Dashboard: <#"@ + dec(c.dashboard as nat)
        + ">\n\u{2022} Queue Chat: <#"@ + dec(c.queue_chat as nat) + ">\n\u{2022} Queue Voice: <#"@ + dec(c.queue_vc as nat)
        + ">\n\u{2022} Red Team: <#"@ + dec(first_red(c) as nat) + ">\n\u{2022} Blue Team: <#"@
        + dec(first_blue(c) as nat) + ">\n\n"@
}

/// The channels being linked.
pub struct LinkTarget {
    pub dashboard: u64,
    pub queue: u64,
    pub queue_vc: u64,
    pub red: u64,
    pub blue: u64,
}

/// The description and the buttons of the link options: with or without a
/// category already using the channels, and with or without dashboard
/// messages found (`newest` is the newest of the `count` found).
pub open spec fn options_spec(
    gid: u64,
    t: LinkTarget,
    dup: Option<(Seq<char>, LinkedChannels)>,
    count: nat,
    newest: u64,
) -> (Seq<char>, Seq<ButtonView>) {
    let s5 = state5(t.dashboard, t.queue, t.queue_vc, t.red, t.blue);
    let s6 = state6(t.dashboard, t.queue, t.queue_vc, t.red, t.blue, newest);
    let d = dec(t.dashboard as nat);
    let cancel = btn("server_settings_link_cancel"@, "Cancel"@, SettingsButtonStyle::Danger);
    match dup {
        Some((name, c)) => if count > 0 {
            (
                duplicate_text(name, c) + "Found "@ + dec(count) + " existing dashboard message(s) in <#"@ + d
                    + ">.\n\n**Options:**\n\u{2022} Remove duplicate category and link to existing dashboard\n\u{2022} Create new dashboard (will create duplicate)\n\u{2022} Cancel"@,
                seq![
                    btn("link_existing_remove_dup_"@ + s6, "Remove duplicate & link existing"@, SettingsButtonStyle::Success),
                    cancel,
                ],
            )
        } else {
            (
                duplicate_text(name, c)
                    + "No existing dashboard messages found.\n\n**Options:**\n\u{2022} Remove duplicate category and create new dashboard\n\u{2022} Provide message ID manually\n\u{2022} Cancel"@,
                seq![
                    btn("link_remove_dup_new_"@ + s5, "Remove duplicate & create new"@, SettingsButtonStyle::Success),
                    btn("link_manual_msg_"@ + s5, "Provide message ID"@, SettingsButtonStyle::Primary),
                    cancel,
                ],
            )
        },
        None => if count > 0 {
            (
                "**Found "@ + dec(count) + " existing dashboard message(s)**\n\nFound bot messages in <#"@ + d
                    + "> that appear to be dashboards.\nMost recent: <https://discord.com/channels/"@ + dec(gid as nat) + "/"@
                    + d + "/"@ + dec(newest as nat)
                    + ">\n\n**Options:**\n\u{2022} Link to existing dashboard (recommended)\n\u{2022} Create new dashboard\n\u{2022} Provide different message ID\n\u{2022} Cancel"@,
                seq![
                    btn("link_use_existing_"@ + s6, "Link to existing dashboard"@, SettingsButtonStyle::Success),
                    btn("link_create_new_"@ + s6, "Create new dashboard"@, SettingsButtonStyle::Primary),
                    btn("link_manual_msg_"@ + s6, "Provide message ID"@, SettingsButtonStyle::Secondary),
                    cancel,
                ],
            )
        } else {
            (
                "\u{2139}\u{fe0f} **No existing dashboard messages found**\n\nSearched recent messages in <#"@ + d
                    + "> but didn't find any existing dashboards.\n\n**Options:**\n\u{2022} Create new dashboard\n\u{2022} Provide message ID manually (if you know it exists)\n\u{2022} Cancel"@,
                seq![
                    btn("link_create_new_"@ + s5, "Create new dashboard"@, SettingsButtonStyle::Success),
                    btn("link_manual_msg_"@ + s5, "Provide message ID"@, SettingsButtonStyle::Secondary),
                    cancel,
                ],
            )
        },
    }
}

/// The link options page of guild `guild_name`.
pub open spec fn link_options_page(
    guild_name: Seq<char>,
    gid: u64,
    t: LinkTarget,
    dup: Option<(Seq<char>, LinkedChannels)>,
    found: Seq<(u64, i64)>,
) -> MenuView {
    let newest = if found.len() > 0 { found[newest_index(found, found.len() as int)].0 } else { 0 };
    let o = options_spec(gid, t, dup, found.len(), newest);
    MenuView {
        title: guild_name + " - Link Category Options"@,
        description: Some(o.0),
        color: SETTINGS_COLOR,
        fields: Seq::empty(),
        rows: seq![RowView::Buttons(o.1)],
        footer: None,
    }
}

fn push_state5(s: &mut String, t: &LinkTarget)
    ensures
        final(s)@ == old(s)@ + state5(t.dashboard, t.queue, t.queue_vc, t.red, t.blue),
{
    let ghost g = s@;
    push_hex(s, t.dashboard);
    s.append("_");
    push_hex(s, t.queue);
    s.append("_");
    push_hex(s, t.queue_vc);
    s.append("_");
    push_hex(s, t.red);
    s.append("_");
    push_hex(s, t.blue);
    assert(s@ =~= g + state5(t.dashboard, t.queue, t.queue_vc, t.red, t.blue));
}

fn keyed_id(prefix: &str, t: &LinkTarget, msg: Option<u64>) -> (r: String)
    ensures
        r@ == prefix@ + match msg {
            Some(m) => state6(t.dashboard, t.queue, t.queue_vc, t.red, t.blue, m),
            None => state5(t.dashboard, t.queue, t.queue_vc, t.red, t.blue),
        },
{
    let mut s = String::from_str(prefix);
    push_state5(&mut s, t);
    match msg {
        Some(m) => {
            let ghost g = s@;
            s.append("_");
            push_hex(&mut s, m);
            assert(s@ =~= g + "_"@ + hex(m as nat));
        },
        None => {},
    }
    s
}

fn button(id: String, label: &str, style: SettingsButtonStyle) -> (r: SettingsButton)
    ensures
        r@ == btn(id@, label@, style),
{
    SettingsButton::action(id, String::from_str(label), style)
}

fn duplicate_string(name: &String, c: &LinkedChannels) -> (r: String)
    ensures
        r@ == duplicate_text(name@, *c),
{
    let red = if c.teams.len() > 0 { c.teams[0].0 } else { 0 };
    let blue = if c.teams.len() > 0 { c.teams[0].1 } else { 0 };
    let mut s = String::from_str("\u{26a0}\u{fe0f} **Duplicate Category Detected**\n\nCategory ");
    s.append(name.as_str());
    s.append(" is already using one or more of these channels:\n\u{2022} Dashboard: <#");
    push_dec(&mut s, c.dashboard);
    s.append(">\n\u{2022} Queue Chat: <#");
    push_dec(&mut s, c.queue_chat);
    s.append(">\n\u{2022} Queue Voice: <#");
    push_dec(&mut s, c.queue_vc);
    s.append(">\n\u{2022} Red Team: <#");
    push_dec(&mut s, red);
    s.append(">\n\u{2022} Blue Team: <#");
    push_dec(&mut s, blue);
    s.append(">\n\n");
    assert(s@ =~= duplicate_text(name@, *c));
    s
}

/// The options offered to link a category whose channels are all known:
/// `duplicate` is the category already using them (its shown name and
/// channels), if any, and `found` the dashboard messages found, (id, time)
/// each.
pub fn link_options(
    guild_name: &str,
    guild_id: u64,
    target: &LinkTarget,
    duplicate: &Option<(String, LinkedChannels)>,
    found: &Vec<(u64, i64)>,
) -> (r: SettingsMenu)
    ensures
        r@ == link_options_page(
            guild_name@,
            guild_id,
            *target,
            match duplicate { Some(x) => Some((x.0@, x.1)), None => None },
            found@,
        ),
{
    let count = found.len();
    let newest = match newest_message(found) {
        Some(m) => m,
        None => 0,
    };
    let ghost dv = match duplicate { Some(x) => Some((x.0@, x.1)), None => None };
    let ghost expected = options_spec(guild_id, *target, dv, count as nat, newest);
    let mut desc = String::new();
    let mut bs: Vec<SettingsButton> = Vec::new();
    match duplicate {
        Some(x) => {
            desc = duplicate_string(&x.0, &x.1);
            if count > 0 {
                desc.append("Found ");
                push_dec(&mut desc, count as u64);
                desc.append(" existing dashboard message(s) in <#");
                push_dec(&mut desc, target.dashboard);
                desc.append(">.\n\n**Options:**\n\u{2022} Remove duplicate category and link to existing dashboard\n\u{2022} Create new dashboard (will create duplicate)\n\u{2022} Cancel");
                bs.push(button(keyed_id("link_existing_remove_dup_", target, Some(newest)), "Remove duplicate & link existing", SettingsButtonStyle::Success));
            } else {
                desc.append("No existing dashboard messages found.\n\n**Options:**\n\u{2022} Remove duplicate category and create new dashboard\n\u{2022} Provide message ID manually\n\u{2022} Cancel");
                bs.push(button(keyed_id("link_remove_dup_new_", target, None), "Remove duplicate & create new", SettingsButtonStyle::Success));
                bs.push(button(keyed_id("link_manual_msg_", target, None), "Provide message ID", SettingsButtonStyle::Primary));
            }
        },
        None => {
            if count > 0 {
                desc.append("**Found ");
                push_dec(&mut desc, count as u64);
                desc.append(" existing dashboard message(s)**\n\nFound bot messages in <#");
                push_dec(&mut desc, target.dashboard);
                desc.append("> that appear to be dashboards.\nMost recent: <https://discord.com/channels/");
                push_dec(&mut desc, guild_id);
                desc.append("/");
                push_dec(&mut desc, target.dashboard);
                desc.append("/");
                push_dec(&mut desc, newest);
                desc.append(">\n\n**Options:**\n\u{2022} Link to existing dashboard (recommended)\n\u{2022} Create new dashboard\n\u{2022} Provide different message ID\n\u{2022} Cancel");
                bs.push(button(keyed_id("link_use_existing_", target, Some(newest)), "Link to existing dashboard", SettingsButtonStyle::Success));
                bs.push(button(keyed_id("link_create_new_", target, Some(newest)), "Create new dashboard", SettingsButtonStyle::Primary));
                bs.push(button(keyed_id("link_manual_msg_", target, Some(newest)), "Provide message ID", SettingsButtonStyle::Secondary));
            } else {
                desc.append("\u{2139}\u{fe0f} **No existing dashboard messages found**\n\nSearched recent messages in <#");
                push_dec(&mut desc, target.dashboard);
                desc.append("> but didn't find any existing dashboards.\n\n**Options:**\n\u{2022} Create new dashboard\n\u{2022} Provide message ID manually (if you know it exists)\n\u{2022} Cancel");
                bs.push(button(keyed_id("link_create_new_", target, None), "Create new dashboard", SettingsButtonStyle::Success));
                bs.push(button(keyed_id("link_manual_msg_", target, None), "Provide message ID", SettingsButtonStyle::Secondary));
            }
        },
    }
    bs.push(button(String::from_str("server_settings_link_cancel"), "Cancel", SettingsButtonStyle::Danger));
    assert(desc@ =~= expected.0);
    assert(buttons_view(bs@) =~= expected.1);
    let mut title = String::from_str(guild_name);
    title.append(" - Link Category Options");
    let m = SettingsMenu::new(title).description(desc).row(SettingsRow::Buttons(bs));
    assert(m@.rows =~= seq![RowView::Buttons(expected.1)]);
    m
}

/// Why the state a link button carries could not be read.
#[derive(Debug, Clone, Copy, PartialEq, Eq, Structural)]
pub enum StateError {
    /// Not the expected number of `_`-separated fields ("Invalid state data")
    InvalidState,
    /// A field is not a hexadecimal id
    BadId(IntErrorKind),
}

/// The first `n` fields of `ps` read as hexadecimal channel ids (never
/// zero), in order; the first that does not read decides the error.
pub open spec fn ids_spec(ps: Seq<Seq<char>>, n: int) -> Result<Seq<u64>, IntErrorKind>
    decreases n,
{
    if n <= 0 {
        Ok(Seq::empty())
    } else {
        match ids_spec(ps, n - 1) {
            Err(e) => Err(e),
            Ok(v) => match cid_spec(ps[n - 1]) {
                Ok(x) => Ok(v.push(x)),
                Err(e) => Err(e),
            },
        }
    }
}

/// What reading a link button's state gives: the first `count` channel
/// ids and, with `with_message`, the message id of the sixth field. A
/// state with a message has exactly six fields; one without has at least
/// five.
pub open spec fn target_spec(s: Seq<char>, count: int, with_message: bool) -> Result<(Seq<u64>, Option<u64>), StateError> {
    let ps = split_spec(s, '_');
    if (with_message && ps.len() != 6) || (!with_message && ps.len() < 5) {
        Err(StateError::InvalidState)
    } else {
        match ids_spec(ps, count) {
            Err(e) => Err(StateError::BadId(e)),
            Ok(v) => if with_message {
                match from_hex_spec(ps[5]) {
                    Ok(m) => Ok((v, Some(m))),
                    Err(e) => Err(StateError::BadId(e)),
                }
            } else {
                Ok((v, None))
            },
        }
    }
}

/// Reads the state a link button carries (after its prefix): the first
/// `count` channel ids and, with `with_message`, the dashboard message id.
pub fn read_link_target(s: &str, count: usize, with_message: bool) -> (r: Result<(Vec<u64>, Option<u64>), StateError>)
    requires
        count <= 5,
    ensures
        match r {
            Ok((v, m)) => target_spec(s@, count as int, with_message) == Ok::<(Seq<u64>, Option<u64>), StateError>((v@, m)),
            Err(e) => target_spec(s@, count as int, with_message) == Err::<(Seq<u64>, Option<u64>), StateError>(e),
        },
{
    let parts = split_on(s, '_');
    let ghost ps = parts@.map_values(|x: String| x@);
    assert(ps == split_spec(s@, '_'));
    let n = parts.len();
    if (with_message && n != 6) || (!with_message && n < 5) {
        return Err(StateError::InvalidState);
    }
    let mut ids: Vec<u64> = Vec::new();
    let mut k: usize = 0;
    while k < count
        invariant
            n == parts@.len(),
            ps == parts@.map_values(|x: String| x@),
            ps == split_spec(s@, '_'),
            n >= 5,
            with_message ==> n == 6,
            count <= 5,
            k <= count,
            ids_spec(ps, k as int) == Ok::<Seq<u64>, IntErrorKind>(ids@),
        decreases count - k,
    {
        assert(ps[k as int] == parts@[k as int]@);
        match parse_cid(parts[k].as_str()) {
            Ok(x) => {
                ids.push(x);
            },
            Err(e) => {
                assert(ids_spec(ps, k as int + 1) == Err::<Seq<u64>, IntErrorKind>(e));
                proof {
                    lemma_ids_err(ps, k as int + 1, count as int);
                }
                return Err(StateError::BadId(e));
            },
        }
        k = k + 1;
    }
    if with_message {
        assert(ps[5] == parts@[5]@);
        match from_hex(parts[5].as_str()) {
            Ok(m) => Ok((ids, Some(m))),
            Err(e) => Err(StateError::BadId(e)),
        }
    } else {
        Ok((ids, None))
    }
}

proof fn lemma_ids_err(ps: Seq<Seq<char>>, k: int, n: int)
    requires
        0 <= k <= n,
        ids_spec(ps, k) is Err,
    ensures
        ids_spec(ps, n) == ids_spec(ps, k),
    decreases n - k,
{
    if k < n {
        lemma_ids_err(ps, k, n - 1);
    }
}

#[verifier::spinoff_prover]
#[verifier::rlimit(60)]
proof fn lemma_join6(f: Seq<Seq<char>>)
    requires
        f.len() == 6,
    ensures
        join_spec(f, '_') == f[0] + seq!['_'] + f[1] + seq!['_'] + f[2] + seq!['_'] + f[3] + seq!['_'] + f[4]
            + seq!['_'] + f[5],
{
    let f1 = f.drop_first();
    let f2 = f1.drop_first();
    let f3 = f2.drop_first();
    let f4 = f3.drop_first();
    let f5 = f4.drop_first();
    assert(join_spec(f5, '_') == f[5]);
    assert(join_spec(f4, '_') =~= f[4] + seq!['_'] + f[5]);
    assert(join_spec(f3, '_') =~= f[3] + seq!['_'] + f[4] + seq!['_'] + f[5]);
    assert(join_spec(f2, '_') =~= f[2] + seq!['_'] + f[3] + seq!['_'] + f[4] + seq!['_'] + f[5]);
    assert(join_spec(f1, '_') =~= f[1] + seq!['_'] + f[2] + seq!['_'] + f[3] + seq!['_'] + f[4] + seq!['_'] + f[5]);
}

#[verifier::spinoff_prover]
#[verifier::rlimit(60)]
proof fn lemma_join5(g: Seq<Seq<char>>)
    requires
        g.len() == 5,
    ensures
        join_spec(g, '_') == g[0] + seq!['_'] + g[1] + seq!['_'] + g[2] + seq!['_'] + g[3] + seq!['_'] + g[4],
{
    let g1 = g.drop_first();
    let g2 = g1.drop_first();
    let g3 = g2.drop_first();
    let g4 = g3.drop_first();
    assert(join_spec(g4, '_') == g[4]);
    assert(join_spec(g3, '_') =~= g[3] + seq!['_'] + g[4]);
    assert(join_spec(g2, '_') =~= g[2] + seq!['_'] + g[3] + seq!['_'] + g[4]);
    assert(join_spec(g1, '_') =~= g[1] + seq!['_'] + g[2] + seq!['_'] + g[3] + seq!['_'] + g[4]);
}

proof fn lemma_state_split(t: LinkTarget, m: u64)
    ensures
        split_spec(state5(t.dashboard, t.queue, t.queue_vc, t.red, t.blue), '_')
            == seq![hex(t.dashboard as nat), hex(t.queue as nat), hex(t.queue_vc as nat), hex(t.red as nat), hex(t.blue as nat)],
        split_spec(state6(t.dashboard, t.queue, t.queue_vc, t.red, t.blue, m), '_')
            == seq![hex(t.dashboard as nat), hex(t.queue as nat), hex(t.queue_vc as nat), hex(t.red as nat), hex(t.blue as nat), hex(m as nat)],
{
    reveal_strlit("_");
    assert("_"@ =~= seq!['_']);
    let f6 = seq![hex(t.dashboard as nat), hex(t.queue as nat), hex(t.queue_vc as nat), hex(t.red as nat), hex(t.blue as nat), hex(m as nat)];
    let f5 = f6.take(5);
    assert(f5 =~= seq![hex(t.dashboard as nat), hex(t.queue as nat), hex(t.queue_vc as nat), hex(t.red as nat), hex(t.blue as nat)]);
    lemma_hex_no_sep(t.dashboard as nat);
    lemma_hex_no_sep(t.queue as nat);
    lemma_hex_no_sep(t.queue_vc as nat);
    lemma_hex_no_sep(t.red as nat);
    lemma_hex_no_sep(t.blue as nat);
    lemma_hex_no_sep(m as nat);
    assert forall|k: int| 0 <= k < f6.len() implies no_sep(#[trigger] f6[k], '_') by {
        if k == 0 {
        } else if k == 1 {
        } else if k == 2 {
        } else if k == 3 {
        } else if k == 4 {
        } else {
        }
    }
    assert forall|k: int| 0 <= k < f5.len() implies no_sep(#[trigger] f5[k], '_') by {
        assert(f5[k] == f6[k]);
    }
    lemma_join6(f6);
    lemma_join5(f5);
    assert(join_spec(f5, '_') =~= state5(t.dashboard, t.queue, t.queue_vc, t.red, t.blue));
    assert(join_spec(f6, '_') =~= state6(t.dashboard, t.queue, t.queue_vc, t.red, t.blue, m));
    lemma_split_join(f5, '_');
    lemma_split_join(f6, '_');
}

proof fn lemma_ids_read(ps: Seq<Seq<char>>, vals: Seq<u64>, n: int)
    requires
        0 <= n <= vals.len(),
        n <= ps.len(),
        forall|k: int| 0 <= k < n ==> cid_spec(#[trigger] ps[k]) == Ok::<u64, IntErrorKind>(vals[k]),
    ensures
        ids_spec(ps, n) == Ok::<Seq<u64>, IntErrorKind>(vals.take(n)),
    decreases n,
{
    if n > 0 {
        lemma_ids_read(ps, vals, n - 1);
        assert(cid_spec(ps[n - 1]) == Ok::<u64, IntErrorKind>(vals[n - 1]));
        assert(vals.take(n - 1).push(vals[n - 1]) =~= vals.take(n));
    } else {
        assert(vals.take(0) =~= Seq::<u64>::empty());
    }
}

/// The state a link button carries reads back as the channels it was
/// written with, and the dashboard message when it carries one.
pub proof fn lemma_link_target_round_trip(t: LinkTarget, m: u64)
    requires
        t.dashboard != 0,
        t.queue != 0,
        t.queue_vc != 0,
        t.red != 0,
        t.blue != 0,
    ensures
        target_spec(state5(t.dashboard, t.queue, t.queue_vc, t.red, t.blue), 5, false)
            == Ok::<(Seq<u64>, Option<u64>), StateError>((seq![t.dashboard, t.queue, t.queue_vc, t.red, t.blue], None)),
        target_spec(state6(t.dashboard, t.queue, t.queue_vc, t.red, t.blue, m), 5, true)
            == Ok::<(Seq<u64>, Option<u64>), StateError>((seq![t.dashboard, t.queue, t.queue_vc, t.red, t.blue], Some(m))),
        target_spec(state6(t.dashboard, t.queue, t.queue_vc, t.red, t.blue, m), 3, true)
            == Ok::<(Seq<u64>, Option<u64>), StateError>((seq![t.dashboard, t.queue, t.queue_vc], Some(m))),
{
    lemma_state_split(t, m);
    lemma_hex_round_trip(t.dashboard);
    lemma_hex_round_trip(t.queue);
    lemma_hex_round_trip(t.queue_vc);
    lemma_hex_round_trip(t.red);
    lemma_hex_round_trip(t.blue);
    lemma_hex_round_trip(m);
    let vals = seq![t.dashboard, t.queue, t.queue_vc, t.red, t.blue, m];
    let p5 = split_spec(state5(t.dashboard, t.queue, t.queue_vc, t.red, t.blue), '_');
    let p6 = split_spec(state6(t.dashboard, t.queue, t.queue_vc, t.red, t.blue, m), '_');
    assert forall|k: int| 0 <= k < 5 implies cid_spec(#[trigger] p6[k]) == Ok::<u64, IntErrorKind>(vals[k]) by {
        if k == 0 {
        } else if k == 1 {
        } else if k == 2 {
        } else if k == 3 {
        } else if k == 4 {
        } else {
        }
    }
    assert(from_hex_spec(p6[5]) == Ok::<u64, IntErrorKind>(m));
    assert forall|k: int| 0 <= k < 5 implies cid_spec(#[trigger] p5[k]) == Ok::<u64, IntErrorKind>(vals[k]) by {
        assert(p5[k] == p6[k]);
    }
    lemma_ids_read(p5, vals, 5);
    lemma_ids_read(p6, vals, 5);
    lemma_ids_read(p6, vals, 3);
    assert(vals.take(5) =~= seq![t.dashboard, t.queue, t.queue_vc, t.red, t.blue]);
    assert(vals.take(3) =~= seq![t.dashboard, t.queue, t.queue_vc]);
}

} // verus!
