//! Linking an existing channel category: the channels found by their
//! names, and the channels chosen so far, which travel in the id of the
//! channel select as hexadecimal ids joined by `_` and followed by the
//! letter of the channel to choose next.

use vstd::prelude::*;
use vstd::string::*;
use crate::ids::{IntErrorKind, from_hex_spec, cid_spec, opt_cid_spec, hex, hex_char, push_hex, parse_cid, parse_opt_cid,
    lemma_hex_value, lemma_hex_round_trip};
use crate::text::{dec, push_dec};
use crate::parse::{split_spec, split_on, join_spec, no_sep, lemma_split_join, all_hex, is_hex};
use crate::text::str_eq;
use crate::forms::{lowercase, to_lowercase};

verus! {

/// A channel of a category to link.
#[derive(Debug, Clone, Copy, PartialEq, Eq, Structural)]
pub enum LinkSlot {
    Dashboard,
    Queue,
    Ping,
    QueueVc,
    Red,
    Blue,
}

/// The channels chosen so far for a category being linked.
#[derive(Debug, Clone, Copy, PartialEq, Eq, Structural)]
pub struct LinkState {
    pub category: u64,
    pub dashboard: Option<u64>,
    pub queue: Option<u64>,
    pub ping: Option<u64>,
    pub queue_vc: Option<u64>,
    pub red: Option<u64>,
    pub blue: Option<u64>,
}

/// Why a link state could not be read.
#[derive(Debug, Clone, Copy, PartialEq, Eq, Structural)]
pub enum LinkError {
    /// Not the expected number of `_`-separated fields
    InvalidState,
    /// A field is not a hexadecimal id
    BadId(IntErrorKind),
}

/// The letter of a channel in a link state.
pub open spec fn slot_char(t: LinkSlot) -> char {
    match t {
        LinkSlot::Dashboard => 'd',
        LinkSlot::Queue => 'q',
        LinkSlot::Ping => 'p',
        LinkSlot::QueueVc => 'v',
        LinkSlot::Red => 'r',
        LinkSlot::Blue => 'b',
    }
}

/// The channel a letter field names, if any.
pub open spec fn slot_of_spec(s: Seq<char>) -> Option<LinkSlot> {
    if s.len() != 1 {
        None
    } else if s[0] == 'd' {
        Some(LinkSlot::Dashboard)
    } else if s[0] == 'q' {
        Some(LinkSlot::Queue)
    } else if s[0] == 'p' {
        Some(LinkSlot::Ping)
    } else if s[0] == 'v' {
        Some(LinkSlot::QueueVc)
    } else if s[0] == 'r' {
        Some(LinkSlot::Red)
    } else if s[0] == 'b' {
        Some(LinkSlot::Blue)
    } else {
        None
    }
}

/// An optional id as a field: hexadecimal, or `0` for none.
pub open spec fn opt_hex(o: Option<u64>) -> Seq<char> {
    match o {
        Some(v) => hex(v as nat),
        None => seq!['0'],
    }
}

/// The channel chosen next while every channel is asked for: the first
/// missing of dashboard, queue chat, ping, queue voice and red, else blue.
pub open spec fn next_slot_spec(st: LinkState) -> LinkSlot {
    if st.dashboard is None {
        LinkSlot::Dashboard
    } else if st.queue is None {
        LinkSlot::Queue
    } else if st.ping is None {
        LinkSlot::Ping
    } else if st.queue_vc is None {
        LinkSlot::QueueVc
    } else if st.red is None {
        LinkSlot::Red
    } else {
        LinkSlot::Blue
    }
}

/// The channel chosen next after a choice: as above but without the ping
/// channel.
pub open spec fn next_slot_after_spec(st: LinkState) -> LinkSlot {
    if st.dashboard is None {
        LinkSlot::Dashboard
    } else if st.queue is None {
        LinkSlot::Queue
    } else if st.queue_vc is None {
        LinkSlot::QueueVc
    } else if st.red is None {
        LinkSlot::Red
    } else {
        LinkSlot::Blue
    }
}

/// The eight fields of a link state that asks for channel `t`.
pub open spec fn state_fields(st: LinkState, t: LinkSlot) -> Seq<Seq<char>> {
    seq![
        hex(st.category as nat), opt_hex(st.dashboard), opt_hex(st.queue), opt_hex(st.ping),
        opt_hex(st.queue_vc), opt_hex(st.red), opt_hex(st.blue), seq![slot_char(t)],
    ]
}

/// A link state that asks for channel `t`, as carried in a select's id.
pub open spec fn encode_spec(st: LinkState, t: LinkSlot) -> Seq<char> {
    join_spec(state_fields(st, t), '_')
}

/// The seven fields written after a choice: the ping channel is left out,
/// and the ping letter becomes `x`.
pub open spec fn short_fields(st: LinkState, t: LinkSlot) -> Seq<Seq<char>> {
    seq![
        hex(st.category as nat), opt_hex(st.dashboard), opt_hex(st.queue), opt_hex(st.queue_vc),
        opt_hex(st.red), opt_hex(st.blue), seq![if t == LinkSlot::Ping { 'x' } else { slot_char(t) }],
    ]
}

/// What reading a link state gives: the state and the channel it asks for
/// (none for an unknown letter).
pub open spec fn decode_spec(s: Seq<char>) -> Result<(LinkState, Option<LinkSlot>), LinkError> {
    let ps = split_spec(s, '_');
    if ps.len() != 8 {
        Err(LinkError::InvalidState)
    } else {
        match (cid_spec(ps[0]), opt_cid_spec(ps[1]), opt_cid_spec(ps[2]), opt_cid_spec(ps[3]),
            opt_cid_spec(ps[4]), opt_cid_spec(ps[5]), opt_cid_spec(ps[6])) {
            (Err(e), _, _, _, _, _, _) => Err(LinkError::BadId(e)),
            (Ok(_), Err(e), _, _, _, _, _) => Err(LinkError::BadId(e)),
            (Ok(_), Ok(_), Err(e), _, _, _, _) => Err(LinkError::BadId(e)),
            (Ok(_), Ok(_), Ok(_), Err(e), _, _, _) => Err(LinkError::BadId(e)),
            (Ok(_), Ok(_), Ok(_), Ok(_), Err(e), _, _) => Err(LinkError::BadId(e)),
            (Ok(_), Ok(_), Ok(_), Ok(_), Ok(_), Err(e), _) => Err(LinkError::BadId(e)),
            (Ok(_), Ok(_), Ok(_), Ok(_), Ok(_), Ok(_), Err(e)) => Err(LinkError::BadId(e)),
            (Ok(c), Ok(d), Ok(q), Ok(p), Ok(v), Ok(r), Ok(b)) => Ok((
                LinkState { category: c, dashboard: d, queue: q, ping: p, queue_vc: v, red: r, blue: b },
                slot_of_spec(ps[7]),
            )),
        }
    }
}

fn slot_of(s: &str) -> (r: Option<LinkSlot>)
    ensures
        r == slot_of_spec(s@),
{
    if s.unicode_len() != 1 {
        return None;
    }
    let c = s.get_char(0);
    if c == 'd' {
        Some(LinkSlot::Dashboard)
    } else if c == 'q' {
        Some(LinkSlot::Queue)
    } else if c == 'p' {
        Some(LinkSlot::Ping)
    } else if c == 'v' {
        Some(LinkSlot::QueueVc)
    } else if c == 'r' {
        Some(LinkSlot::Red)
    } else if c == 'b' {
        Some(LinkSlot::Blue)
    } else {
        None
    }
}

/// Reads a link state carried in a select's id (after `link_ch_`).
pub fn decode_link_state(s: &str) -> (r: Result<(LinkState, Option<LinkSlot>), LinkError>)
    ensures
        r == decode_spec(s@),
{
    let parts = split_on(s, '_');
    let ghost ps = parts@.map_values(|x: String| x@);
    assert(ps == split_spec(s@, '_'));
    if parts.len() != 8 {
        return Err(LinkError::InvalidState);
    }
    assert(forall|k: int| 0 <= k < 8 ==> #[trigger] ps[k] == parts@[k]@);
    let c = match parse_cid(parts[0].as_str()) {
        Ok(v) => v,
        Err(e) => {
            return Err(LinkError::BadId(e));
        },
    };
    let d = match parse_opt_cid(parts[1].as_str()) {
        Ok(v) => v,
        Err(e) => {
            return Err(LinkError::BadId(e));
        },
    };
    let q = match parse_opt_cid(parts[2].as_str()) {
        Ok(v) => v,
        Err(e) => {
            return Err(LinkError::BadId(e));
        },
    };
    let p = match parse_opt_cid(parts[3].as_str()) {
        Ok(v) => v,
        Err(e) => {
            return Err(LinkError::BadId(e));
        },
    };
    let v = match parse_opt_cid(parts[4].as_str()) {
        Ok(v) => v,
        Err(e) => {
            return Err(LinkError::BadId(e));
        },
    };
    let red = match parse_opt_cid(parts[5].as_str()) {
        Ok(v) => v,
        Err(e) => {
            return Err(LinkError::BadId(e));
        },
    };
    let blue = match parse_opt_cid(parts[6].as_str()) {
        Ok(v) => v,
        Err(e) => {
            return Err(LinkError::BadId(e));
        },
    };
    let t = slot_of(parts[7].as_str());
    Ok((LinkState { category: c, dashboard: d, queue: q, ping: p, queue_vc: v, red, blue }, t))
}

fn push_opt_hex(out: &mut String, o: Option<u64>)
    ensures
        final(out)@ == old(out)@ + opt_hex(o),
{
    match o {
        Some(v) => push_hex(out, v),
        None => {
            out.append("0");
            proof {
                reveal_strlit("0");
            }
            assert("0"@ =~= seq!['0']);
        },
    }
}

fn slot_str(t: LinkSlot) -> (r: &'static str)
    ensures
        r@ == seq![slot_char(t)],
{
    proof {
        reveal_strlit("d");
        reveal_strlit("q");
        reveal_strlit("p");
        reveal_strlit("v");
        reveal_strlit("r");
        reveal_strlit("b");
    }
    match t {
        LinkSlot::Dashboard => "d",
        LinkSlot::Queue => "q",
        LinkSlot::Ping => "p",
        LinkSlot::QueueVc => "v",
        LinkSlot::Red => "r",
        LinkSlot::Blue => "b",
    }
}

#[verifier::spinoff_prover]
#[verifier::rlimit(60)]
proof fn lemma_join8(f: Seq<Seq<char>>)
    requires
        f.len() == 8,
    ensures
        join_spec(f, '_') == f[0] + seq!['_'] + f[1] + seq!['_'] + f[2] + seq!['_'] + f[3] + seq!['_'] + f[4]
            + seq!['_'] + f[5] + seq!['_'] + f[6] + seq!['_'] + f[7],
{
    let f1 = f.drop_first();
    let f2 = f1.drop_first();
    let f3 = f2.drop_first();
    let f4 = f3.drop_first();
    let f5 = f4.drop_first();
    let f6 = f5.drop_first();
    let f7 = f6.drop_first();
    assert(join_spec(f7, '_') == f[7]);
    assert(join_spec(f6, '_') =~= f[6] + seq!['_'] + f[7]);
    assert(join_spec(f5, '_') =~= f[5] + seq!['_'] + f[6] + seq!['_'] + f[7]);
    assert(join_spec(f4, '_') =~= f[4] + seq!['_'] + f[5] + seq!['_'] + f[6] + seq!['_'] + f[7]);
    assert(join_spec(f3, '_') =~= f[3] + seq!['_'] + f[4] + seq!['_'] + f[5] + seq!['_'] + f[6] + seq!['_'] + f[7]);
    assert(join_spec(f2, '_') =~= f[2] + seq!['_'] + f[3] + seq!['_'] + f[4] + seq!['_'] + f[5] + seq!['_'] + f[6]
        + seq!['_'] + f[7]);
    assert(join_spec(f1, '_') =~= f[1] + seq!['_'] + f[2] + seq!['_'] + f[3] + seq!['_'] + f[4] + seq!['_'] + f[5]
        + seq!['_'] + f[6] + seq!['_'] + f[7]);
    assert(join_spec(f, '_') =~= f[0] + seq!['_'] + f[1] + seq!['_'] + f[2] + seq!['_'] + f[3] + seq!['_'] + f[4]
        + seq!['_'] + f[5] + seq!['_'] + f[6] + seq!['_'] + f[7]);
}

/// Writes a link state that asks for channel `t`.
pub fn encode_link_state(st: &LinkState, t: LinkSlot) -> (r: String)
    ensures
        r@ == encode_spec(*st, t),
{
    let mut x = String::new();
    push_hex(&mut x, st.category);
    x.append("_");
    push_opt_hex(&mut x, st.dashboard);
    x.append("_");
    push_opt_hex(&mut x, st.queue);
    x.append("_");
    push_opt_hex(&mut x, st.ping);
    x.append("_");
    push_opt_hex(&mut x, st.queue_vc);
    x.append("_");
    push_opt_hex(&mut x, st.red);
    x.append("_");
    push_opt_hex(&mut x, st.blue);
    x.append("_");
    x.append(slot_str(t));
    proof {
        reveal_strlit("_");
        assert("_"@ =~= seq!['_']);
        lemma_join8(state_fields(*st, t));
        assert(x@ =~= encode_spec(*st, t));
    }
    x
}

pub(crate) proof fn lemma_hex_no_sep(n: nat)
    ensures
        no_sep(hex(n), '_'),
        hex(n) == seq!['0'] <==> n == 0,
{
    lemma_hex_value(n);
    assert forall|k: int| 0 <= k < hex(n).len() implies #[trigger] hex(n)[k] != '_' by {
        assert(is_hex(hex(n)[k]));
    }
    if n >= 16 {
        assert(hex(n).len() >= 2) by {
            lemma_hex_value(n / 16);
        }
    } else {
        assert(hex(n) == seq![hex_char(n)]);
    }
}

/// Reading back a link state that the bot wrote gives the same channels
/// and the channel it asked for, when every id is non-zero.
pub proof fn lemma_link_state_round_trip(st: LinkState, t: LinkSlot)
    requires
        st.category != 0,
        st.dashboard != Some(0u64),
        st.queue != Some(0u64),
        st.ping != Some(0u64),
        st.queue_vc != Some(0u64),
        st.red != Some(0u64),
        st.blue != Some(0u64),
    ensures
        decode_spec(encode_spec(st, t)) == Ok::<(LinkState, Option<LinkSlot>), LinkError>((st, Some(t))),
{
    let f = state_fields(st, t);
    lemma_hex_no_sep(st.category as nat);
    lemma_hex_round_trip(st.category);
    assert forall|o: Option<u64>| o != Some(0u64) implies no_sep(#[trigger] opt_hex(o), '_')
        && opt_cid_spec(opt_hex(o)) == Ok::<Option<u64>, IntErrorKind>(o) by {
        match o {
            Some(v) => {
                lemma_hex_no_sep(v as nat);
                lemma_hex_round_trip(v);
            },
            None => {},
        }
    }
    assert(opt_hex(st.dashboard) == f[1] && opt_hex(st.queue) == f[2] && opt_hex(st.ping) == f[3]);
    assert(opt_hex(st.queue_vc) == f[4] && opt_hex(st.red) == f[5] && opt_hex(st.blue) == f[6]);
    assert(no_sep(f[7], '_'));
    assert forall|k: int| 0 <= k < f.len() implies no_sep(#[trigger] f[k], '_') by {
        if k == 0 {
        } else if k == 1 {
        } else if k == 2 {
        } else if k == 3 {
        } else if k == 4 {
        } else if k == 5 {
        } else if k == 6 {
        } else {
        }
    }
    lemma_split_join(f, '_');
    let ps = split_spec(encode_spec(st, t), '_');
    assert(ps == f);
    match t {
        LinkSlot::Dashboard => assert(slot_of_spec(f[7]) == Some(t)),
        LinkSlot::Queue => assert(slot_of_spec(f[7]) == Some(t)),
        LinkSlot::Ping => assert(slot_of_spec(f[7]) == Some(t)),
        LinkSlot::QueueVc => assert(slot_of_spec(f[7]) == Some(t)),
        LinkSlot::Red => assert(slot_of_spec(f[7]) == Some(t)),
        LinkSlot::Blue => assert(slot_of_spec(f[7]) == Some(t)),
    }
}

/// The state once channel `selected` was chosen for `t` (no change for an
/// unknown letter).
pub open spec fn apply_spec(st: LinkState, t: Option<LinkSlot>, selected: u64) -> LinkState {
    match t {
        Some(LinkSlot::Dashboard) => LinkState { dashboard: Some(selected), ..st },
        Some(LinkSlot::Queue) => LinkState { queue: Some(selected), ..st },
        Some(LinkSlot::Ping) => LinkState { ping: Some(selected), ..st },
        Some(LinkSlot::QueueVc) => LinkState { queue_vc: Some(selected), ..st },
        Some(LinkSlot::Red) => LinkState { red: Some(selected), ..st },
        Some(LinkSlot::Blue) => LinkState { blue: Some(selected), ..st },
        None => st,
    }
}

/// The channel a link state holds for slot `t`.
pub open spec fn slot_channel(st: LinkState, t: LinkSlot) -> Option<u64> {
    match t {
        LinkSlot::Dashboard => st.dashboard,
        LinkSlot::Queue => st.queue,
        LinkSlot::Ping => st.ping,
        LinkSlot::QueueVc => st.queue_vc,
        LinkSlot::Red => st.red,
        LinkSlot::Blue => st.blue,
    }
}

/// Recording a choice for slot `t` sets that slot's channel to the
/// selected one and leaves the category and every other slot as they were;
/// a choice for no slot changes nothing. Choosing the channel that was
/// asked for moves the question on to another slot, until blue is asked.
pub proof fn lemma_choice_fills_its_slot(st: LinkState, t: LinkSlot, u: LinkSlot, selected: u64)
    ensures
        slot_channel(apply_spec(st, Some(t), selected), t) == Some(selected),
        u != t ==> slot_channel(apply_spec(st, Some(t), selected), u) == slot_channel(st, u),
        apply_spec(st, Some(t), selected).category == st.category,
        apply_spec(st, None, selected) == st,
        next_slot_after_spec(st) != LinkSlot::Blue ==> next_slot_after_spec(
            apply_spec(st, Some(next_slot_after_spec(st)), selected),
        ) != next_slot_after_spec(st),
{
}

/// Whether every channel has been chosen.
pub open spec fn all_chosen_spec(st: LinkState) -> bool {
    st.dashboard is Some && st.queue is Some && st.ping is Some && st.queue_vc is Some && st.red is Some
        && st.blue is Some
}

/// Records channel `selected` as the choice for `t`.
pub fn apply_choice(st: LinkState, t: Option<LinkSlot>, selected: u64) -> (r: LinkState)
    ensures
        r == apply_spec(st, t, selected),
{
    match t {
        Some(LinkSlot::Dashboard) => LinkState { dashboard: Some(selected), ..st },
        Some(LinkSlot::Queue) => LinkState { queue: Some(selected), ..st },
        Some(LinkSlot::Ping) => LinkState { ping: Some(selected), ..st },
        Some(LinkSlot::QueueVc) => LinkState { queue_vc: Some(selected), ..st },
        Some(LinkSlot::Red) => LinkState { red: Some(selected), ..st },
        Some(LinkSlot::Blue) => LinkState { blue: Some(selected), ..st },
        None => st,
    }
}

/// Whether every channel has been chosen.
pub fn all_chosen(st: &LinkState) -> (r: bool)
    ensures
        r == all_chosen_spec(*st),
{
    st.dashboard.is_some() && st.queue.is_some() && st.ping.is_some() && st.queue_vc.is_some() && st.red.is_some()
        && st.blue.is_some()
}

/// The channel to ask for while every channel is asked for.
pub fn next_slot(st: &LinkState) -> (r: LinkSlot)
    ensures
        r == next_slot_spec(*st),
{
    if st.dashboard.is_none() {
        LinkSlot::Dashboard
    } else if st.queue.is_none() {
        LinkSlot::Queue
    } else if st.ping.is_none() {
        LinkSlot::Ping
    } else if st.queue_vc.is_none() {
        LinkSlot::QueueVc
    } else if st.red.is_none() {
        LinkSlot::Red
    } else {
        LinkSlot::Blue
    }
}

/// The channel to ask for after a choice (the ping channel is not asked
/// for again).
pub fn next_slot_after(st: &LinkState) -> (r: LinkSlot)
    ensures
        r == next_slot_after_spec(*st),
{
    if st.dashboard.is_none() {
        LinkSlot::Dashboard
    } else if st.queue.is_none() {
        LinkSlot::Queue
    } else if st.queue_vc.is_none() {
        LinkSlot::QueueVc
    } else if st.red.is_none() {
        LinkSlot::Red
    } else {
        LinkSlot::Blue
    }
}

/// Whether channel `t` is a voice channel (else a text channel).
pub open spec fn slot_is_voice_spec(t: LinkSlot) -> bool {
    t == LinkSlot::QueueVc || t == LinkSlot::Red || t == LinkSlot::Blue
}

/// Whether channel `t` is chosen among voice channels.
pub fn slot_is_voice(t: LinkSlot) -> (r: bool)
    ensures
        r == slot_is_voice_spec(t),
{
    match t {
        LinkSlot::QueueVc | LinkSlot::Red | LinkSlot::Blue => true,
        _ => false,
    }
}

/// How channel `t` is named when it is asked for.
pub open spec fn slot_label_spec(t: LinkSlot) -> Seq<char> {
    match t {
        LinkSlot::Dashboard => "Dashboard (text)"@,
        LinkSlot::Queue => "Queue chat (text)"@,
        LinkSlot::Ping => "Ping channel (text)"@,
        LinkSlot::QueueVc => "Queue voice channel"@,
        LinkSlot::Red => "Red team voice channel"@,
        LinkSlot::Blue => "Blue team voice channel"@,
    }
}

/// How channel `t` is named when it is asked for.
pub fn slot_label(t: LinkSlot) -> (r: &'static str)
    ensures
        r@ == slot_label_spec(t),
{
    match t {
        LinkSlot::Dashboard => "Dashboard (text)",
        LinkSlot::Queue => "Queue chat (text)",
        LinkSlot::Ping => "Ping channel (text)",
        LinkSlot::QueueVc => "Queue voice channel",
        LinkSlot::Red => "Red team voice channel",
        LinkSlot::Blue => "Blue team voice channel",
    }
}

#[verifier::spinoff_prover]
#[verifier::rlimit(60)]
proof fn lemma_join7(f: Seq<Seq<char>>)
    requires
        f.len() == 7,
    ensures
        join_spec(f, '_') == f[0] + seq!['_'] + f[1] + seq!['_'] + f[2] + seq!['_'] + f[3] + seq!['_'] + f[4]
            + seq!['_'] + f[5] + seq!['_'] + f[6],
{
    let f1 = f.drop_first();
    let f2 = f1.drop_first();
    let f3 = f2.drop_first();
    let f4 = f3.drop_first();
    let f5 = f4.drop_first();
    let f6 = f5.drop_first();
    assert(join_spec(f6, '_') == f[6]);
    assert(join_spec(f5, '_') =~= f[5] + seq!['_'] + f[6]);
    assert(join_spec(f4, '_') =~= f[4] + seq!['_'] + f[5] + seq!['_'] + f[6]);
    assert(join_spec(f3, '_') =~= f[3] + seq!['_'] + f[4] + seq!['_'] + f[5] + seq!['_'] + f[6]);
    assert(join_spec(f2, '_') =~= f[2] + seq!['_'] + f[3] + seq!['_'] + f[4] + seq!['_'] + f[5] + seq!['_'] + f[6]);
    assert(join_spec(f1, '_') =~= f[1] + seq!['_'] + f[2] + seq!['_'] + f[3] + seq!['_'] + f[4] + seq!['_'] + f[5]
        + seq!['_'] + f[6]);
    assert(join_spec(f, '_') =~= f[0] + seq!['_'] + f[1] + seq!['_'] + f[2] + seq!['_'] + f[3] + seq!['_'] + f[4]
        + seq!['_'] + f[5] + seq!['_'] + f[6]);
}

/// Writes the state after a choice: seven fields, without the ping
/// channel.
pub fn encode_link_state_after(st: &LinkState, t: LinkSlot) -> (r: String)
    ensures
        r@ == join_spec(short_fields(*st, t), '_'),
{
    let mut x = String::new();
    push_hex(&mut x, st.category);
    x.append("_");
    push_opt_hex(&mut x, st.dashboard);
    x.append("_");
    push_opt_hex(&mut x, st.queue);
    x.append("_");
    push_opt_hex(&mut x, st.queue_vc);
    x.append("_");
    push_opt_hex(&mut x, st.red);
    x.append("_");
    push_opt_hex(&mut x, st.blue);
    x.append("_");
    let letter = match t {
        LinkSlot::Ping => "x",
        _ => slot_str(t),
    };
    proof {
        reveal_strlit("x");
        reveal_strlit("_");
        assert("_"@ =~= seq!['_']);
    }
    x.append(letter);
    proof {
        lemma_join7(short_fields(*st, t));
        assert(x@ =~= join_spec(short_fields(*st, t), '_'));
    }
    x
}

/// What choosing a channel in the linking flow leads to.
pub enum LinkStep {
    /// Every channel is chosen: the category can be created
    Complete(LinkState),
    /// Another channel is asked for, with the state to carry
    Continue { state: LinkState, next: LinkSlot, encoded: String },
}

/// Channel `selected` was chosen in the select whose id carries `state`:
/// the choice is recorded; then either every channel is chosen, or the
/// next one (the ping channel aside) is asked for with the new state.
pub fn link_choice(state: &str, selected: u64) -> (r: Result<LinkStep, LinkError>)
    ensures
        match decode_spec(state@) {
            Err(e) => r == Err::<LinkStep, LinkError>(e),
            Ok((st, t)) => {
                let n = apply_spec(st, t, selected);
                match r {
                    Ok(LinkStep::Complete(c)) => all_chosen_spec(n) && c == n,
                    Ok(LinkStep::Continue { state: c, next, encoded }) => !all_chosen_spec(n) && c == n
                        && next == next_slot_after_spec(n)
                        && encoded@ == join_spec(short_fields(n, next), '_'),
                    Err(_) => false,
                }
            },
        },
{
    let (st, t) = match decode_link_state(state) {
        Ok(x) => x,
        Err(e) => {
            return Err(e);
        },
    };
    let n = apply_choice(st, t, selected);
    if all_chosen(&n) {
        Ok(LinkStep::Complete(n))
    } else {
        let next = next_slot_after(&n);
        let encoded = encode_link_state_after(&n, next);
        Ok(LinkStep::Continue { state: n, next, encoded })
    }
}

/// A chosen channel as shown: a channel mention, or `Not selected`.
pub open spec fn chosen_text(o: Option<u64>) -> Seq<char> {
    match o {
        Some(id) => "<#"@ + dec(id as nat) + ">"@,
        None => "Not selected"@,
    }
}

/// The progress of the linking flow, one line per channel; the ping line
/// only while every channel is asked for.
pub open spec fn progress_spec(st: LinkState, with_ping: bool) -> Seq<char> {
    let ping = if with_ping { "Ping Channel: "@ + chosen_text(st.ping) + "\n"@ } else { Seq::empty() };
    "**Channel Linking Progress:**\n\n"@
        + "Dashboard: "@ + chosen_text(st.dashboard) + "\n"@
        + "Queue Chat: "@ + chosen_text(st.queue) + "\n"@
        + ping
        + "Queue Voice: "@ + chosen_text(st.queue_vc) + "\n"@
        + "Red Team: "@ + chosen_text(st.red) + "\n"@
        + "Blue Team: "@ + chosen_text(st.blue) + "\n"@
}

fn push_line(out: &mut String, label: &str, o: Option<u64>)
    ensures
        final(out)@ == old(out)@ + label@ + chosen_text(o) + "\n"@,
{
    out.append(label);
    match o {
        Some(id) => {
            out.append("<#");
            push_dec(out, id);
            out.append(">");
        },
        None => {
            out.append("Not selected");
        },
    }
    out.append("\n");
    assert(out@ =~= old(out)@ + label@ + chosen_text(o) + "\n"@);
}

/// The progress of the linking flow.
pub fn progress_text(st: &LinkState, with_ping: bool) -> (r: String)
    ensures
        r@ == progress_spec(*st, with_ping),
{
    let mut x = String::from_str("**Channel Linking Progress:**\n\n");
    push_line(&mut x, "Dashboard: ", st.dashboard);
    push_line(&mut x, "Queue Chat: ", st.queue);
    let ghost mid = x@;
    if with_ping {
        push_line(&mut x, "Ping Channel: ", st.ping);
    }
    let ghost after = x@;
    push_line(&mut x, "Queue Voice: ", st.queue_vc);
    push_line(&mut x, "Red Team: ", st.red);
    push_line(&mut x, "Blue Team: ", st.blue);
    proof {
        if !with_ping {
            assert(after =~= mid + Seq::<char>::empty());
        }
    }
    assert(x@ =~= progress_spec(*st, with_ping));
    x
}

/// What the linking page says above the select.
pub open spec fn link_description_spec(st: LinkState, with_ping: bool, next: LinkSlot) -> Seq<char> {
    progress_spec(st, with_ping) + "\n\n**Next:** Select the "@ + slot_label_spec(next)
        + " channel from the dropdown below."@
}

/// What the linking page says above the select.
pub fn link_description(st: &LinkState, with_ping: bool, next: LinkSlot) -> (r: String)
    ensures
        r@ == link_description_spec(*st, with_ping, next),
{
    let mut x = progress_text(st, with_ping);
    x.append("\n\n**Next:** Select the ");
    x.append(slot_label(next));
    x.append(" channel from the dropdown below.");
    assert(x@ =~= link_description_spec(*st, with_ping, next));
    x
}

/// The channels of a category already set up.
pub struct LinkedChannels {
    pub dashboard: u64,
    pub queue_chat: u64,
    pub queue_vc: u64,
    /// (red, blue) voice channels of each team set
    pub teams: Vec<(u64, u64)>,
}

/// Whether a team set uses the red or blue channel to link.
pub open spec fn team_clash(t: (u64, u64), r: u64, b: u64) -> bool {
    t.0 == r || t.1 == b
}

/// Whether category `c` already uses one of the channels to link.
pub open spec fn clashes(c: LinkedChannels, d: u64, q: u64, v: u64, r: u64, b: u64) -> bool {
    c.dashboard == d || c.queue_chat == q || c.queue_vc == v
        || exists|k: int| 0 <= k < c.teams@.len() && #[trigger] team_clash(c.teams@[k], r, b)
}

/// Index of the first category of `cs[i..]` that clashes (or the length).
pub open spec fn first_clash(cs: Seq<LinkedChannels>, d: u64, q: u64, v: u64, r: u64, b: u64, i: int) -> int
    decreases cs.len() - i,
{
    if 0 <= i < cs.len() && !clashes(cs[i], d, q, v, r, b) {
        first_clash(cs, d, q, v, r, b, i + 1)
    } else {
        i
    }
}

fn clashes_exec(c: &LinkedChannels, d: u64, q: u64, v: u64, r: u64, b: u64) -> (res: bool)
    ensures
        res == clashes(*c, d, q, v, r, b),
{
    if c.dashboard == d || c.queue_chat == q || c.queue_vc == v {
        return true;
    }
    let n = c.teams.len();
    let mut k: usize = 0;
    while k < n
        invariant
            n == c.teams@.len(),
            k <= n,
            forall|j: int| 0 <= j < k ==> !#[trigger] team_clash(c.teams@[j], r, b),
        decreases n - k,
    {
        if c.teams[k].0 == r || c.teams[k].1 == b {
            assert(team_clash(c.teams@[k as int], r, b));
            return true;
        }
        assert(!team_clash(c.teams@[k as int], r, b));
        k = k + 1;
    }
    false
}

/// The first category set up already that uses the dashboard, queue chat,
/// queue voice channel, or a red or blue team channel to link: the one to
/// remove before linking.
pub fn find_duplicate(cs: &Vec<LinkedChannels>, d: u64, q: u64, v: u64, r: u64, b: u64) -> (res: Option<usize>)
    ensures
        match res {
            Some(i) => i as int == first_clash(cs@, d, q, v, r, b, 0) && i < cs@.len(),
            None => first_clash(cs@, d, q, v, r, b, 0) == cs@.len(),
        },
{
    let n = cs.len();
    let mut i: usize = 0;
    while i < n
        invariant
            n == cs@.len(),
            i <= n,
            first_clash(cs@, d, q, v, r, b, 0) == first_clash(cs@, d, q, v, r, b, i as int),
        decreases n - i,
    {
        if clashes_exec(&cs[i], d, q, v, r, b) {
            return Some(i);
        }
        i = i + 1;
    }
    None
}

/// The kind of a guild channel, as far as linking tells them apart.
#[derive(Debug, Clone, Copy, PartialEq, Eq, Structural)]
pub enum ChannelKind {
    Text,
    Voice,
    Other,
}

/// A channel of the guild: its id, the channel category it is in, its kind
/// and its name.
pub struct GuildChannel {
    pub id: u64,
    pub parent_id: Option<u64>,
    pub kind: ChannelKind,
    pub name: String,
}

/// The state after looking at channel `id` of kind `kind` whose name in
/// lower case is `n`: each channel still missing is taken by the first
/// channel of its kind with one of its usual names (the queue voice
/// channel: a voice channel named `queue-vc`, `queue`, `pug`, `queue vc`
/// or `waiting`).
pub open spec fn detect_one(st: LinkState, id: u64, kind: ChannelKind, n: Seq<char>) -> LinkState {
    let text = kind == ChannelKind::Text;
    let voice = kind == ChannelKind::Voice;
    let s1 = if st.dashboard is None && text && (n == "dashboard"@ || n == "dash"@) {
        LinkState { dashboard: Some(id), ..st }
    } else {
        st
    };
    let s2 = if s1.queue is None && text
        && (n == "queue"@ || n == "pug-chat"@ || n == "chat"@ || n == "queue-chat"@ || n == "pug"@) {
        LinkState { queue: Some(id), ..s1 }
    } else {
        s1
    };
    let s3 = if s2.ping is None && text && n == "ping"@ { LinkState { ping: Some(id), ..s2 } } else { s2 };
    let s4 = if s3.queue_vc is None && voice
        && (n == "queue-vc"@ || n == "queue"@ || n == "pug"@ || n == "queue vc"@ || n == "waiting"@) {
        LinkState { queue_vc: Some(id), ..s3 }
    } else {
        s3
    };
    let s5 = if s4.red is None && voice && (n == "red"@ || n == "red team"@ || n == "team red"@) {
        LinkState { red: Some(id), ..s4 }
    } else {
        s4
    };
    if s5.blue is None && voice && (n == "blue"@ || n == "blue team"@ || n == "team blue"@ || n == "blu"@) {
        LinkState { blue: Some(id), ..s5 }
    } else {
        s5
    }
}

/// The channels of category `category` found by name among `cs`, looked
/// at in order.
pub open spec fn detect_spec(category: u64, cs: Seq<GuildChannel>) -> LinkState
    decreases cs.len(),
{
    if cs.len() == 0 {
        LinkState { category, dashboard: None, queue: None, ping: None, queue_vc: None, red: None, blue: None }
    } else {
        let before = detect_spec(category, cs.drop_last());
        let c = cs.last();
        if c.parent_id == Some(category) {
            detect_one(before, c.id, c.kind, lowercase(c.name@))
        } else {
            before
        }
    }
}

fn is_one_of(n: &str, names: &Vec<&str>) -> (r: bool)
    ensures
        r == exists|k: int| 0 <= k < names@.len() && n@ == (#[trigger] names@[k])@,
{
    let m = names.len();
    let mut k: usize = 0;
    while k < m
        invariant
            m == names@.len(),
            k <= m,
            forall|j: int| 0 <= j < k ==> n@ != (#[trigger] names@[j])@,
        decreases m - k,
    {
        if str_eq(n, names[k]) {
            return true;
        }
        k = k + 1;
    }
    false
}

/// The state after looking at one channel of the category, given its name
/// in lower case.
pub fn detect_step(st: LinkState, id: u64, kind: ChannelKind, n: &str) -> (r: LinkState)
    ensures
        r == detect_one(st, id, kind, n@),
{
    let text = match kind {
        ChannelKind::Text => true,
        _ => false,
    };
    let voice = match kind {
        ChannelKind::Voice => true,
        _ => false,
    };
    let mut s = st;
    let dash = vec!["dashboard", "dash"];
    assert(dash@[0]@ == "dashboard"@ && dash@[1]@ == "dash"@);
    if s.dashboard.is_none() && text && is_one_of(n, &dash) {
        s = LinkState { dashboard: Some(id), ..s };
    }
    let queue = vec!["queue", "pug-chat", "chat", "queue-chat", "pug"];
    assert(queue@[0]@ == "queue"@ && queue@[1]@ == "pug-chat"@ && queue@[2]@ == "chat"@ && queue@[3]@ == "queue-chat"@
        && queue@[4]@ == "pug"@);
    if s.queue.is_none() && text && is_one_of(n, &queue) {
        s = LinkState { queue: Some(id), ..s };
    }
    if s.ping.is_none() && text && str_eq(n, "ping") {
        s = LinkState { ping: Some(id), ..s };
    }
    let waiting = vec!["queue-vc", "queue", "pug", "queue vc", "waiting"];
    assert(waiting@[0]@ == "queue-vc"@ && waiting@[1]@ == "queue"@ && waiting@[2]@ == "pug"@ && waiting@[3]@ == "queue vc"@
        && waiting@[4]@ == "waiting"@);
    if s.queue_vc.is_none() && voice && is_one_of(n, &waiting) {
        s = LinkState { queue_vc: Some(id), ..s };
    }
    let red = vec!["red", "red team", "team red"];
    assert(red@[0]@ == "red"@ && red@[1]@ == "red team"@ && red@[2]@ == "team red"@);
    if s.red.is_none() && voice && is_one_of(n, &red) {
        s = LinkState { red: Some(id), ..s };
    }
    let blue = vec!["blue", "blue team", "team blue", "blu"];
    assert(blue@[0]@ == "blue"@ && blue@[1]@ == "blue team"@ && blue@[2]@ == "team blue"@ && blue@[3]@ == "blu"@);
    if s.blue.is_none() && voice && is_one_of(n, &blue) {
        s = LinkState { blue: Some(id), ..s };
    }
    s
}

/// The channels of category `category` found by their names among the
/// guild's channels, in the order given.
pub fn detect_channels(category: u64, channels: &Vec<GuildChannel>) -> (r: LinkState)
    ensures
        r == detect_spec(category, channels@),
{
    let mut st = LinkState { category, dashboard: None, queue: None, ping: None, queue_vc: None, red: None, blue: None };
    let n = channels.len();
    let mut i: usize = 0;
    while i < n
        invariant
            n == channels@.len(),
            i <= n,
            st == detect_spec(category, channels@.take(i as int)),
        decreases n - i,
    {
        assert(channels@.take(i as int + 1).drop_last() =~= channels@.take(i as int));
        assert(channels@.take(i as int + 1).last() == channels@[i as int]);
        let c = &channels[i];
        let in_category = match c.parent_id {
            Some(p) => p == category,
            None => false,
        };
        if in_category {
            let lower = to_lowercase(c.name.as_str());
            st = detect_step(st, c.id, c.kind, lower.as_str());
        }
        i = i + 1;
    }
    assert(channels@.take(n as int) =~= channels@);
    st
}

/// The channels of category `category` that can be chosen by hand for a
/// voice slot (`voice`) or a text slot: (name, id in decimal) each, in
/// order.
pub open spec fn slot_choices_spec(category: u64, cs: Seq<GuildChannel>, voice: bool) -> Seq<(Seq<char>, Seq<char>)>
    decreases cs.len(),
{
    if cs.len() == 0 {
        Seq::empty()
    } else {
        let c = cs.last();
        let before = slot_choices_spec(category, cs.drop_last(), voice);
        if c.parent_id == Some(category) && c.kind == (if voice { ChannelKind::Voice } else { ChannelKind::Text }) {
            before.push((c.name@, dec(c.id as nat)))
        } else {
            before
        }
    }
}

/// The channels that can be chosen by hand for a slot.
pub fn slot_choices(category: u64, channels: &Vec<GuildChannel>, voice: bool) -> (r: Vec<(String, String)>)
    ensures
        r@.map_values(|o: (String, String)| (o.0@, o.1@)) == slot_choices_spec(category, channels@, voice),
{
    let n = channels.len();
    let mut out: Vec<(String, String)> = Vec::new();
    let mut i: usize = 0;
    while i < n
        invariant
            n == channels@.len(),
            i <= n,
            out@.map_values(|o: (String, String)| (o.0@, o.1@)) == slot_choices_spec(category, channels@.take(i as int), voice),
        decreases n - i,
    {
        assert(channels@.take(i as int + 1).drop_last() =~= channels@.take(i as int));
        assert(channels@.take(i as int + 1).last() == channels@[i as int]);
        let c = &channels[i];
        let in_category = match c.parent_id {
            Some(p) => p == category,
            None => false,
        };
        let kind_ok = match c.kind {
            ChannelKind::Voice => voice,
            ChannelKind::Text => !voice,
            ChannelKind::Other => false,
        };
        if in_category && kind_ok {
            let ghost before = out@.map_values(|o: (String, String)| (o.0@, o.1@));
            let mut id = String::new();
            push_dec(&mut id, c.id);
            out.push((c.name.clone(), id));
            assert(out@.map_values(|o: (String, String)| (o.0@, o.1@)) =~= before.push((c.name@, dec(c.id as nat))));
        }
        i = i + 1;
    }
    assert(channels@.take(n as int) =~= channels@);
    out
}

} // verus!
