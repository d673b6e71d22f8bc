//! The dashboard's ping button: who may ping and how often, how many
//! players each format still needs, the ping itself with its cooldown, and
//! the ping message.

use vstd::prelude::*;
use vstd::string::*;
use crate::text::{dec, push_dec};
use crate::session::SessionStatus;
use crate::category::{Session, Format, Category, format_index};
use crate::forms::{trim_spec, trim};

verus! {

/// Whether a ping may be sent now.
#[derive(Debug, Clone, Copy, PartialEq, Eq, Structural)]
pub enum PingCheck {
    /// "Only runners can use the ping button."
    OnlyRunners,
    /// The last ping is too recent: this many whole seconds are left.
    Cooldown(u64),
    Allowed,
}

/// The cooldown of the one pinging, in milliseconds: the runner cooldown
/// for runners, else the user cooldown (both in minutes).
pub open spec fn cooldown_ms(is_runner: bool, user_minutes: u64, runner_minutes: u64) -> int {
    (if is_runner { runner_minutes } else { user_minutes }) * 60000
}

/// Whether a ping may be sent at `now` (milliseconds) by a runner or not,
/// given whether users may ping and when the last ping went out: users
/// are refused when only runners may ping; anyone is refused while the
/// last ping is younger than their cooldown (a last ping in the future
/// does not count).
pub open spec fn ping_check_spec(is_runner: bool, users_enabled: bool, last_ping_ms: Option<u64>, now: u64, user_minutes: u64, runner_minutes: u64) -> PingCheck {
    if !is_runner && !users_enabled {
        PingCheck::OnlyRunners
    } else {
        match last_ping_ms {
            Some(t) => {
                let cd = cooldown_ms(is_runner, user_minutes, runner_minutes);
                if now >= t && now - t < cd {
                    PingCheck::Cooldown(((cd - (now - t)) / 1000) as u64)
                } else {
                    PingCheck::Allowed
                }
            },
            None => PingCheck::Allowed,
        }
    }
}

/// Whether a ping may be sent now.
pub fn ping_check(is_runner: bool, users_enabled: bool, last_ping_ms: Option<u64>, now: u64, user_minutes: u32, runner_minutes: u32) -> (r: PingCheck)
    ensures
        r == ping_check_spec(is_runner, users_enabled, last_ping_ms, now, user_minutes as u64, runner_minutes as u64),
{
    if !is_runner && !users_enabled {
        return PingCheck::OnlyRunners;
    }
    match last_ping_ms {
        Some(t) => {
            let minutes: u64 = if is_runner { runner_minutes as u64 } else { user_minutes as u64 };
            let cd: u64 = minutes * 60000;
            if now >= t && now - t < cd {
                PingCheck::Cooldown((cd - (now - t)) / 1000)
            } else {
                PingCheck::Allowed
            }
        },
        None => PingCheck::Allowed,
    }
}

/// `Ping on cooldown. Try again in {m}m {s}s`.
pub open spec fn cooldown_text_spec(secs: u64) -> Seq<char> {
    "Ping on cooldown. Try again in "@ + dec((secs / 60) as nat) + "m "@ + dec((secs % 60) as nat) + "s"@
}

/// What a refused pinger is told while the cooldown runs.
pub fn cooldown_text(secs: u64) -> (r: String)
    ensures
        r@ == cooldown_text_spec(secs),
{
    let mut s = String::from_str("Ping on cooldown. Try again in ");
    push_dec(&mut s, secs / 60);
    s.append("m ");
    push_dec(&mut s, secs % 60);
    s.append("s");
    s
}

/// The players waiting in the idle and ready sessions of `ss`.
pub open spec fn queued_count(ss: Seq<Session>) -> nat
    decreases ss.len(),
{
    if ss.len() == 0 {
        0
    } else {
        let s = ss.last();
        queued_count(ss.drop_last()) + if s.status == SessionStatus::Idle || s.status == SessionStatus::Hot { s.pool@.len() } else { 0 }
    }
}

/// How many players a format still needs: its quota less those waiting in
/// its idle and ready sessions, at least 0.
pub open spec fn needed_spec(f: Format) -> nat {
    let q = queued_count(f.sessions@);
    if q >= f.quota { 0 } else { (f.quota - q) as nat }
}

impl Format {
    /// How many players the format still needs.
    pub fn players_needed(&self) -> (r: u8)
        ensures
            r == needed_spec(*self),
    {
        let n = self.sessions.len();
        let mut acc: u64 = 0;
        let mut i: usize = 0;
        while i < n
            invariant
                n == self.sessions@.len(),
                i <= n,
                acc == (if queued_count(self.sessions@.take(i as int)) > 256 { 256 } else { queued_count(self.sessions@.take(i as int)) }),
            decreases n - i,
        {
            assert(self.sessions@.take(i as int + 1).drop_last() =~= self.sessions@.take(i as int));
            assert(self.sessions@.take(i as int + 1).last() == self.sessions@[i as int]);
            let s = &self.sessions[i];
            assert(queued_count(self.sessions@.take(i as int + 1)) == queued_count(self.sessions@.take(i as int))
                + if s.status == SessionStatus::Idle || s.status == SessionStatus::Hot { s.pool@.len() } else { 0 });
            if s.is_idle() || s.is_hot() {
                let len = s.pool.len() as u64;
                acc = if len >= 256 || acc + len > 256 { 256 } else { acc + len };
            }
            i = i + 1;
        }
        assert(self.sessions@.take(n as int) =~= self.sessions@);
        if acc >= self.quota as u64 { 0 } else { self.quota - acc as u8 }
    }
}

/// The format choices of a ping: for each format that still needs players,
/// (`ping_format_{category}_{format}`, `{name} (+{needed})`).
pub open spec fn ping_choices_spec(cid: u8, fs: Seq<Format>) -> Seq<(Seq<char>, Seq<char>)>
    decreases fs.len(),
{
    if fs.len() == 0 {
        Seq::empty()
    } else {
        let f = fs.last();
        let rest = ping_choices_spec(cid, fs.drop_last());
        if needed_spec(f) > 0 {
            rest.push((
                "ping_format_"@ + dec(cid as nat) + "_"@ + dec(f.id as nat),
                f.name@ + " (+"@ + dec(needed_spec(f)) + ")"@,
            ))
        } else {
            rest
        }
    }
}

impl Category {
    /// The formats to ping for; empty ("All queues are already full!")
    /// when none needs players.
    pub fn ping_choices(&self) -> (r: Vec<(String, String)>)
        ensures
            r@.map_values(|o: (String, String)| (o.0@, o.1@)) == ping_choices_spec(self.id, self.formats@),
    {
        let fs = &self.formats;
        let n = fs.len();
        let mut out: Vec<(String, String)> = Vec::new();
        let mut i: usize = 0;
        while i < n
            invariant
                n == fs@.len(),
                fs@ == self.formats@,
                i <= n,
                out@.map_values(|o: (String, String)| (o.0@, o.1@)) == ping_choices_spec(self.id, fs@.take(i as int)),
            decreases n - i,
        {
            assert(fs@.take(i as int + 1).drop_last() =~= fs@.take(i as int));
            assert(fs@.take(i as int + 1).last() == fs@[i as int]);
            let f = &fs[i];
            let needed = f.players_needed();
            if needed > 0 {
                let ghost before = out@.map_values(|o: (String, String)| (o.0@, o.1@));
                let mut id = String::from_str("ping_format_");
                push_dec(&mut id, self.id as u64);
                id.append("_");
                push_dec(&mut id, f.id as u64);
                let mut label = f.name.clone();
                label.append(" (+");
                push_dec(&mut label, needed as u64);
                label.append(")");
                out.push((id, label));
                assert(out@.map_values(|o: (String, String)| (o.0@, o.1@)) =~= before.push((id@, label@)));
            }
            i = i + 1;
        }
        assert(fs@.take(n as int) =~= fs@);
        out
    }
}

/// Who a ping mentions: the configured ping role (trimmed) when set and
/// not blank, else `@here`.
pub open spec fn mention_spec(role: Option<Seq<char>>) -> Seq<char> {
    match role {
        Some(r) => if trim_spec(r).len() > 0 { "<@&"@ + trim_spec(r) + ">"@ } else { "@here"@ },
        None => "@here"@,
    }
}

/// Who a ping mentions.
pub fn ping_mention(role: &Option<String>) -> (r: String)
    ensures
        r@ == mention_spec(match role { Some(x) => Some(x@), None => None }),
{
    match role {
        Some(x) => {
            let t = trim(x.as_str());
            if t.unicode_len() > 0 {
                let mut s = String::from_str("<@&");
                s.append(t.as_str());
                s.append(">");
                s
            } else {
                String::from_str("@here")
            }
        },
        None => String::from_str("@here"),
    }
}

/// The ping message: `{mention} +{needed} for {format}` then `Ping by
/// <@{user}>`.
pub open spec fn ping_message_spec(mention: Seq<char>, needed: u8, fmt_name: Seq<char>, user: u64) -> Seq<char> {
    mention + " +"@ + dec(needed as nat) + " for "@ + fmt_name + "\nPing by <@"@ + dec(user as nat) + ">"@
}

/// The ping message.
pub fn ping_message(mention: &str, needed: u8, fmt_name: &str, user: u64) -> (r: String)
    ensures
        r@ == ping_message_spec(mention@, needed, fmt_name@, user),
{
    let mut s = String::from_str(mention);
    s.append(" +");
    push_dec(&mut s, needed as u64);
    s.append(" for ");
    s.append(fmt_name);
    s.append("\nPing by <@");
    push_dec(&mut s, user);
    s.append(">");
    s
}

/// What pressing a format's ping choice gives.
#[derive(Debug, Clone, Copy, PartialEq, Eq, Structural)]
pub enum PingOutcome {
    /// Refused: only runners may ping, or the cooldown runs
    Refused(PingCheck),
    /// No format with that id ("Format not found")
    UnknownFormat,
    /// "Queue is already full!"
    Full,
    /// The ping goes out, asking for this many players
    Ping { needed: u8 },
}

/// What a ping for format `fmt_id` at `now` gives in category `c`.
pub open spec fn ping_spec(
    c: Category,
    fmt_id: u8,
    is_runner: bool,
    users_enabled: bool,
    now: u64,
    user_minutes: u64,
    runner_minutes: u64,
) -> PingOutcome {
    let check = ping_check_spec(is_runner, users_enabled, c.last_ping_ms, now, user_minutes, runner_minutes);
    if check != PingCheck::Allowed {
        PingOutcome::Refused(check)
    } else {
        let f = format_index(c.formats@, fmt_id, 0);
        if f >= c.formats@.len() {
            PingOutcome::UnknownFormat
        } else if needed_spec(c.formats@[f]) == 0 {
            PingOutcome::Full
        } else {
            PingOutcome::Ping { needed: needed_spec(c.formats@[f]) as u8 }
        }
    }
}

impl Category {
    /// A player presses a format's ping choice at `now` (milliseconds): the
    /// ping is refused to non-runners when only runners may ping, and to
    /// anyone while the cooldown since the last ping runs; it is not sent
    /// for an unknown or full format. When it goes out, its time is kept
    /// for the next cooldown. Nothing else changes.
    pub fn try_ping(
        &mut self,
        fmt_id: u8,
        is_runner: bool,
        users_enabled: bool,
        now: u64,
        user_minutes: u32,
        runner_minutes: u32,
    ) -> (r: PingOutcome)
        ensures
            r == ping_spec(*old(self), fmt_id, is_runner, users_enabled, now, user_minutes as u64, runner_minutes as u64),
            *final(self) == (Category {
                last_ping_ms: if r is Ping { Some(now) } else { old(self).last_ping_ms },
                ..*old(self)
            }),
    {
        let check = ping_check(is_runner, users_enabled, self.last_ping_ms, now, user_minutes, runner_minutes);
        match check {
            PingCheck::Allowed => {},
            _ => {
                return PingOutcome::Refused(check);
            },
        }
        let f = match self.find_format(fmt_id) {
            Some(f) => f,
            None => {
                return PingOutcome::UnknownFormat;
            },
        };
        let needed = self.formats[f].players_needed();
        if needed == 0 {
            return PingOutcome::Full;
        }
        self.last_ping_ms = Some(now);
        PingOutcome::Ping { needed }
    }
}

/// Once a ping went out at `t`, every ping offered before the cooldown has
/// run (by a runner, or by anyone when users may ping) is refused.
pub proof fn lemma_ping_cooldown(
    c: Category,
    fmt_id: u8,
    is_runner: bool,
    users_enabled: bool,
    t: u64,
    later: u64,
    user_minutes: u64,
    runner_minutes: u64,
)
    requires
        c.last_ping_ms == Some(t),
        is_runner || users_enabled,
        t <= later,
        later - t < cooldown_ms(is_runner, user_minutes, runner_minutes),
    ensures
        ping_spec(c, fmt_id, is_runner, users_enabled, later, user_minutes, runner_minutes) is Refused,
{
}

} // verus!
