use qbot_core::category::{Category, Format, Session};
use qbot_core::ping::{cooldown_text, ping_check, ping_mention, ping_message, PingCheck, PingOutcome};
use qbot_core::session::{SessionPlayer, SessionStatus};

fn player(user_id: u64) -> SessionPlayer {
    SessionPlayer { user_id, elo: 10, dynamic_elo: None, team: None, in_vc: false, queue_expiration: 0, joined_at_ms: 0 }
}

fn session(status: SessionStatus, n: u64) -> Session {
    let mut s = Session::new((0..n).map(player).collect());
    s.status = status;
    s
}

fn format(id: u8, name: &str, quota: u8, sessions: Vec<Session>) -> Format {
    Format { id, name: name.to_string(), quota, sessions, connect_info: None }
}

#[test]
fn who_may_ping_and_when() {
    assert_eq!(ping_check(false, false, None, 0, 30, 15), PingCheck::OnlyRunners);
    assert_eq!(ping_check(true, false, None, 0, 30, 15), PingCheck::Allowed);
    assert_eq!(ping_check(false, true, Some(0), 60_000, 30, 15), PingCheck::Cooldown(29 * 60));
    assert_eq!(ping_check(true, true, Some(0), 60_500, 30, 15), PingCheck::Cooldown(14 * 60 - 1));
    assert_eq!(ping_check(true, true, Some(0), 15 * 60_000, 30, 15), PingCheck::Allowed);
    assert_eq!(ping_check(false, true, Some(10_000), 0, 30, 15), PingCheck::Allowed);
    assert_eq!(cooldown_text(125), "Ping on cooldown. Try again in 2m 5s");
}

#[test]
fn players_needed_per_format() {
    let f = format(0, "6v6", 12, vec![session(SessionStatus::Idle, 3), session(SessionStatus::Live, 12), session(SessionStatus::Hot, 4)]);
    assert_eq!(f.players_needed(), 5);
    let full = format(1, "2v2", 4, vec![session(SessionStatus::Idle, 9)]);
    assert_eq!(full.players_needed(), 0);
    let c = Category {
        id: 7,
        name: None,
        formats: vec![f, full, format(2, "4v4", 8, Vec::new())],
        restarting: false,
        require_score_report: false,
        confirm_time: 60,
        last_action: None,
        last_ping_ms: None,
    };
    assert_eq!(
        c.ping_choices(),
        vec![
            ("ping_format_7_0".to_string(), "6v6 (+5)".to_string()),
            ("ping_format_7_2".to_string(), "4v4 (+8)".to_string()),
        ]
    );
}

#[test]
fn ping_message_text() {
    assert_eq!(ping_mention(&Some(" 123 ".to_string())), "<@&123>");
    assert_eq!(ping_mention(&Some("  ".to_string())), "@here");
    assert_eq!(ping_mention(&None), "@here");
    assert_eq!(ping_message("@here", 3, "6v6", 42), "@here +3 for 6v6\nPing by <@42>");
}

#[test]
fn help_text_mentions_voice_join_when_on() {
    let off = qbot_core::help::help_text(false);
    let on = qbot_core::help::help_text(true);
    assert!(off.starts_with("## Joining and leaving the queue\n"));
    assert!(!off.contains("hop into the queue voice channel"));
    assert!(on.contains("pick the format you want to play. You can also just hop into the queue voice channel"));
    assert!(on.ends_with("Contact <@257898548773912576>"));
    assert_eq!(on.len(), off.len() + " You can also just hop into the queue voice channel and you'll be added automatically.".len());
    assert_eq!(qbot_core::help::help_title(), "How does qBot work?");
}

#[test]
fn a_ping_starts_the_cooldown() {
    let mut c = Category {
        id: 7,
        name: None,
        formats: vec![
            format(0, "6v6", 12, vec![session(SessionStatus::Idle, 3)]),
            format(1, "2v2", 4, vec![session(SessionStatus::Idle, 4)]),
        ],
        restarting: false,
        require_score_report: false,
        confirm_time: 60,
        last_action: None,
        last_ping_ms: None,
    };
    assert_eq!(c.try_ping(0, false, false, 1_000, 30, 15), PingOutcome::Refused(PingCheck::OnlyRunners));
    assert_eq!(c.last_ping_ms, None);
    assert_eq!(c.try_ping(1, false, true, 1_000, 30, 15), PingOutcome::Full);
    assert_eq!(c.try_ping(9, false, true, 1_000, 30, 15), PingOutcome::UnknownFormat);
    assert_eq!(c.last_ping_ms, None);
    assert_eq!(c.try_ping(0, false, true, 1_000, 30, 15), PingOutcome::Ping { needed: 9 });
    assert_eq!(c.last_ping_ms, Some(1_000));
    assert_eq!(c.try_ping(0, true, true, 61_000, 30, 15), PingOutcome::Refused(PingCheck::Cooldown(14 * 60)));
    assert_eq!(c.last_ping_ms, Some(1_000));
    assert_eq!(c.try_ping(0, true, true, 1_000 + 15 * 60_000, 30, 15), PingOutcome::Ping { needed: 9 });
    assert_eq!(c.last_ping_ms, Some(1_000 + 15 * 60_000));
}
