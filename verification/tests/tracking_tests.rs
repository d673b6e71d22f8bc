use qbot_core::alerts::{
    combine_fmt_names, decide_after_delay, exceeds_alert_limits, resolve_intents, sanitize_text, AlertBuffer,
    AlertDecision, AlertIntent, AlertType, RateLimiter,
};
use qbot_core::batch::{UpdateBatch, UPDATE_ALL_SENTINEL};
use qbot_core::dm_tracker::DmMessageTracker;
use qbot_core::expiry::{keys_for_guild, QueueExpirationKey};
use qbot_core::immunity::{immunity_decision, PlayerImmunityInfo};
use qbot_core::manager::{Manager, CLAIM_TIMEOUT_MS};

fn intent(t: AlertType, fmt: Option<&str>, rank: &str) -> AlertIntent {
    AlertIntent { alert_type: t, fmt_name: fmt.map(|s| s.to_string()), rank_name: rank.to_string() }
}

#[test]
fn alert_text_limits() {
    assert!(!exceeds_alert_limits("short"));
    assert!(!exceeds_alert_limits("a\nb\nc\nd\ne"));
    assert!(exceeds_alert_limits("a\nb\nc\nd\ne\nf"));
    assert!(!exceeds_alert_limits(&"x".repeat(180)));
    assert!(exceeds_alert_limits(&"x".repeat(181)));
}

#[test]
fn alerts_are_kept_while_replacement_is_off() {
    let long = "x".repeat(500);
    assert_eq!(sanitize_text(&long, &["nope"]), long);
    assert_eq!(sanitize_text("hi", &[]), "hi");
}

#[test]
fn format_names_combine() {
    assert_eq!(combine_fmt_names(&[Some("4v4".to_string()), Some("3v3".to_string())]).as_deref(), Some("4v4 & 3v3"));
    assert_eq!(combine_fmt_names(&[None, Some("6v6".to_string())]).as_deref(), Some("6v6"));
    assert_eq!(combine_fmt_names(&[None]), None);
    assert_eq!(combine_fmt_names(&[]), None);
}

#[test]
fn opposing_intents_cancel() {
    let v = vec![
        intent(AlertType::Join, Some("6v6"), "Gold"),
        intent(AlertType::Leave, Some("6v6"), ""),
        intent(AlertType::Join, Some("4v4"), "Silver"),
        intent(AlertType::Leave, Some("2v2"), ""),
    ];
    let r = resolve_intents(&v);
    assert_eq!(r.join_names, vec![Some("4v4".to_string())]);
    assert_eq!(r.leave_names, vec![Some("2v2".to_string())]);
    assert_eq!(r.rank_name, "Silver");
    assert!(!r.is_cancelled());
    let balanced = vec![intent(AlertType::Join, None, "A"), intent(AlertType::Leave, None, "")];
    assert!(resolve_intents(&balanced).is_cancelled());
}

#[test]
fn rate_limit_allows_four_per_minute() {
    let mut rl = RateLimiter::new();
    let key = (1u8, 0u8, 42u64);
    for t in 0..4u64 {
        assert!(rl.check(key, 1000 + t));
    }
    assert!(!rl.check(key, 2000));
    assert!(rl.check((1, 0, 43), 2000));
    assert!(rl.check(key, 1000 + 60_001));
}

#[test]
fn buffered_alerts_decide_after_delay() {
    let mut buf = AlertBuffer::new();
    let mut rl = RateLimiter::new();
    assert!(matches!(decide_after_delay(&mut buf, &mut rl, 1, 0, 9, 0), AlertDecision::Nothing));
    assert!(buf.add_intent((1, 9), intent(AlertType::Join, Some("6v6"), "Gold")));
    assert!(!buf.add_intent((1, 9), intent(AlertType::Join, Some("4v4"), "")));
    match decide_after_delay(&mut buf, &mut rl, 1, 0, 9, 5000) {
        AlertDecision::Send { join_alert, join_fmt, leave_alert, leave_fmt, rank_name } => {
            assert!(join_alert);
            assert_eq!(join_fmt.as_deref(), Some("6v6 & 4v4"));
            assert!(!leave_alert);
            assert_eq!(leave_fmt, None);
            assert_eq!(rank_name, "Gold");
        }
        _ => panic!("expected an alert"),
    }
    assert!(buf.take((1, 9)).is_none());
    buf.add_intent((1, 9), intent(AlertType::Join, Some("6v6"), "Gold"));
    buf.add_intent((1, 9), intent(AlertType::Leave, Some("6v6"), ""));
    assert!(matches!(decide_after_delay(&mut buf, &mut rl, 1, 0, 9, 6000), AlertDecision::Cancelled));
}

#[test]
fn update_batch_dedupes_and_expands() {
    let mut b = UpdateBatch::new();
    b.add(7, 1);
    b.add(7, 1);
    b.add(7, 2);
    let mut got = b.take();
    got.sort();
    assert_eq!(got, vec![(7, 1), (7, 2)]);
    assert!(b.take().is_empty());
    b.add(7, UPDATE_ALL_SENTINEL);
    assert!(b.update_all);
    b.expand(&vec![(7, 1), (8, 3)]);
    let mut got = b.take();
    got.sort();
    assert_eq!(got, vec![(7, 1), (8, 3)]);
}

#[test]
fn score_claims_expire() {
    let mut m = Manager::new(1);
    assert_eq!(m.get_active_score_submission(1, 2, 0, 0), None);
    m.set_active_score_submission(1, 2, 0, 55, 1000);
    assert_eq!(m.get_active_score_submission(1, 2, 0, 2000), Some(55));
    assert_eq!(m.get_active_score_submission(1, 2, 1, 2000), None);
    assert_eq!(m.get_active_score_submission(1, 2, 0, 1000 + CLAIM_TIMEOUT_MS + 1), None);
    m.clear_active_score_submission(1, 2, 0);
    assert_eq!(m.get_active_score_submission(1, 2, 0, 2000), None);
    m.set_active_match_start(1, 2, 0, 66, 0);
    assert_eq!(m.get_active_match_start(1, 2, 0, 10), Some(66));
    m.clear_active_match_start(1, 2, 0);
    assert_eq!(m.get_active_match_start(1, 2, 0, 10), None);
}

#[test]
fn interaction_locks_exclude() {
    let mut m = Manager::new(1);
    assert!(m.try_lock_interaction(5, "join".to_string(), 0));
    assert!(!m.try_lock_interaction(5, "join".to_string(), 1));
    assert!(m.is_interaction_locked(5));
    assert!(m.unlock_interaction(5));
    assert!(!m.unlock_interaction(5));
    assert!(!m.is_interaction_locked(5));
    assert!(m.try_lock_interaction(6, "end".to_string(), 0));
    assert_eq!(m.cleanup_stale_interaction_locks(1_000_000), 1);
    assert!(!m.is_interaction_locked(6));
}

#[test]
fn dm_tracker_keeps_messages_per_user() {
    let mut t = DmMessageTracker::new();
    t.track_message(1, 100, 1000, "ann".to_string(), 0);
    t.track_message(1, 100, 1001, "ann".to_string(), 10);
    t.track_message(2, 200, 2000, "bob".to_string(), 0);
    assert!(t.is_tracked(1001));
    t.remove_message(1, 1000);
    assert!(!t.is_tracked(1000));
    assert_eq!(t.take_tracked(1), Some((100, vec![1001])));
    assert_eq!(t.take_tracked(1), Some((100, vec![])));
    assert_eq!(t.take_tracked(9), None);
    t.update_activity(2, 700_000);
    t.track_message(3, 300, 3000, "cy".to_string(), 0);
    let gone = t.remove_inactive(700_000);
    assert_eq!(gone, vec![(100, vec![]), (300, vec![3000])]);
    assert!(t.is_tracked(2000));
}

#[test]
fn expiry_keys_of_a_guild() {
    let keys = vec![
        QueueExpirationKey::new(1, 0, 0, 10),
        QueueExpirationKey::new(2, 0, 0, 11),
        QueueExpirationKey::new(1, 3, 1, 12),
    ];
    assert_eq!(
        keys_for_guild(&keys, 1),
        vec![QueueExpirationKey::new(1, 0, 0, 10), QueueExpirationKey::new(1, 3, 1, 12)]
    );
    assert!(keys_for_guild(&keys, 9).is_empty());
}

#[test]
fn fatkid_immunity() {
    let now = 1_000_000i64;
    let fresh = PlayerImmunityInfo { has_immunity: true, immunity_level: 0 };
    assert_eq!(immunity_decision(None, 3, None, now), (fresh, false));
    assert_eq!(immunity_decision(Some(1), 3, None, now), (fresh, false));
    assert_eq!(
        immunity_decision(Some(5), 2, Some(now - 100), now),
        (PlayerImmunityInfo { has_immunity: true, immunity_level: 2 }, false)
    );
    assert_eq!(
        immunity_decision(Some(5), 2, Some(now - 259_200), now),
        (PlayerImmunityInfo { has_immunity: false, immunity_level: 0 }, true)
    );
    assert_eq!(
        immunity_decision(Some(5), 0, Some(now - 300_000), now),
        (PlayerImmunityInfo { has_immunity: false, immunity_level: 0 }, false)
    );
    assert_eq!(
        immunity_decision(Some(5), 4, None, now),
        (PlayerImmunityInfo { has_immunity: false, immunity_level: 4 }, false)
    );
}

#[test]
fn lock_stats_list_oldest_first() {
    let mut m = Manager::new(1);
    assert!(m.try_lock_interaction(2, "end".to_string(), 2_000));
    assert!(m.try_lock_interaction(1, "join".to_string(), 10_000));
    assert!(m.try_lock_interaction(3, "start".to_string(), 10_500));
    let (count, locks) = m.get_interaction_lock_stats(12_000);
    assert_eq!(count, 3);
    assert_eq!(
        locks,
        vec![("end".to_string(), 10), ("join".to_string(), 2), ("start".to_string(), 1)]
    );
    let (_, future) = m.get_interaction_lock_stats(0);
    assert!(future.iter().all(|l| l.1 == 0));
}

#[test]
fn only_untracked_bot_messages_are_old() {
    let mut t = DmMessageTracker::new();
    t.track_message(1, 100, 1000, "ann".to_string(), 0);
    let fetched = vec![(1000, 9), (1001, 9), (1002, 5), (1003, 9)];
    assert_eq!(t.old_bot_messages(9, &fetched), vec![1001, 1003]);
    assert_eq!(t.old_bot_messages(7, &fetched), Vec::<u64>::new());
}
