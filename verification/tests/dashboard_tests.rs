use qbot_core::category::{Category, Format, LeaveOutcome, Session};
use qbot_core::dash_actions::{CancelOutcome, EndCheck, JoinCheck, ShuffleCheck, StartCheck, expiry_minutes};
use qbot_core::dash_press::{
    classify_dash_action, duration_text, end_description, last_action_for, log_footer, parse_end_result, report_score_ids,
    result_text, DashAction, MatchOutcome,
};
use qbot_core::session::{SessionPlayer, SessionStatus, Team};
use qbot_core::settings::{SettingsButtonStyle, SettingsRow};

fn player(user_id: u64, elo: u16) -> SessionPlayer {
    SessionPlayer {
        user_id,
        elo,
        dynamic_elo: None,
        team: None,
        in_vc: false,
        queue_expiration: 0,
        joined_at_ms: 1_000,
    }
}

fn session(status: SessionStatus, pool: Vec<SessionPlayer>) -> Session {
    let mut s = Session::new(pool);
    s.status = status;
    s
}

fn format(id: u8, name: &str, quota: u8, sessions: Vec<Session>) -> Format {
    Format { id, name: name.to_string(), quota, sessions, connect_info: None }
}

fn category(formats: Vec<Format>) -> Category {
    Category {
        id: 1,
        name: Some("Main".to_string()),
        formats,
        restarting: false,
        require_score_report: false,
        confirm_time: 60,
        last_action: None,
        last_ping_ms: None,
    }
}

fn row_ids(row: &SettingsRow) -> Vec<String> {
    match row {
        SettingsRow::Buttons(bs) => bs.iter().map(|b| b.id.clone()).collect(),
        _ => panic!("expected a button row"),
    }
}

#[test]
fn idle_empty_format_offers_join_and_footer() {
    let c = category(vec![format(0, "6v6", 2, vec![session(SessionStatus::Idle, vec![])])]);
    let rows = c.create_dashboard_buttons(0);
    assert_eq!(rows.len(), 2);
    assert_eq!(row_ids(&rows[0]), vec!["join_queue:0".to_string()]);
    assert_eq!(row_ids(&rows[1]), vec!["ping_players", "show_settings", "show_runner_menu", "show_help"]);
    if let SettingsRow::Buttons(bs) = &rows[0] {
        assert_eq!(bs[0].label, "Join");
        assert_eq!(bs[0].style, SettingsButtonStyle::Success);
    }
}

#[test]
fn waiting_players_offer_leave_and_timeout() {
    let c = category(vec![format(3, "6v6", 4, vec![session(SessionStatus::Idle, vec![player(7, 1500)])])]);
    let rows = c.create_dashboard_buttons(0);
    assert_eq!(row_ids(&rows[0]), vec!["join_queue:3", "leave_queue:3", "change_expiry:3"]);
}

#[test]
fn several_formats_name_their_join_button() {
    let c = category(vec![format(0, "6v6", 2, vec![]), format(1, "4v4", 2, vec![])]);
    let rows = c.create_dashboard_buttons(0);
    assert_eq!(rows.len(), 3);
    if let SettingsRow::Buttons(bs) = &rows[1] {
        assert_eq!(bs[0].label, "Join 4v4");
    }
}

#[test]
fn hot_session_offers_start_and_shuffle() {
    let c = category(vec![format(0, "6v6", 2, vec![session(SessionStatus::Hot, vec![player(1, 1), player(2, 2)])])]);
    let rows = c.create_dashboard_buttons(0);
    assert_eq!(row_ids(&rows[0]), vec!["join_queue:0", "leave_queue:0", "change_expiry:0", "start_match:0", "shuffle_teams:0"]);
}

#[test]
fn live_game_offers_cancel_then_end() {
    let mut s = session(SessionStatus::Live, vec![player(1, 1)]);
    s.started_at_ms = Some(1_000_000);
    let mut c = category(vec![format(0, "6v6", 2, vec![s])]);
    let early = c.create_dashboard_buttons(1_000_000 + 299_999);
    assert_eq!(row_ids(&early[0]), vec!["join_queue:0", "cancel_match:0"]);
    let late = c.create_dashboard_buttons(1_000_000 + 300_000);
    assert_eq!(row_ids(&late[0]), vec!["join_queue:0", "end_match:0"]);
    if let SettingsRow::Buttons(bs) = &late[0] {
        assert_eq!(bs[1].label, "End");
    }
    c.require_score_report = true;
    let scored = c.create_dashboard_buttons(1_000_000 + 300_000);
    if let SettingsRow::Buttons(bs) = &scored[0] {
        assert_eq!(bs[1].label, "End & log score");
    }
}

#[test]
fn restarting_hides_everything_but_ending() {
    let mut s = session(SessionStatus::Live, vec![player(1, 1)]);
    s.started_at_ms = Some(0);
    let mut c = category(vec![format(0, "6v6", 2, vec![s, session(SessionStatus::Hot, vec![player(2, 2)])])]);
    c.restarting = true;
    let rows = c.create_dashboard_buttons(10_000_000);
    assert_eq!(rows.len(), 1);
    assert_eq!(row_ids(&rows[0]), vec!["end_match:0"]);
}

#[test]
fn join_checks() {
    let c = category(vec![
        format(0, "6v6", 2, vec![session(SessionStatus::Idle, vec![player(1, 1)])]),
        format(1, "4v4", 2, vec![session(SessionStatus::Live, vec![player(2, 1)])]),
    ]);
    assert_eq!(c.join_check(0, 1), JoinCheck::AlreadyQueued);
    assert_eq!(c.join_check(0, 5), JoinCheck::Proceed);
    assert_eq!(c.join_check(1, 5), JoinCheck::MatchInProgress);
    assert_eq!(c.join_check(9, 5), JoinCheck::MatchInProgress);
}

#[test]
fn joining_again_refreshes_join_time() {
    let mut c = category(vec![format(0, "6v6", 2, vec![session(SessionStatus::Idle, vec![player(1, 1), player(2, 1)])])]);
    c.refresh_join(0, 2, 42);
    assert_eq!(c.formats[0].sessions[0].pool[1].joined_at_ms, 42);
    assert_eq!(c.formats[0].sessions[0].pool[0].joined_at_ms, 1_000);
    c.refresh_join(0, 9, 43);
    assert_eq!(c.formats[0].sessions[0].pool[1].joined_at_ms, 42);
}

#[test]
fn expiry_choices() {
    assert_eq!(expiry_minutes(Some("30m")), Some(30));
    assert_eq!(expiry_minutes(Some("1h")), Some(60));
    assert_eq!(expiry_minutes(Some("4h")), Some(240));
    assert_eq!(expiry_minutes(Some("5h")), None);
    assert_eq!(expiry_minutes(None), None);
}

#[test]
fn set_expiry_finds_first_format_holding_player() {
    let mut c = category(vec![
        format(4, "6v6", 2, vec![session(SessionStatus::Idle, vec![player(1, 1)])]),
        format(5, "4v4", 2, vec![session(SessionStatus::Idle, vec![player(2, 1)])]),
    ]);
    assert!(c.is_in_any_queue(2));
    assert_eq!(c.set_expiry(2, 120), Some(5));
    assert_eq!(c.formats[1].sessions[0].pool[0].queue_expiration, 120);
    assert_eq!(c.formats[0].sessions[0].pool[0].queue_expiration, 0);
    assert_eq!(c.set_expiry(3, 60), None);
    assert!(!c.is_in_any_queue(3));
}

#[test]
fn shuffle_checks() {
    let full = category(vec![format(0, "6v6", 2, vec![session(SessionStatus::Idle, vec![player(1, 1), player(2, 1)])])]);
    assert_eq!(full.shuffle_check(0), ShuffleCheck::Ready);
    let short = category(vec![format(0, "6v6", 3, vec![session(SessionStatus::Hot, vec![player(1, 1)])])]);
    assert_eq!(short.shuffle_check(0), ShuffleCheck::NotReady { quota: 3 });
    let live = category(vec![format(0, "6v6", 1, vec![session(SessionStatus::Live, vec![player(1, 1)])])]);
    assert_eq!(live.shuffle_check(0), ShuffleCheck::Live);
    assert_eq!(live.shuffle_check(7), ShuffleCheck::NotReady { quota: 0 });
}

#[test]
fn start_and_revert() {
    let mut c = category(vec![format(0, "6v6", 2, vec![session(SessionStatus::Hot, vec![player(1, 1)])])]);
    assert_eq!(c.start_check(0), StartCheck::Start);
    assert!(c.begin_start(0, 77));
    assert_eq!(c.formats[0].sessions[0].status, SessionStatus::Push);
    assert_eq!(c.formats[0].sessions[0].last_action_at_ms, Some(77));
    assert_eq!(c.start_check(0), StartCheck::NoHotGame);
    assert!(!c.begin_start(0, 78));
    assert!(c.revert_start(0));
    assert_eq!(c.formats[0].sessions[0].status, SessionStatus::Hot);
    let busy = category(vec![format(0, "6v6", 2, vec![
        session(SessionStatus::Live, vec![]),
        session(SessionStatus::Hot, vec![player(1, 1)]),
    ])]);
    assert_eq!(busy.start_check(0), StartCheck::GameInProgress);
}

#[test]
fn end_checks() {
    let mut c = category(vec![format(0, "6v6", 2, vec![session(SessionStatus::Live, vec![])])]);
    assert_eq!(c.end_check(0), EndCheck::ChooseWinner);
    c.require_score_report = true;
    assert_eq!(c.end_check(0), EndCheck::ReportScore);
    let idle = category(vec![format(0, "6v6", 2, vec![session(SessionStatus::Idle, vec![])])]);
    assert_eq!(idle.end_check(0), EndCheck::NoActiveMatch);
}

#[test]
fn cancel_restores_queue_order() {
    let mut live = session(SessionStatus::Live, vec![player(2, 1), player(1, 1)]);
    live.started_at_ms = Some(0);
    live.pre_match_pool = Some(vec![player(1, 1), player(2, 1), player(3, 1)]);
    let mut c = category(vec![format(0, "6v6", 2, vec![live, session(SessionStatus::Idle, vec![])])]);
    let r = c.cancel_match(0, 1_000);
    assert_eq!(r, CancelOutcome::Cancelled { restored: true, removed: 1 });
    assert_eq!(c.formats[0].sessions.len(), 1);
    let ids: Vec<u64> = c.formats[0].sessions[0].pool.iter().map(|p| p.user_id).collect();
    assert_eq!(ids, vec![1, 2, 3]);
    assert_eq!(c.formats[0].sessions[0].status, SessionStatus::Idle);
    assert!(c.formats[0].sessions[0].pre_match_pool.is_none());
}

#[test]
fn cancel_without_backup_empties_and_drops_session() {
    let mut live = session(SessionStatus::Live, vec![player(2, 1)]);
    live.started_at_ms = None;
    let mut c = category(vec![format(0, "6v6", 2, vec![live])]);
    assert_eq!(c.cancel_match(0, 5), CancelOutcome::Cancelled { restored: false, removed: 1 });
    assert_eq!(c.formats[0].sessions.len(), 0);
}

#[test]
fn cancel_is_refused_late_or_without_game() {
    let mut live = session(SessionStatus::Live, vec![player(2, 1)]);
    live.started_at_ms = Some(0);
    let mut c = category(vec![format(0, "6v6", 2, vec![live])]);
    assert_eq!(c.cancel_match(0, 300_000), CancelOutcome::TooLate);
    assert_eq!(c.formats[0].sessions[0].status, SessionStatus::Live);
    let mut idle = category(vec![format(0, "6v6", 2, vec![session(SessionStatus::Idle, vec![])])]);
    assert_eq!(idle.cancel_match(0, 0), CancelOutcome::NoActiveMatch);
}

#[test]
fn leave_queue_outcomes() {
    let mut c = category(vec![format(0, "6v6", 2, vec![session(SessionStatus::Hot, vec![player(1, 1), player(2, 1)])])]);
    assert_eq!(c.leave_queue(0, 1, false), LeaveOutcome::Left { regenerate_teams: false });
    assert_eq!(c.formats[0].sessions[0].status, SessionStatus::Idle);
    assert_eq!(c.leave_queue(0, 1, false), LeaveOutcome::NotInQueue);
    let mut vc = category(vec![format(0, "6v6", 2, vec![session(SessionStatus::Idle, vec![SessionPlayer { in_vc: true, ..player(4, 1) }])])]);
    assert_eq!(vc.leave_queue(0, 4, true), LeaveOutcome::DisconnectFromVoice);
    let mut live = category(vec![format(0, "6v6", 2, vec![session(SessionStatus::Live, vec![player(4, 1)])])]);
    assert_eq!(live.leave_queue(0, 4, false), LeaveOutcome::LiveMatch);
}

#[test]
fn leave_keeps_hot_above_quota_and_asks_for_teams() {
    let mut c = category(vec![format(0, "6v6", 1, vec![session(SessionStatus::Hot, vec![player(1, 1), player(2, 1)])])]);
    assert_eq!(c.leave_queue(0, 2, false), LeaveOutcome::Left { regenerate_teams: true });
    assert_eq!(c.formats[0].sessions[0].status, SessionStatus::Hot);
}

#[test]
fn dashboard_actions_are_read() {
    assert_eq!(classify_dash_action("join_queue"), DashAction::JoinQueue);
    assert_eq!(classify_dash_action("set_expiry"), DashAction::SetExpiry);
    assert_eq!(classify_dash_action("dash_end_red_1_0"), DashAction::EndMatchResult);
    assert_eq!(classify_dash_action("report_score_1_2"), DashAction::ReportScore);
    assert_eq!(classify_dash_action("user_prefs_main"), DashAction::UserPrefs);
    assert_eq!(classify_dash_action("nope"), DashAction::Unknown);
    assert_eq!(last_action_for(DashAction::StartMatch), Some("started the game"));
    assert_eq!(last_action_for(DashAction::JoinQueue), None);
}

#[test]
fn end_results_are_read() {
    let r = parse_end_result("dash_end_blu_3_1").unwrap();
    assert_eq!(r.outcome, MatchOutcome::Blu);
    assert_eq!((r.category_id, r.format_id), (3, 1));
    assert!(parse_end_result("dash_end_green_3_1").is_none());
    assert!(parse_end_result("dash_end_red_3").is_none());
    assert!(parse_end_result("dash_end_red_300_1").is_none());
    assert_eq!(report_score_ids("report_score_4_2", 9), (4, 2));
    assert_eq!(report_score_ids("report_score", 9), (9, 0));
}

#[test]
fn match_texts() {
    assert_eq!(result_text(MatchOutcome::Draw), "Draw");
    assert_eq!(duration_text(125), "2m 5s");
    assert_eq!(log_footer("ann", Some(12)), "Logged by ann · Game #12");
    assert_eq!(log_footer("ann", None), "Logged by ann");
    assert_eq!(end_description("6v6", MatchOutcome::Red, Some(3)), "**6v6** - RED won (Game #3)");
    assert_eq!(end_description("6v6", MatchOutcome::Blu, None), "**6v6** - BLU won");
}

#[test]
fn score_reported_once() {
    let mut c = category(vec![format(0, "6v6", 2, vec![session(SessionStatus::Live, vec![player(1, 1)])])]);
    assert!(!c.score_already_reported(0));
    assert!(c.mark_score_reported(0));
    assert!(c.score_already_reported(0));
    let mut idle = category(vec![format(0, "6v6", 2, vec![session(SessionStatus::Idle, vec![])])]);
    assert!(!idle.mark_score_reported(0));
}

#[test]
fn teams_are_sorted_by_elo() {
    let pool = vec![
        SessionPlayer { team: Some(Team::Red), ..player(1, 1200) },
        SessionPlayer { team: Some(Team::Blu), ..player(2, 1500) },
        SessionPlayer { team: Some(Team::Red), ..player(3, 1800) },
        player(4, 2000),
    ];
    let (red, blu) = qbot_core::teams::get_sorted_teams_pub(&pool, 2);
    assert_eq!(red.iter().map(|p| p.user_id).collect::<Vec<_>>(), vec![3, 1]);
    assert_eq!(blu.iter().map(|p| p.user_id).collect::<Vec<_>>(), vec![2]);
}

#[test]
fn last_action_is_recorded() {
    let mut c = category(vec![]);
    c.set_last_action("ann".to_string(), "started the game", 99);
    assert_eq!(c.last_action, Some(("ann".to_string(), "started the game".to_string(), 99)));
}

#[test]
fn a_game_under_way_takes_the_start_slot() {
    let mut live = session(SessionStatus::Live, vec![player(1, 1), player(2, 1)]);
    live.started_at_ms = Some(0);
    let hot = session(SessionStatus::Hot, vec![player(3, 1), player(4, 1)]);
    let idle = session(SessionStatus::Idle, vec![player(5, 1)]);
    let c = category(vec![format(0, "6v6", 2, vec![live, hot, idle])]);
    let rows = c.create_dashboard_buttons(0);
    let ids = row_ids(&rows[0]);
    assert_eq!(ids, vec!["join_queue:0", "leave_queue:0", "change_expiry:0", "cancel_match:0", "shuffle_teams:0"]);
    assert!(ids.len() <= 5);
}

#[test]
fn refused_leave_is_answered() {
    assert_eq!(
        LeaveOutcome::LiveMatch.reply(),
        Some("You cannot leave during a live match. Please find a substitute if needed.")
    );
    assert_eq!(LeaveOutcome::NotInQueue.reply(), None);
    let mut c = category(vec![format(0, "6v6", 2, vec![session(SessionStatus::Live, vec![player(1, 1)])])]);
    c.confirm_time = 45;
    assert_eq!(c.leave_queue(0, 1, false), LeaveOutcome::LiveMatch);
    assert_eq!(c.formats[0].sessions[0].pool.len(), 1);
    assert_eq!(c.confirm_time, 45);
}
