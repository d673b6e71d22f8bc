use qbot_core::category::{Category, Format, Session};
use qbot_core::guilds::QGuild;
use qbot_core::manager::Manager;
use qbot_core::session::{SessionPlayer, SessionStatus};

fn player(user_id: u64) -> SessionPlayer {
    SessionPlayer { user_id, elo: 1000, dynamic_elo: None, team: None, in_vc: false, queue_expiration: 0, joined_at_ms: 0 }
}

fn session(status: SessionStatus, users: &[u64], started_at_ms: Option<u64>) -> Session {
    let mut s = Session::new(users.iter().map(|u| player(*u)).collect());
    s.status = status;
    s.started_at_ms = started_at_ms;
    s
}

fn category(id: u8, sessions: Vec<Session>) -> Category {
    Category {
        id,
        name: None,
        formats: vec![Format { id: 0, name: "6v6".to_string(), quota: 2, sessions, connect_info: None }],
        restarting: false,
        require_score_report: false,
        confirm_time: 60,
        last_action: None,
        last_ping_ms: None,
    }
}

fn manager() -> Manager {
    let mut m = Manager::new(1);
    m.qguilds[0].categories.push(category(
        3,
        vec![session(SessionStatus::Live, &[10, 11], Some(0)), session(SessionStatus::Idle, &[], None)],
    ));
    m.qguilds[0].categories.push(category(4, vec![session(SessionStatus::Idle, &[12], None)]));
    let mut g = QGuild::new(2, "Other".to_string());
    g.categories.push(category(1, vec![session(SessionStatus::Push, &[20, 21], Some(5_000_000))]));
    m.qguilds.push(g);
    m
}

#[test]
fn new_manager_serves_one_unknown_guild() {
    let m = Manager::new(7);
    assert_eq!(m.qguilds.len(), 1);
    assert_eq!(m.qguilds[0].id, 7);
    assert_eq!(m.qguilds[0].name, "Unknown");
}

#[test]
fn guild_and_category_lookup() {
    let mut m = manager();
    assert_eq!(m.get_qguild(2).map(|g| g.name.clone()), Ok("Other".to_string()));
    assert_eq!(m.get_qguild(9).err(), Some("Server not found for guild ID: 9, Vec len: 2".to_string()));
    {
        let c = m.get_category_by_id(1, 4).expect("category");
        c.confirm_time = 90;
    }
    assert_eq!(m.qguilds[0].categories[1].confirm_time, 90);
    assert_eq!(m.get_category_by_id(1, 8).err(), Some("Category 8 not found for guild ID: 1".to_string()));
    assert_eq!(m.get_category_by_id(5, 8).err(), Some("Server not found for guild ID: 5, Vec len: 2".to_string()));
}

#[test]
fn active_sessions_are_counted() {
    let m = manager();
    assert_eq!(m.count_active_sessions(), 2);
    assert!(m.has_active_sessions());
    assert!(!Manager::new(1).has_active_sessions());
}

#[test]
fn empty_idle_games_are_dropped() {
    let mut m = manager();
    m.cleanup_empty_games();
    assert_eq!(m.qguilds[0].categories[0].formats[0].sessions.len(), 1);
    assert_eq!(m.qguilds[0].categories[1].formats[0].sessions.len(), 1);
}

#[test]
fn categories_holding_a_player() {
    let m = manager();
    assert_eq!(m.categories_holding_player(1, 12), vec![4]);
    assert_eq!(m.categories_holding_player(1, 10), vec![3]);
    assert!(m.categories_holding_player(1, 99).is_empty());
    assert!(m.categories_holding_player(42, 12).is_empty());
}

#[test]
fn restored_state_is_validated() {
    let mut m = manager();
    m.set_active_score_submission(1, 3, 0, 10, 0);
    m.validate_and_cleanup(&vec![1], 3_600_001);
    assert_eq!(m.qguilds.len(), 1);
    assert_eq!(m.qguilds[0].id, 1);
    assert_eq!(m.qguilds[0].categories[0].formats[0].sessions.len(), 1);
    assert_eq!(m.qguilds[0].categories[0].formats[0].sessions[0].status, SessionStatus::Idle);
    assert_eq!(m.get_active_score_submission(1, 3, 0, 3_600_001), None);

    let mut fresh = manager();
    fresh.validate_and_cleanup(&vec![1, 2], 3_600_000);
    assert_eq!(fresh.qguilds.len(), 2);
    assert_eq!(fresh.qguilds[0].categories[0].formats[0].sessions.len(), 2);
}

#[test]
fn guild_list_from_discord() {
    let mut m = manager();
    let pulled = m.pull_list(&vec![(5, Some("Five".to_string())), (6, None)]);
    assert_eq!(pulled.qguilds.len(), 2);
    assert_eq!(pulled.qguilds[0].name, "Five");
    assert_eq!(pulled.qguilds[1].name, "Unknown");
    assert_eq!(m.qguilds.len(), 2);
}

#[test]
fn queue_timeouts_remove_the_player_everywhere() {
    let mut m = manager();
    m.qguilds[0].categories.push(category(5, vec![session(SessionStatus::Idle, &[30], None)]));
    let ids = m.expire_player(1, 12).expect("known guild");
    assert_eq!(ids, vec![4, 5]);
    assert!(m.qguilds[0].categories[1].formats[0].sessions[0].pool.is_empty());
    assert_eq!(m.expire_player(1, 99), Some(vec![]));
    assert_eq!(m.expire_player(9, 12), None);
}

#[test]
fn ready_game_falls_back_to_idle_on_timeout() {
    let mut m = Manager::new(1);
    m.qguilds[0].categories.push(category(3, vec![session(SessionStatus::Hot, &[10, 11], None)]));
    assert_eq!(m.expire_player(1, 10), Some(vec![3]));
    let s = &m.qguilds[0].categories[0].formats[0].sessions[0];
    assert_eq!(s.status, SessionStatus::Idle);
    assert_eq!(s.pool.len(), 1);
}

#[test]
fn players_in_game_latest_first() {
    let m = manager();
    assert_eq!(
        m.in_game_players(),
        vec![
            (21, 2, "6v6".to_string()),
            (20, 2, "6v6".to_string()),
            (11, 1, "6v6".to_string()),
            (10, 1, "6v6".to_string()),
        ]
    );
    assert!(Manager::new(1).in_game_players().is_empty());
}

#[test]
fn dashboards_to_refresh() {
    let m = manager();
    assert_eq!(m.all_dashboards(), vec![(1, 3), (1, 4), (2, 1)]);
    assert_eq!(m.guild_dashboards(1), vec![(1, 3), (1, 4)]);
    assert_eq!(m.guild_dashboards(2), vec![(2, 1)]);
    assert_eq!(m.guild_dashboards(9), Vec::<(u64, u8)>::new());
}
