use qbot_core::alert_embed::{footer_spam_replacements, spam_replacements};
use qbot_core::alerts::RateLimiter;
use qbot_core::buttons::ButtonType;
use qbot_core::category::Category;
use qbot_core::menu_system::MenuPage;
use qbot_core::server_config::get_server_config_navigation_info;

#[test]
fn navigation_follows_the_menu_table() {
    assert_eq!(get_server_config_navigation_info("guild_config_roles_menu"), Some(MenuPage::RolesConfig));
    assert_eq!(get_server_config_navigation_info("guild_config_edit_gamemode"), None);
    assert_eq!(get_server_config_navigation_info("guild_config_x_back"), None);
    assert_eq!(get_server_config_navigation_info("guild_config_rank_back"), Some(MenuPage::RankConfig));
    assert_eq!(get_server_config_navigation_info("nothing"), None);
}

#[test]
fn setup_buttons_are_the_setup_ids() {
    assert!(ButtonType::parse_button("init_quota").is_setup_button());
    assert!(ButtonType::parse_button("categorylink_blue").is_setup_button());
    assert!(!ButtonType::parse_button("confirm_permissions").is_setup_button());
    assert!(!ButtonType::parse_button("setup_unknown").is_setup_button());
    assert!(!ButtonType::parse_button("join_queue").is_setup_button());
}

#[test]
fn four_alerts_per_minute_per_key() {
    let mut l = RateLimiter::new();
    let key = (1u8, 0u8, 42u64);
    let other = (1u8, 1u8, 42u64);
    let mut sent = Vec::new();
    for t in [0u64, 10_000, 20_000, 30_000, 40_000, 59_999] {
        sent.push(l.check(key, t));
    }
    assert_eq!(sent, vec![true, true, true, true, false, false]);
    assert!(l.check(other, 59_999));
    assert!(!l.check(key, 60_000));
    assert!(l.check(key, 60_001));
}

#[test]
fn replacement_lines_in_order() {
    let r = spam_replacements();
    assert_eq!(r.len(), 10);
    assert_eq!(r[0], "If this is shart city, then I am the mayor");
    assert_eq!(r[9], "Rawr x3 nuzzles how are you pounces on you you're so warm");
    assert_eq!(footer_spam_replacements(), vec!["Mmmm, feet :3", "Go team!", "PUG PUG PUG!", "GG!", "qBot is best bot"]);
}

#[test]
fn recording_an_action_keeps_the_ping_time() {
    let mut c = Category {
        id: 3,
        name: None,
        formats: Vec::new(),
        restarting: false,
        require_score_report: false,
        confirm_time: 60,
        last_action: None,
        last_ping_ms: Some(1234),
    };
    c.set_last_action("ann".to_string(), "started the game", 99);
    assert_eq!(c.last_ping_ms, Some(1234));
    assert_eq!(c.last_action, Some(("ann".to_string(), "started the game".to_string(), 99)));
}
