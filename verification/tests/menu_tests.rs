use qbot_core::nav_pages::{
    category_selector_options, general_config_data, insert_before_last, page_toggle_buttons, page_toggles,
    ping_users_button, role_default, role_rows, TogglePage,
};
use qbot_core::settings::{SettingsButtonStyle, SettingsRow};
use qbot_core::menu_system::{back_button_id, get_menu_system, get_menu_system_with, MenuColor, MenuPage};
use qbot_core::server_config::{
    get_server_config_menu_system, get_server_config_navigation_info, get_server_config_parent_from_back_button,
    is_server_config_back_button, verify_server_config_handlers,
};
use qbot_core::user_prefs::{
    get_user_prefs_menu_system, get_user_prefs_navigation_info, get_user_prefs_parent_from_back_button,
    get_user_prefs_target_page, is_user_prefs_back_button, UserPrefsPage,
};

#[test]
fn menu_colours() {
    assert_eq!(MenuColor::Standard.value(), 0x5865F2);
    assert_eq!(MenuColor::Danger.value(), 0xED4245);
    assert_eq!(MenuColor::Neutral.value(), 0x99AAB5);
}

#[test]
fn server_menu_pages_and_parents() {
    let ms = get_menu_system();
    let guild = ms.get_menu(MenuPage::GuildConfig).expect("guild page");
    assert_eq!(guild.title, "Guild Configuration");
    assert_eq!(ms.get_parent(MenuPage::GuildConfig), None);
    assert_eq!(ms.get_parent(MenuPage::RolesConfig), Some(MenuPage::ServerConfig));
    assert_eq!(ms.get_parent(MenuPage::RankConfig), Some(MenuPage::EloConfig));
    assert_eq!(ms.get_parent(MenuPage::CategorySettings), Some(MenuPage::CategoryList));
    assert_eq!(ms.get_target_page("guild_config_elo_menu"), Some(MenuPage::EloConfig));
    assert_eq!(ms.get_target_page("guild_config_edit_gamemode"), None);
    assert_eq!(ms.get_target_page("nothing"), None);
}

#[test]
fn pages_with_parents_get_a_back_button() {
    let ms = get_menu_system();
    let roles = ms.get_menu(MenuPage::RolesConfig).expect("roles page");
    let last = roles.buttons.last().expect("a button");
    assert_eq!(last.id, back_button_id(MenuPage::ServerConfig));
    assert_eq!(last.label, "Back");
    assert_eq!(back_button_id(MenuPage::ServerConfig), "guild_config_server_back");
}

#[test]
fn descriptions_fill_in_buttons() {
    let ms = get_menu_system_with(&[("post_game_confirm_time", "Seconds to confirm")]);
    let general = ms.get_menu(MenuPage::GeneralConfig).expect("general page");
    let b = general.buttons.iter().find(|b| b.id == "guild_config_edit_post_game_confirm_time").expect("button");
    assert_eq!(b.description, Some("Seconds to confirm"));
}

#[test]
fn server_back_buttons_lead_to_their_parent() {
    assert!(is_server_config_back_button("guild_config_roles_back"));
    assert!(!is_server_config_back_button("guild_config_roles_menu"));
    assert_eq!(get_server_config_parent_from_back_button("guild_config_roles_back"), Some(MenuPage::RolesConfig));
    assert_eq!(get_server_config_parent_from_back_button("guild_config_what_back"), None);
    assert_eq!(get_server_config_navigation_info("guild_config_server_back"), Some(MenuPage::ServerConfig));
    assert_eq!(get_server_config_navigation_info("guild_config_vc_menu"), Some(MenuPage::VcConfig));
}

#[test]
fn server_buttons_without_target_need_handlers() {
    let missing = verify_server_config_handlers();
    assert!(missing.contains(&"guild_config_edit_gamemode"));
    assert!(!missing.contains(&"guild_config_elo_menu"));
    let ms = get_server_config_menu_system();
    assert!(ms.get_menu(MenuPage::CategoryList).is_some());
}

#[test]
fn user_pref_pages_and_navigation() {
    let ms = get_user_prefs_menu_system();
    assert_eq!(ms.get_menu(UserPrefsPage::Main).expect("main").title, "qBot Preferences");
    assert_eq!(ms.get_parent(UserPrefsPage::QueueTimeoutSettings), Some(UserPrefsPage::QueueSettings));
    assert_eq!(ms.get_back_button_id(UserPrefsPage::QueueTimeoutSettings), "user_prefs_queue_back");
    assert_eq!(get_user_prefs_target_page("settings_queue_expiration"), Some(UserPrefsPage::QueueTimeoutSettings));
    assert_eq!(get_user_prefs_target_page("settings_toggle_dm"), None);
    assert!(is_user_prefs_back_button("user_prefs_alert_back"));
    assert!(!is_user_prefs_back_button("user_prefs_alert_settings"));
    assert_eq!(get_user_prefs_parent_from_back_button("user_prefs_ping_back"), Some(UserPrefsPage::PingSettings));
    assert_eq!(get_user_prefs_navigation_info("user_prefs_main_back"), Some(UserPrefsPage::Main));
    assert_eq!(get_user_prefs_navigation_info("user_prefs_alert_settings"), Some(UserPrefsPage::AlertSettings));
}

#[test]
fn user_pref_handlers_cover_their_buttons() {
    let ms = get_user_prefs_menu_system();
    assert!(ms.verify_handlers().is_empty());
}

#[test]
fn menu_page_embeds() {
    let ms = get_menu_system();
    let roles = ms.build_embed(MenuPage::RolesConfig, "G").expect("embed");
    assert_eq!(roles.title, "G - Roles Configuration");
    assert_eq!(roles.description.as_deref(), Some("Configure runner, admin, and ping roles"));
    assert_eq!(roles.color, 0x5865F2);
    let names: Vec<&str> = roles.fields.iter().map(|f| f.name.as_str()).collect();
    assert_eq!(names, vec!["Runner Role", "Admin Role", "Ping Role", "Help"]);
    assert_eq!(roles.fields[3].value, "**Create ping role**: Create a new Discord role that will be pinged instead of @here");
    assert!(!roles.fields[3].inline);
    let guild = ms.build_embed_with_dynamic(MenuPage::GuildConfig, "G", &[("x", "y".to_string())]).expect("embed");
    assert!(guild.fields.is_empty());
    let server = ms.build_embed(MenuPage::ServerConfig, "G").expect("embed");
    let help = &server.fields.last().expect("help").value;
    assert_eq!(help.lines().count(), 4);
    assert!(help.starts_with("**General**: "));
}

#[test]
fn toggle_rows_of_config_pages() {
    assert_eq!(page_toggles(TogglePage::Elo), vec![0, 1, 3]);
    assert_eq!(page_toggles(TogglePage::Vc), vec![2]);
    let bs = page_toggle_buttons(TogglePage::Elo, &vec![true, false, true]);
    assert_eq!(bs[0].label, "ELO-Rank linked");
    assert_eq!(bs[0].style, SettingsButtonStyle::Success);
    assert_eq!(bs[1].label, "Dynamic ELO disabled");
    assert_eq!(bs[1].style, SettingsButtonStyle::Secondary);
    assert_eq!(bs[2].id, "server_cfg_hide_elo");
    assert_eq!(bs[2].label, "ELO is hidden");
    let vc = page_toggle_buttons(TogglePage::Vc, &vec![true]);
    assert_eq!(vc[0].label, "Post-game auto-remove is enabled");
}

#[test]
fn general_and_role_settings() {
    assert_eq!(ping_users_button(true).label, "Users can ping");
    assert_eq!(ping_users_button(false).label, "Only runners can ping");
    assert_eq!(role_default(&Some("123".to_string())), Some(123));
    assert_eq!(role_default(&Some("abc".to_string())), None);
    assert_eq!(role_default(&None), None);
    let rows = role_rows(&Some("5".to_string()), &None, &Some("x".to_string()));
    match &rows[0] {
        SettingsRow::RoleSelect { id, default, .. } => {
            assert_eq!(id, "guild_config_runner_role");
            assert_eq!(*default, Some(5));
        }
        _ => panic!("expected a role select"),
    }
    let data = general_config_data(60, 30, 15, Some(9), None);
    assert_eq!(data[0], ("Post-game confirm time".to_string(), "60 seconds".to_string()));
    assert_eq!(data[3].1, "<#9>");
    assert_eq!(data[4].1, "Not configured");
    let mut v = vec![1, 2, 3];
    insert_before_last(&mut v, 9);
    assert_eq!(v, vec![1, 2, 9, 3]);
    let mut e: Vec<i32> = Vec::new();
    insert_before_last(&mut e, 9);
    assert_eq!(e, vec![9]);
    let cats = vec![qbot_core::category::Category {
        id: 3,
        name: None,
        formats: Vec::new(),
        restarting: false,
        require_score_report: false,
        confirm_time: 60,
        last_action: None,
        last_ping_ms: None,
    }];
    assert_eq!(category_selector_options(&cats), vec![("Category 3".to_string(), "3".to_string())]);
}

#[test]
fn every_generated_back_button_leads_to_the_parent() {
    assert_eq!(back_button_id(MenuPage::GuildConfig), "guild_config_back");
    assert_eq!(get_server_config_navigation_info("guild_config_back"), Some(MenuPage::GuildConfig));
    assert_eq!(get_server_config_navigation_info("guild_config_categories_back"), Some(MenuPage::CategoryList));
    let ms = get_menu_system();
    let server = ms.get_menu(MenuPage::ServerConfig).expect("server page");
    let back = server.buttons.last().expect("a button");
    assert_eq!(back.label, "Back");
    assert_eq!(get_server_config_navigation_info(back.id), Some(MenuPage::GuildConfig));
}
