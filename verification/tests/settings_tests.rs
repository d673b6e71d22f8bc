use qbot_core::category::Format;
use qbot_core::category_buttons::{
    classify_category_button, last_field_of, parse_gate_max, parse_gate_min, parse_id_pair, parse_usize,
    removable_formats, CategoryButton,
};
use qbot_core::elo_gate::{clamp_max, elo_gate_max_options, elo_gate_min_options, gate_access, gate_names};
use qbot_core::server_buttons::{classify_server_button, ServerButton};
use qbot_core::settings::{
    create_selection_menu, queue_timeout_text, Ephemeral, SettingsButton, SettingsButtonStyle, SettingsRow,
};
use qbot_core::settings_pages::{server_config_toggles, FormatListDisplay};
use qbot_core::setup::{initial_setup, setup_step, SetupAction, SetupChannels, SetupEvent, SetupStage};

fn fmt(id: u8, name: &str, quota: u8) -> Format {
    Format { id, name: name.to_string(), quota, sessions: Vec::new(), connect_info: None }
}

fn opts(n: usize) -> Vec<(String, String)> {
    (0..n).map(|i| (format!("label {i}"), format!("v{i}"))).collect()
}

#[test]
fn toggles_are_green_or_red() {
    let on = SettingsButton::toggle("settings_toggle_dm".to_string(), "DM alerts".to_string(), true);
    assert_eq!(on.style, SettingsButtonStyle::Success);
    assert_eq!(on.label, "DM alerts enabled");
    assert_eq!(on.id, "settings_toggle_dm");
    assert!(!on.disabled);
    let off = SettingsButton::toggle("settings_toggle_dm".to_string(), "DM alerts".to_string(), false);
    assert_eq!(off.style, SettingsButtonStyle::Danger);
    assert_eq!(off.label, "DM alerts disabled");
    let b = SettingsButton::category_edit("edit_quota", "Quota".to_string(), 7);
    assert_eq!(b.id, "category_settings_edit_quota_7");
    assert_eq!(b.style, SettingsButtonStyle::Primary);
    let back = Ephemeral::back("x_back".to_string());
    assert_eq!(back.label, "Back");
    assert_eq!(back.style, SettingsButtonStyle::Secondary);
}

#[test]
fn selection_menus_by_option_count() {
    assert!(create_selection_menu("m", "Pick", Vec::new()).is_none());
    match create_selection_menu("m", "Pick", opts(1)) {
        Some(SettingsRow::Buttons(bs)) => {
            assert_eq!(bs.len(), 1);
            assert_eq!(bs[0].id, "m_v0");
            assert_eq!(bs[0].style, SettingsButtonStyle::Primary);
        }
        _ => panic!("expected buttons"),
    }
    match create_selection_menu("m", "Pick", opts(4)) {
        Some(SettingsRow::Buttons(bs)) => {
            assert_eq!(bs.len(), 4);
            assert!(bs.iter().all(|b| b.style == SettingsButtonStyle::Secondary));
            assert_eq!(bs[3].label, "label 3");
        }
        _ => panic!("expected buttons"),
    }
    match create_selection_menu("m", "Pick", opts(5)) {
        Some(SettingsRow::StringSelect { id, placeholder, options }) => {
            assert_eq!(id, "m");
            assert_eq!(placeholder, "Pick");
            assert_eq!(options.len(), 5);
        }
        _ => panic!("expected a select menu"),
    }
}

#[test]
fn timeout_text_in_hours_or_minutes() {
    assert_eq!(queue_timeout_text(120), "2h");
    assert_eq!(queue_timeout_text(90), "90m");
    assert_eq!(queue_timeout_text(30), "30m");
    assert_eq!(queue_timeout_text(0), "0m");
}

#[test]
fn server_config_toggle_list() {
    let ts = server_config_toggles();
    assert_eq!(ts.len(), 4);
    assert_eq!(ts[1].button_id, "server_settings_dynamic_elo");
    assert!(ts[0].default);
    assert!(!ts[3].default);
}

#[test]
fn format_list_page() {
    let d = FormatListDisplay {
        category_id: 2,
        category_name: "EU".to_string(),
        formats: vec![(0, "6v6".to_string(), 12), (1, "4v4".to_string(), 8)],
    };
    let m = d.build_embed();
    assert_eq!(m.title, "EU - Formats");
    assert_eq!(m.description.as_deref(), Some("- **6v6** (quota: 12, id: 0)\n- **4v4** (quota: 8, id: 1)\n"));
    assert_eq!(m.footer.as_deref(), Some("Manage formats for this category"));
    let empty = FormatListDisplay { category_id: 2, category_name: "EU".to_string(), formats: Vec::new() };
    assert_eq!(empty.build_embed().description.as_deref(), Some("*No formats configured.*\n"));
    let rows = d.build_components();
    assert_eq!(rows.len(), 2);
    match &rows[1] {
        SettingsRow::Buttons(bs) => {
            let ids: Vec<&str> = bs.iter().map(|b| b.id.as_str()).collect();
            assert_eq!(ids, vec!["category_fmt_edit_2_0", "category_fmt_edit_2_1"]);
        }
        _ => panic!("expected buttons"),
    }
    match &rows[0] {
        SettingsRow::Buttons(bs) => {
            let ids: Vec<&str> = bs.iter().map(|b| b.id.as_str()).collect();
            assert_eq!(ids, vec!["category_fmt_add_2", "category_fmt_remove_2", "category_fmt_back_2"]);
        }
        _ => panic!("expected buttons"),
    }
}

#[test]
fn server_button_ids() {
    assert_eq!(classify_server_button("server_settings_roles"), (ServerButton::Roles, String::new()));
    assert_eq!(classify_server_button("server_cfg_hide_elo"), (ServerButton::ConfigToggle(3), String::new()));
    assert_eq!(classify_server_button("server_settings_rank_edit_4"), (ServerButton::RankEdit, "4".to_string()));
    assert_eq!(classify_server_button("link_ch_q_1_2"), (ServerButton::LinkChannel, "q_1_2".to_string()));
    assert_eq!(classify_server_button("whatever"), (ServerButton::Unknown, String::new()));
}

#[test]
fn category_button_ids() {
    assert_eq!(classify_category_button("category_fmt_confirm_remove"), (CategoryButton::FmtConfirmRemove(true), String::new()));
    assert_eq!(
        classify_category_button("category_fmt_confirm_remove_3_1"),
        (CategoryButton::FmtConfirmRemove(false), "3_1".to_string())
    );
    assert_eq!(classify_category_button("category_fmt_edit_3_2"), (CategoryButton::FmtEdit(false), "3_2".to_string()));
    assert_eq!(classify_category_button("category_settings_elo_gate_5"), (CategoryButton::EloGate, "5".to_string()));
    assert_eq!(classify_category_button("elo_gate_min"), (CategoryButton::EloGateMin(true), String::new()));
    assert_eq!(classify_category_button("elo_gate_max_1_0_2"), (CategoryButton::EloGateMax(false), "1_0_2".to_string()));
    assert_eq!(classify_category_button("elo_gate_clear_9"), (CategoryButton::EloGateClear, "9".to_string()));
    assert_eq!(classify_category_button("category_settings_edit_quota_3").0, CategoryButton::EditQuota(3));
    assert_eq!(classify_category_button("category_settings_edit_vc_keepmin_12").0, CategoryButton::ToggleVcKeepMin(12));
    assert_eq!(classify_category_button("category_settings_link_message_4").0, CategoryButton::LinkMessage(4));
    assert_eq!(classify_category_button("category_fmt_back_6").0, CategoryButton::FmtBack(6));
    assert_eq!(classify_category_button("category_settings_back_1").0, CategoryButton::SettingsBack(1));
    assert_eq!(classify_category_button("something_else_8").0, CategoryButton::Unknown(8));
    assert_eq!(classify_category_button("category_settings_edit_quota_x").0, CategoryButton::BadId);
    assert_eq!(classify_category_button("category_settings_edit_quota_300").0, CategoryButton::BadId);
}

#[test]
fn category_values() {
    assert_eq!(last_field_of("a_b_c", '_'), "c");
    assert_eq!(last_field_of("abc", '_'), "abc");
    assert_eq!(last_field_of("abc_", '_'), "");
    assert_eq!(parse_id_pair("3_1"), Some((3, 1)));
    assert_eq!(parse_id_pair("3_1_2"), None);
    assert_eq!(parse_id_pair("3"), None);
    assert_eq!(parse_id_pair("3_x"), None);
    assert_eq!(parse_usize("42"), Some(42));
    assert_eq!(parse_usize("-1"), None);
    assert_eq!(parse_gate_min("2_3"), Some((2, 3)));
    assert_eq!(parse_gate_min("2_3_4"), Some((2, 0)));
    assert_eq!(parse_gate_min("x_3"), Some((0, 3)));
    assert_eq!(parse_gate_min("23"), None);
    assert_eq!(parse_gate_max("2_1_5"), Some((2, 1, 5)));
    assert_eq!(parse_gate_max("2_1_5_7"), Some((2, 1, 0)));
    assert_eq!(parse_gate_max("2_1"), None);
}

#[test]
fn only_non_default_formats_can_be_removed() {
    let fs = vec![fmt(0, "6v6", 12), fmt(1, "4v4", 8), fmt(2, "2v2", 4)];
    let r = removable_formats(5, &fs);
    assert_eq!(
        r,
        vec![
            ("4v4 (quota: 8)".to_string(), "5_1".to_string()),
            ("2v2 (quota: 4)".to_string(), "5_2".to_string()),
        ]
    );
    assert!(removable_formats(5, &vec![fmt(0, "6v6", 12)]).is_empty());
}

#[test]
fn elo_gate_choices() {
    let ranks: Vec<(String, u16)> = vec![("Bronze".to_string(), 10), ("Silver".to_string(), 20), ("Gold".to_string(), 30)];
    let min = elo_gate_min_options(4, &ranks);
    assert_eq!(min[0], ("No minimum".to_string(), "4_0".to_string()));
    assert_eq!(min[2], ("Silver (ELO 20)".to_string(), "4_1".to_string()));
    assert_eq!(min.len(), 4);
    let max = elo_gate_max_options(4, 1, &ranks);
    assert_eq!(
        max,
        vec![
            ("Silver (ELO 20)".to_string(), "4_1_1".to_string()),
            ("Gold (ELO 30)".to_string(), "4_1_2".to_string()),
            ("No maximum".to_string(), "4_1_3".to_string()),
        ]
    );
    assert_eq!(clamp_max(3, 3), 2);
    assert_eq!(clamp_max(1, 3), 1);
    assert_eq!(clamp_max(5, 0), 0);
    let (access, allowed) = gate_access(4, 1, 2);
    assert_eq!(access, vec![false, true, true, false]);
    assert_eq!(allowed, 2);
    assert_eq!(gate_names(0, 2, &ranks), ("No minimum".to_string(), "No maximum".to_string()));
    assert_eq!(gate_names(1, 1, &ranks), ("Silver".to_string(), "Silver".to_string()));
}

fn channels() -> SetupChannels {
    SetupChannels { category: 10, dashboard: 11, queue: 12, queue_vc: 13, red: 14, blue: 15 }
}

#[test]
fn setup_refuses_non_admins() {
    let (st, act) = setup_step(initial_setup(), SetupEvent::AdminChecked(false));
    assert_eq!(st.stage, SetupStage::Finished);
    match act {
        SetupAction::Refuse(m) => assert_eq!(m, "Only admins can run setup!"),
        _ => panic!("expected a refusal"),
    }
}

#[test]
fn setup_runs_to_completion() {
    let (st, act) = setup_step(initial_setup(), SetupEvent::AdminChecked(true));
    assert!(matches!(act, SetupAction::CreateRunnerRole));
    let (st, act) = setup_step(st, SetupEvent::RunnerRole(Ok(100)));
    assert!(matches!(act, SetupAction::CreateAdminRole));
    let (st, act) = setup_step(st, SetupEvent::AdminRole(Ok(200)));
    assert!(matches!(act, SetupAction::SaveRolesAndCreateRankRoles { runner: 100, admin: 200 }));
    let (st, act) = setup_step(st, SetupEvent::RankRolesDone);
    assert!(matches!(act, SetupAction::CreateChannels));
    let (st, act) = setup_step(st, SetupEvent::Channels(Ok(channels())));
    assert!(matches!(act, SetupAction::PublishDashboard(11)));
    let (st, act) = setup_step(st, SetupEvent::DashboardPublished(Ok(77)));
    match act {
        SetupAction::SaveGroup { channels: c, dashboard_msg, quota } => {
            assert_eq!(c, channels());
            assert_eq!(dashboard_msg, 77);
            assert_eq!(quota, 8);
        }
        _ => panic!("expected the save"),
    }
    let (st, act) = setup_step(st, SetupEvent::GroupSaved(Ok(1)));
    assert_eq!(st.stage, SetupStage::Finished);
    match act {
        SetupAction::Succeed(d) => {
            assert!(d.starts_with("PUG bot is now fully configured!"));
            assert!(d.contains("• Runner: <@&100>"));
            assert!(d.contains("• Admin: <@&200>"));
            assert!(d.contains("• Dashboard: <#11>"));
            assert!(d.contains("• Category: <#10>"));
            assert!(d.ends_with("Players can join the queue now."));
        }
        _ => panic!("expected success"),
    }
    let (st2, act) = setup_step(st, SetupEvent::RankRolesDone);
    assert_eq!(st2, st);
    assert!(matches!(act, SetupAction::Ignore));
}

#[test]
fn setup_failures_clean_up_what_was_made() {
    let (st, _) = setup_step(initial_setup(), SetupEvent::AdminChecked(true));
    let (_, act) = setup_step(st, SetupEvent::RunnerRole(Err("denied".to_string())));
    match act {
        SetupAction::Fail { description, delete_message, delete_channels } => {
            assert_eq!(description, "Failed to create Runner role: denied");
            assert_eq!(delete_message, None);
            assert!(delete_channels.is_empty());
        }
        _ => panic!("expected a failure"),
    }
    let (st, _) = setup_step(st, SetupEvent::RunnerRole(Ok(1)));
    let (st, _) = setup_step(st, SetupEvent::AdminRole(Ok(2)));
    let (st, _) = setup_step(st, SetupEvent::RankRolesDone);
    let (_, act) = setup_step(st, SetupEvent::Channels(Err("limit".to_string())));
    match act {
        SetupAction::Fail { description, .. } => {
            assert_eq!(description, "Failed to create channels: limit\n\nRoles were created successfully.")
        }
        _ => panic!("expected a failure"),
    }
    let (st, _) = setup_step(st, SetupEvent::Channels(Ok(channels())));
    let (_, act) = setup_step(st, SetupEvent::DashboardPublished(Err("no perms".to_string())));
    match act {
        SetupAction::Fail { description, delete_message, delete_channels } => {
            assert_eq!(description, "Failed to create dashboard: no perms\n\nChannels were cleaned up. Roles remain.");
            assert_eq!(delete_message, None);
            assert_eq!(delete_channels, vec![11, 12, 13, 14, 15, 10]);
        }
        _ => panic!("expected a failure"),
    }
    let (st, _) = setup_step(st, SetupEvent::DashboardPublished(Ok(99)));
    let (_, act) = setup_step(st, SetupEvent::GroupSaved(Err("db down".to_string())));
    match act {
        SetupAction::Fail { description, delete_message, delete_channels } => {
            assert_eq!(description, "Failed to save group to database: db down\n\nChannels were cleaned up. Roles remain.");
            assert_eq!(delete_message, Some((11, 99)));
            assert_eq!(delete_channels, vec![11, 12, 13, 14, 15, 10]);
        }
        _ => panic!("expected a failure"),
    }
}
