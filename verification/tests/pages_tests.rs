use qbot_core::group_pages::{GroupEntry, GroupListDisplay, GroupSettingsDisplay, RoleConfigDisplay};
use qbot_core::rank_pages::{RankConfigDisplay, RankRoleConfigDisplay};
use qbot_core::settings::{SettingsButtonStyle, SettingsRow};
use qbot_core::settings_pages::AsSettingsMenu;

fn button_ids(row: &SettingsRow) -> Vec<String> {
    match row {
        SettingsRow::Buttons(bs) => bs.iter().map(|b| b.id.clone()).collect(),
        _ => panic!("not a button row"),
    }
}

#[test]
fn role_page_mentions_each_configured_role() {
    let d = RoleConfigDisplay {
        guild_name: "Guild".to_string(),
        runner_role: Some("1,2".to_string()),
        admin_role: None,
    };
    let m = d.build_embed();
    assert_eq!(m.title, "Guild - Manage Roles");
    assert_eq!(m.fields[0].value, "<@&1>, <@&2>");
    assert_eq!(m.fields[1].value, "*Not configured*");
    assert_eq!(m.footer.as_deref(), Some("Select roles below or use Create Roles to auto-generate"));
}

#[test]
fn role_page_rows_preselect_the_role() {
    let d = RoleConfigDisplay {
        guild_name: "Guild".to_string(),
        runner_role: Some("42".to_string()),
        admin_role: Some("7,8".to_string()),
    };
    let rows = d.build_components();
    assert_eq!(rows.len(), 3);
    match &rows[0] {
        SettingsRow::RoleSelect { id, default, .. } => {
            assert_eq!(id, "server_settings_runner_role");
            assert_eq!(*default, Some(42));
        }
        _ => panic!("expected a role select"),
    }
    match &rows[1] {
        SettingsRow::RoleSelect { id, default, .. } => {
            assert_eq!(id, "server_settings_admin_role");
            assert_eq!(*default, None);
        }
        _ => panic!("expected a role select"),
    }
    assert_eq!(button_ids(&rows[2]), vec!["server_settings_create_roles", "server_settings_roles_back"]);
}

#[test]
fn group_list_names_each_group() {
    let d = GroupListDisplay {
        guild_name: "G".to_string(),
        groups: vec![
            GroupEntry { group_id: 1, name: "Main".to_string(), queue_vc: 100 },
            GroupEntry { group_id: 2, name: "Side".to_string(), queue_vc: 200 },
        ],
    };
    let m = d.build_embed();
    assert_eq!(m.title, "G - Manage Groups");
    assert_eq!(m.description.as_deref(), Some("**Active groups:**\n- Main\n- Side\n"));
    let rows = d.build_components();
    assert_eq!(rows.len(), 2);
    assert_eq!(
        button_ids(&rows[0]),
        vec!["server_settings_group_select_1_100", "server_settings_group_select_2_200"]
    );
    assert_eq!(
        button_ids(&rows[1]),
        vec!["server_settings_create_group", "server_settings_remove_group", "server_settings_groups_back"]
    );
}

#[test]
fn empty_group_list_has_no_remove_button() {
    let d = GroupListDisplay { guild_name: "G".to_string(), groups: vec![] };
    assert_eq!(d.build_embed().description.as_deref(), Some("**Active groups:**\n"));
    let rows = d.build_components();
    assert_eq!(rows.len(), 1);
    assert_eq!(button_ids(&rows[0]), vec!["server_settings_create_group", "server_settings_groups_back"]);
}

#[test]
fn group_settings_page_shows_its_values() {
    let d = GroupSettingsDisplay {
        group_id: 3,
        name: None,
        quota: 10,
        timeout: 90,
        connect_info: Some("connect 1.2.3.4".to_string()),
        team_balance: "BCH".to_string(),
    };
    let m = d.as_settings_menu();
    assert_eq!(m.title, "Group 3 Settings");
    assert_eq!(m.fields[0].value, "Group 3");
    assert_eq!(m.fields[1].value, "10 players");
    assert_eq!(m.fields[2].value, "90 seconds");
    assert_eq!(m.fields[3].value, "`connect 1.2.3.4`");
    assert!(!m.fields[3].inline);
    assert_eq!(m.fields[4].value, "BCH");
    assert_eq!(
        button_ids(&m.rows[0]),
        vec!["group_settings_edit_name_3", "group_settings_edit_quota_3", "group_settings_edit_timeout_3"]
    );
    match &m.rows[2] {
        SettingsRow::StringSelect { id, options, .. } => {
            assert_eq!(id, "group_settings_balance_3");
            assert_eq!(options.len(), 2);
            assert_eq!(options[1].1, "average");
        }
        _ => panic!("expected a select"),
    }
}

fn ranks() -> Vec<(String, u16, u64)> {
    vec![
        ("Gold".to_string(), 1500, 30),
        ("Bronze".to_string(), 1000, 10),
        ("Silver".to_string(), 1000, 20),
        ("Gold".to_string(), 1800, 40),
    ]
}

#[test]
fn rank_page_groups_roles_by_elo_ascending() {
    let d = RankConfigDisplay {
        guild_name: "G".to_string(),
        rank_roles: ranks(),
        toggle_states: vec![],
        default_rank_role: Some(20),
    };
    let m = d.as_settings_menu();
    assert_eq!(m.title, "G - Manage Ranks");
    assert_eq!(
        m.description.as_deref(),
        Some("‹**1000**› <@&10>, <@&20> (default)\n‹**1500**› <@&30>\n‹**1800**› <@&40>\n")
    );
    assert_eq!(m.footer.as_deref(), Some("Select a rank below to edit its name, ELO, or linked role"));
    assert_eq!(m.rows.len(), 3);
}

#[test]
fn rank_choices_tell_same_names_apart() {
    let d = RankConfigDisplay {
        guild_name: "G".to_string(),
        rank_roles: ranks(),
        toggle_states: vec![],
        default_rank_role: Some(30),
    };
    let rows = d.build_components();
    assert_eq!(rows.len(), 3);
    match &rows[0] {
        SettingsRow::StringSelect { id, options, .. } => {
            assert_eq!(id, "server_settings_default_rank_select");
            assert_eq!(options[0], ("Gold (ID 30, current default)".to_string(), "30".to_string()));
            assert_eq!(options[1], ("Bronze".to_string(), "10".to_string()));
            assert_eq!(options[3], ("Gold (ID 40)".to_string(), "40".to_string()));
        }
        _ => panic!("expected a select"),
    }
    match &rows[1] {
        SettingsRow::StringSelect { id, options, .. } => {
            assert_eq!(id, "server_settings_rank_select");
            assert_eq!(options[0].0, "Gold (ID 30)");
            assert_eq!(options[2].0, "Silver");
        }
        _ => panic!("expected a select"),
    }
    assert_eq!(
        button_ids(&rows[2]),
        vec!["server_settings_rank_add", "server_settings_rank_link", "server_settings_ranks_back"]
    );
}

#[test]
fn rank_page_without_ranks() {
    let d = RankConfigDisplay {
        guild_name: "G".to_string(),
        rank_roles: vec![],
        toggle_states: vec![true],
        default_rank_role: None,
    };
    let m = d.as_settings_menu();
    assert_eq!(
        m.description.as_deref(),
        Some("No ranks configured yet. Click 'Add Rank' to create your first rank.")
    );
    assert_eq!(m.footer.as_deref(), Some("Configure ranks by adding new ones below"));
    assert_eq!(m.rows.len(), 2);
    assert!(button_ids(&m.rows[0]).is_empty());
}

#[test]
fn one_rank_page() {
    let d = RankRoleConfigDisplay {
        guild_name: "G".to_string(),
        rank_name: "Gold".to_string(),
        rank_key: "gold".to_string(),
        elo: 1500,
        role_id: 30,
    };
    let m = d.build_embed();
    assert_eq!(m.title, "G - Gold Rank");
    assert_eq!(m.fields[1].value, "1500");
    assert_eq!(m.fields[2].value, "<@&30>");
    let rows = d.build_components();
    match &rows[0] {
        SettingsRow::RoleSelect { id, default, .. } => {
            assert_eq!(id, "server_settings_rank_role_gold");
            assert_eq!(*default, Some(30));
        }
        _ => panic!("expected a role select"),
    }
    assert_eq!(
        button_ids(&rows[1]),
        vec!["server_settings_rank_edit_gold", "server_settings_rank_delete_gold", "server_settings_rank_back"]
    );
    match &rows[1] {
        SettingsRow::Buttons(bs) => assert_eq!(bs[1].style, SettingsButtonStyle::Danger),
        _ => panic!("expected buttons"),
    }
}
