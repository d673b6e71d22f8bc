use qbot_core::player_menu::{player_settings_menu, PlayerSettings};
use qbot_core::settings::SettingsRow;
use qbot_core::category::{Category, Format, Session};
use qbot_core::format_forms::{
    classify_format_modal, id_after, parse_message_input, read_format_form, FormatFormError, FormatModal,
    MessageInputError,
};
use qbot_core::guilds::QGuild;
use qbot_core::manager::Manager;
use qbot_core::rank_change::{classify_player_button, rank_role_swap, PlayerButton};
use qbot_core::session::SessionPlayer;

fn player(user_id: u64, elo: u16) -> SessionPlayer {
    SessionPlayer { user_id, elo, dynamic_elo: None, team: None, in_vc: false, queue_expiration: 0, joined_at_ms: 0 }
}

fn category(id: u8, pools: Vec<Vec<SessionPlayer>>, extra_format: bool) -> Category {
    let mut formats = vec![Format {
        id: 0,
        name: "6v6".to_string(),
        quota: 12,
        sessions: pools.into_iter().map(Session::new).collect(),
        connect_info: None,
    }];
    if extra_format {
        formats.push(Format { id: 1, name: "4v4".to_string(), quota: 8, sessions: vec![Session::new(vec![player(7, 1)])], connect_info: None });
    }
    Category {
        id,
        name: None,
        formats,
        restarting: false,
        require_score_report: false,
        confirm_time: 60,
        last_action: None,
        last_ping_ms: None,
    }
}

#[test]
fn format_forms_are_read() {
    assert_eq!(read_format_form(" 4v4 ", " 8 "), Ok(("4v4".to_string(), 8)));
    assert_eq!(read_format_form("  ", "8"), Err(FormatFormError::EmptyName));
    assert_eq!(read_format_form("4v4", "1"), Err(FormatFormError::InvalidQuota));
    assert_eq!(read_format_form("4v4", "many"), Err(FormatFormError::InvalidQuota));
}

#[test]
fn format_modal_ids() {
    assert_eq!(classify_format_modal("category_fmt_modal_edit_3_1"), FormatModal::Edit(3, 1));
    assert_eq!(classify_format_modal("category_fmt_modal_edit_3"), FormatModal::EditBadShape);
    assert_eq!(classify_format_modal("category_fmt_modal_edit_x_1"), FormatModal::EditBadCategory);
    assert_eq!(classify_format_modal("category_fmt_modal_edit_3_y"), FormatModal::EditBadFormat);
    assert_eq!(classify_format_modal("category_fmt_modal_add_4"), FormatModal::Add(4));
    assert_eq!(classify_format_modal("category_fmt_modal_add_"), FormatModal::AddBadId);
    assert_eq!(classify_format_modal("something"), FormatModal::Other);
    assert_eq!(id_after("category_link_msg_modal_9", "category_link_msg_modal_"), Some(9));
    assert_eq!(id_after("category_link_msg_modal_x", "category_link_msg_modal_"), None);
    assert_eq!(id_after("other_9", "category_link_msg_modal_"), None);
}

#[test]
fn message_ids_from_input() {
    assert_eq!(parse_message_input(" 1467572971093885086 "), Ok(1467572971093885086));
    assert_eq!(parse_message_input("https://discord.com/channels/1/2/345"), Ok(345));
    assert_eq!(parse_message_input("https://discord.com/channels/1/2/"), Err(MessageInputError::BadLink));
    assert_eq!(parse_message_input("abc"), Err(MessageInputError::BadId));
}

#[test]
fn formats_are_edited_in_place() {
    let mut c = category(2, vec![], true);
    assert!(c.edit_format(1, "3v3".to_string(), 6));
    assert_eq!(c.formats[1].name, "3v3");
    assert_eq!(c.formats[1].quota, 6);
    assert_eq!(c.formats[0].name, "6v6");
    assert!(!c.edit_format(5, "x".to_string(), 2));
}

#[test]
fn player_settings_buttons() {
    assert_eq!(classify_player_button("player_settings_edit_elo_42"), Some((PlayerButton::EditElo, 42)));
    assert_eq!(classify_player_button("player_settings_edit_dynamic_elo_42"), Some((PlayerButton::EditDynamicElo, 42)));
    assert_eq!(classify_player_button("player_settings_edit_alerts_1"), Some((PlayerButton::EditAlerts, 1)));
    assert_eq!(classify_player_button("player_settings_edit_what_1"), Some((PlayerButton::Unknown, 1)));
    assert_eq!(classify_player_button("player_settings_edit_elo_x"), None);
    assert_eq!(rank_role_swap(true, false), (true, true));
    assert_eq!(rank_role_swap(false, true), (false, false));
}

#[test]
fn rank_change_updates_queued_elo() {
    let mut m = Manager::new(1);
    m.qguilds[0].categories.push(category(3, vec![vec![player(5, 10), player(6, 10), player(5, 10)]], true));
    m.qguilds[0].categories.push(category(4, vec![vec![player(6, 10)]], false));
    let ids = m.apply_rank_change(1, 5, 65, true).expect("known guild");
    assert_eq!(ids, vec![3]);
    let pool = &m.qguilds[0].categories[0].formats[0].sessions[0].pool;
    assert_eq!(pool[0].elo, 65);
    assert_eq!(pool[1].elo, 10);
    assert_eq!(pool[2].elo, 10);
    let unchanged = m.apply_rank_change(1, 6, 90, false).expect("known guild");
    assert_eq!(unchanged, vec![3, 4]);
    assert_eq!(m.qguilds[0].categories[1].formats[0].sessions[0].pool[0].elo, 10);
    assert_eq!(m.apply_rank_change(2, 6, 90, true), None);
    let mut g = QGuild::new(3, "x".to_string());
    g.categories.push(category(1, vec![], false));
    m.qguilds.push(g);
    assert_eq!(m.apply_rank_change(3, 7, 90, true), Some(vec![]));
}

#[test]
fn player_settings_page() {
    let p = PlayerSettings {
        user_id: 42,
        username: "ann".to_string(),
        steam_id: Some(765),
        elo: 50,
        dynamic_elo: None,
        rank: "Gold".to_string(),
        games: 4,
        wins: 3,
    };
    let ranks = vec![("Gold".to_string(), 50, 100), ("Gold".to_string(), 60, 101), ("Iron".to_string(), 5, 102)];
    let m = player_settings_menu(&p, "75.0%".to_string(), &ranks);
    assert_eq!(m.title, "ann - Player Settings");
    let values: Vec<&str> = m.fields.iter().map(|f| f.value.as_str()).collect();
    assert_eq!(values, vec!["https://steamcommunity.com/profiles/765", "50", "Gold", "4", "3", "75.0%"]);
    assert_eq!(m.rows.len(), 3);
    match &m.rows[1] {
        SettingsRow::StringSelect { id, options, .. } => {
            assert_eq!(id, "player_settings_rank_select_42");
            assert_eq!(options[0], ("Gold (ELO: 50, ID 100)".to_string(), "100".to_string()));
            assert_eq!(options[2], ("Iron (ELO: 5)".to_string(), "102".to_string()));
        }
        _ => panic!("expected the rank select"),
    }
    let no_steam = PlayerSettings { steam_id: Some(0), ..p };
    let m = player_settings_menu(&no_steam, "0%".to_string(), &Vec::new());
    assert_eq!(m.fields[0].value, "Not set");
    assert_eq!(m.rows.len(), 2);
}
