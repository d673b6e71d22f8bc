use qbot_core::category_settings::{TeamVcCreatePolicy, TeamVcDestroyPolicy};
use qbot_core::forms::{
    read_category_form, read_new_category, read_post_game_time, read_rank_form, trim, CategoryForm,
    CategoryFormError, NewCategoryError, NewCategoryForm, RankForm, RankFormError,
};
use qbot_core::game::{GameStatus, Team as GameTeam};
use qbot_core::log::{command_usage_line, log_prefix_category, log_prefix_format, log_prefix_guild, queue_toggle_line, QueueToggleType};
use qbot_core::player_forms::{elo_change_needs_confirm, elo_change_prompt, read_color, read_dynamic_elo, read_elo, read_steam_id, target_user};
use qbot_core::prefs::{
    add_server_ping_button, ping_button, ping_role_change, ping_settings_rows, ping_toggle_id, timeout_choice, toggle_ping,
    RoleChange, TimeoutChoice,
};
use qbot_core::settings::{SettingsButton, SettingsButtonStyle, SettingsRow};
use qbot_core::records::{MatchStatus, Team as RecordTeam};

#[test]
fn trimming_matches_str_trim() {
    for s in ["  a b  ", "\t\nx", "", "   ", "\u{2003}y\u{00A0}"] {
        assert_eq!(trim(s), s.trim());
    }
}

#[test]
fn rank_form_reading() {
    assert_eq!(read_rank_form(" Gold ", " 1500 "), Ok(RankForm { name: "Gold".to_string(), elo: 1500 }));
    assert_eq!(read_rank_form("   ", "10"), Err(RankFormError::EmptyName));
    assert_eq!(read_rank_form("Gold", "abc"), Err(RankFormError::InvalidElo));
    assert_eq!(read_rank_form("Gold", "70000"), Err(RankFormError::InvalidElo));
}

#[test]
fn category_form_reading() {
    assert_eq!(
        read_category_form(" EU ", "12", "60", " connect 1.2.3.4:27015 "),
        Ok(CategoryForm {
            name: Some("EU".to_string()),
            quota: 12,
            confirm_time: 60,
            connect_info: Some("connect 1.2.3.4:27015".to_string()),
        })
    );
    assert_eq!(
        read_category_form("", "2", "1", ""),
        Ok(CategoryForm { name: None, quota: 2, confirm_time: 1, connect_info: None })
    );
    assert_eq!(read_category_form("x", "1", "60", ""), Err(CategoryFormError::InvalidQuota));
    assert_eq!(read_category_form("x", "101", "60", ""), Err(CategoryFormError::InvalidQuota));
    assert_eq!(read_category_form("x", "12", "0", ""), Err(CategoryFormError::InvalidTime));
    assert_eq!(read_category_form("x", "12", "soon", ""), Err(CategoryFormError::InvalidTime));
    assert_eq!(read_category_form("x", "zz", "zz", ""), Err(CategoryFormError::InvalidQuota));
}

#[test]
fn post_game_time_bounds() {
    assert_eq!(read_post_game_time("30"), Some(30));
    assert_eq!(read_post_game_time(" 300 "), Some(300));
    assert_eq!(read_post_game_time("29"), None);
    assert_eq!(read_post_game_time("301"), None);
    assert_eq!(read_post_game_time("x"), None);
}

#[test]
fn new_category_form_reading() {
    assert_eq!(
        read_new_category(" Main ", " EU Pugs ", " PUGS ", "12", " YES "),
        Ok(NewCategoryForm {
            name: "Main".to_string(),
            channel_prefix: "eu-pugs".to_string(),
            guild_category: "PUGS".to_string(),
            quota: 12,
            bot_only_dashboard: true,
        })
    );
    assert_eq!(read_new_category("Main", "eu", "PUGS", "12", "No").map(|f| f.bot_only_dashboard), Ok(false));
    assert_eq!(read_new_category("", "eu", "PUGS", "12", "yes"), Err(NewCategoryError::EmptyField));
    assert_eq!(read_new_category("Main", "eu", "PUGS", "12", "maybe"), Err(NewCategoryError::BotOnlyNotYesNo));
    assert_eq!(read_new_category("Main", "eu", "PUGS", "1", "yes"), Err(NewCategoryError::InvalidQuota));
}

#[test]
fn player_form_fields() {
    assert_eq!(target_user("player_settings_elo_123"), Some(123));
    assert_eq!(target_user("player_settings_elo_x"), None);
    assert_eq!(read_steam_id("  "), Ok(None));
    assert_eq!(read_steam_id(" 76561198000000000 "), Ok(Some(76561198000000000)));
    assert_eq!(read_steam_id("steam"), Err(()));
    assert_eq!(read_dynamic_elo(""), Ok(None));
    assert_eq!(read_dynamic_elo("1200"), Ok(Some(1200)));
    assert_eq!(read_dynamic_elo("-5"), Err(()));
    assert_eq!(read_elo(" 42 "), Some(42));
    assert_eq!(read_elo(""), None);
}

#[test]
fn alert_colours() {
    assert_eq!(read_color("#3498DB"), Some(0x3498DB));
    assert_eq!(read_color("##ff0000"), Some(0xFF0000));
    assert_eq!(read_color("ffffff"), Some(0xFFFFFF));
    assert_eq!(read_color("1000000"), None);
    assert_eq!(read_color("green"), None);
    assert_eq!(read_color("  "), None);
}

#[test]
fn elo_change_confirmation() {
    assert!(elo_change_needs_confirm(true, 1, 2));
    assert!(!elo_change_needs_confirm(true, 1, 1));
    assert!(!elo_change_needs_confirm(false, 1, 2));
}

#[test]
fn queue_timeout_choices() {
    assert_eq!(timeout_choice("settings_queue_expiration:cancel"), TimeoutChoice::Cancel);
    assert_eq!(timeout_choice("settings_queue_expiration:1h"), TimeoutChoice::Minutes(60));
    assert_eq!(timeout_choice("settings_queue_expiration:4h"), TimeoutChoice::Minutes(240));
    assert_eq!(timeout_choice("settings_queue_expiration:30m"), TimeoutChoice::Minutes(30));
    assert_eq!(timeout_choice("settings_queue_expiration"), TimeoutChoice::Minutes(30));
    assert_eq!(timeout_choice("settings_queue_expiration:9h"), TimeoutChoice::Minutes(30));
}

#[test]
fn ping_preferences() {
    assert!(toggle_ping(None));
    assert!(toggle_ping(Some(false)));
    assert!(!toggle_ping(Some(true)));
    assert_eq!(ping_role_change(true, false), RoleChange::Add);
    assert_eq!(ping_role_change(false, true), RoleChange::Remove);
    assert_eq!(ping_role_change(true, true), RoleChange::Keep);
    assert_eq!(ping_button(None), (true, "Enable ping notifications"));
    assert_eq!(ping_button(Some(false)), (false, "Ping notifications disabled"));
    assert_eq!(ping_toggle_id(99), "settings_toggle_ping_notification_99");
}

#[test]
fn log_prefixes_and_queue_lines() {
    assert_eq!(log_prefix_guild("G"), "[G]");
    assert_eq!(log_prefix_category("G", "C"), "[G/C]");
    assert_eq!(log_prefix_format("G", "C", "6v6"), "[G/C/6v6]");
    assert_eq!(log_prefix_format("G", "C", ""), "[G/C]");
    assert_eq!(
        queue_toggle_line("G", "C", "ann", QueueToggleType::BJ, Some((3, 12)), Some("6v6"), 3),
        "[G/C/6v6] #3 ann joined [3/12]"
    );
    assert_eq!(queue_toggle_line("G", "C", "ann", QueueToggleType::VL, None, None, 0), "[G/C] ann left (VC)");
}

#[test]
fn team_vc_policies_cycle() {
    let c = TeamVcCreatePolicy::OnFirstJoin;
    assert_eq!(c.next(), TeamVcCreatePolicy::OnHot);
    assert_eq!(c.next().next().next(), c);
    let d = TeamVcDestroyPolicy::AfterPull;
    assert_eq!(d.next(), TeamVcDestroyPolicy::AfterExpiration);
    assert_eq!(d.next().next().next(), d);
}

#[test]
fn stored_names() {
    for s in [MatchStatus::Forming, MatchStatus::Confirmed, MatchStatus::InProgress, MatchStatus::Ended] {
        assert_eq!(MatchStatus::from_text(s.as_text()), Some(s));
    }
    assert_eq!(MatchStatus::InProgress.as_text(), "in_progress");
    assert_eq!(MatchStatus::from_text("paused"), None);
    assert_eq!(RecordTeam::Red.as_text(), "RED");
    assert_eq!(GameTeam::from_str("UNASSIGNED"), Ok(GameTeam::Unassigned));
    assert_eq!(GameTeam::from_str("RED"), Ok(GameTeam::Red));
    assert!(GameTeam::from_str("x").is_err());
    assert_ne!(GameStatus::Idle, GameStatus::Live);
}

fn first_button(row: &SettingsRow) -> &SettingsButton {
    match row {
        SettingsRow::Buttons(bs) => &bs[0],
        _ => panic!("expected buttons"),
    }
}

#[test]
fn ping_settings_page_rows() {
    let rows = ping_settings_rows(true, Some(true));
    assert_eq!(first_button(&rows[0]).style, SettingsButtonStyle::Success);
    assert!(!first_button(&rows[0]).disabled);
    assert_eq!(first_button(&rows[1]).id, "user_prefs_ping_back");
    assert_eq!(first_button(&ping_settings_rows(true, None)[0]).style, SettingsButtonStyle::Secondary);
    assert!(first_button(&ping_settings_rows(false, Some(true))[0]).disabled);
}

#[test]
fn server_ping_toggle_joins_the_fourth_row() {
    let row = || SettingsRow::Buttons(vec![SettingsButton::edit("x".to_string(), "X".to_string())]);
    let mut rows = vec![row(), row(), row(), row()];
    add_server_ping_button(&mut rows, None);
    match &rows[3] {
        SettingsRow::Buttons(bs) => {
            assert_eq!(bs.len(), 2);
            assert_eq!(bs[1].label, "Pings enabled");
        }
        _ => panic!("expected buttons"),
    }
    let mut short = vec![row()];
    add_server_ping_button(&mut short, Some(false));
    match &short[0] {
        SettingsRow::Buttons(bs) => assert_eq!(bs.len(), 1),
        _ => panic!("expected buttons"),
    }
    let mut off = vec![row(), row(), row(), row()];
    add_server_ping_button(&mut off, Some(false));
    match &off[3] {
        SettingsRow::Buttons(bs) => assert_eq!(bs[1].style, SettingsButtonStyle::Danger),
        _ => panic!("expected buttons"),
    }
}

#[test]
fn command_usage_lines() {
    assert_eq!(command_usage_line("G", "ann#1", "setup", None, None), "[G] ann#1 used /setup");
    assert_eq!(
        command_usage_line("G", "ann#1", "rank", Some("bob#2"), Some("gold")),
        "[G] ann#1 used /rank on bob#2 gold"
    );
    assert_eq!(command_usage_line("G", "ann", "x", None, Some("p")), "[G] ann used /x p");
}

#[test]
fn elo_change_prompt_names_both_ranks() {
    let m = elo_change_prompt(7, "ann", 1500, "Novice", 1200, "Master", 11, 22);
    assert_eq!(m.title, "Rank Change Required");
    assert_eq!(m.color, 0xFFA500);
    assert_eq!(
        m.description.as_deref(),
        Some("Setting **ann's** ELO to **1500** will change their rank:\n\n**Current:** Novice (ELO 1200)\n**New:** Master (ELO 1500)\n\nThis will update their Discord role from <@&11> to <@&22>.\n\nDo you want to continue?")
    );
    match &m.rows[0] {
        qbot_core::settings::SettingsRow::Buttons(bs) => {
            assert_eq!(bs[0].id, "confirm_elo_change_7_1500");
            assert_eq!(bs[1].id, "cancel_elo_change_7");
        }
        _ => panic!("expected buttons"),
    }
}
