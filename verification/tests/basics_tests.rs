use qbot_core::buttons::{dashboard_action, parse_fmt_id, ButtonType};
use qbot_core::elo::MatchResult;
use qbot_core::ids::{from_hex, parse_cid, parse_mid, parse_opt_cid, to_hex, IntErrorKind};
use qbot_core::parse::{parse_u16, parse_u64, parse_u8, split_on};
use qbot_core::queue::QueueType;
use qbot_core::rank::Rank;
use qbot_core::session::{SessionStatus, Team};
use qbot_core::steam::extract_steam_link;
use qbot_core::text::{blank, ends_with, starts_with, str_eq, u64_to_string};
use qbot_core::voice::VoiceStateUpdate;

#[test]
fn decimal_text_of_numbers() {
    assert_eq!(u64_to_string(0), "0");
    assert_eq!(u64_to_string(42), "42");
    assert_eq!(u64_to_string(u64::MAX), "18446744073709551615");
}

#[test]
fn string_comparisons() {
    assert!(str_eq("abc", "abc"));
    assert!(!str_eq("abc", "abd"));
    assert!(starts_with("join_queue:3", "join_queue"));
    assert!(!starts_with("join", "join_queue"));
    assert!(ends_with("category_fmt_back_7", "_7"));
    assert!(!ends_with("abc", "abcd"));
}

#[test]
fn blank_text_is_whitespace_only() {
    assert!(blank(""));
    assert!(blank(" \t\n"));
    assert!(blank("\u{00A0}\u{2003}"));
    assert!(!blank("  x "));
}

#[test]
fn split_keeps_empty_fields() {
    assert_eq!(split_on("a_b_c", '_'), vec!["a", "b", "c"]);
    assert_eq!(split_on("_a__", '_'), vec!["", "a", "", ""]);
    assert_eq!(split_on("", '_'), vec![""]);
}

#[test]
fn unsigned_parsing_matches_str_parse() {
    assert_eq!(parse_u8("255"), Some(255));
    assert_eq!(parse_u8("256"), None);
    assert_eq!(parse_u8("+7"), Some(7));
    assert_eq!(parse_u8(""), None);
    assert_eq!(parse_u8("-1"), None);
    assert_eq!(parse_u8(" 1"), None);
    assert_eq!(parse_u16("65535"), Some(65535));
    assert_eq!(parse_u16("65536"), None);
    assert_eq!(parse_u64("18446744073709551615"), Some(u64::MAX));
    assert_eq!(parse_u64("18446744073709551616"), None);
    for s in ["0", "12", "+3", "", "x", "99999999999999999999", "007"] {
        assert_eq!(parse_u64(s), s.parse::<u64>().ok());
    }
}

#[test]
fn hex_round_trip_of_ids() {
    for n in [0u64, 1, 15, 16, 255, 1386989827307606107, u64::MAX] {
        assert_eq!(to_hex(n), format!("{:x}", n));
        assert_eq!(from_hex(&to_hex(n)), Ok(n));
    }
}

#[test]
fn hex_errors_match_from_str_radix() {
    assert_eq!(from_hex(""), Err(IntErrorKind::Empty));
    assert_eq!(from_hex("+"), Err(IntErrorKind::InvalidDigit));
    assert_eq!(from_hex("xyz"), Err(IntErrorKind::InvalidDigit));
    assert_eq!(from_hex("1ffffffffffffffff"), Err(IntErrorKind::PosOverflow));
    assert_eq!(from_hex("+Ff"), Ok(255));
    assert_eq!(parse_mid("1a"), Ok(26));
    assert_eq!(parse_cid("1a"), Ok(26));
}

#[test]
fn optional_channel_id() {
    assert_eq!(parse_opt_cid("0"), Ok(None));
    assert_eq!(parse_opt_cid("ff"), Ok(Some(255)));
    assert_eq!(parse_opt_cid("zz"), Err(IntErrorKind::InvalidDigit));
    assert_eq!(parse_cid("0"), Err(IntErrorKind::Zero));
    assert_eq!(parse_cid("00"), Err(IntErrorKind::Zero));
    assert_eq!(parse_opt_cid("00"), Err(IntErrorKind::Zero));
}

#[test]
fn steam_links_from_connect_info() {
    assert_eq!(extract_steam_link("connect 1.1.1.1:27015").as_deref(), Some("steam://connect/1.1.1.1:27015"));
    assert_eq!(extract_steam_link("1.1.1.1:27015").as_deref(), Some("steam://connect/1.1.1.1:27015"));
    assert_eq!(
        extract_steam_link("connect 1.1.1.1:27015; password 1234").as_deref(),
        Some("steam://connect/1.1.1.1:27015/1234")
    );
    assert_eq!(
        extract_steam_link("1.1.1.1:27015; password mypass").as_deref(),
        Some("steam://connect/1.1.1.1:27015/mypass")
    );
    assert_eq!(extract_steam_link("no address here"), None);
    assert_eq!(extract_steam_link("\u{e9}1.1.1.1:27015").as_deref(), Some("steam://connect/1.1.1.1:27015"));
    assert_eq!(
        extract_steam_link("1.1.1.1:27015; password p\u{e4}sswort").as_deref(),
        Some("steam://connect/1.1.1.1:27015/p\u{e4}sswort")
    );
    assert_eq!(
        extract_steam_link("Serveur \u{e0} 1.2.3.4:27015; PASSWORD \u{3000}x\u{3000}").as_deref(),
        Some("steam://connect/1.2.3.4:27015/x")
    );
}

#[test]
fn button_ids_parse_to_their_types() {
    assert!(matches!(ButtonType::parse_button("join_queue"), ButtonType::DashboardJoin));
    assert!(matches!(ButtonType::parse_button("setup_queuevc"), ButtonType::SetupQueueVc));
    assert!(matches!(ButtonType::parse_button("init_quota"), ButtonType::InitQuota));
    match ButtonType::parse_button("mystery") {
        ButtonType::Unknown(s) => assert_eq!(s, "mystery"),
        _ => panic!("expected an unknown button"),
    }
    let b = ButtonType::parse_button("init_queuevc");
    assert!(b.is_setup_button());
    assert!(!b.is_dashboard_action());
    assert_eq!(b.setup_step(), Some("queuevc"));
    assert!(ButtonType::parse_button("cancel_match").is_dashboard_action());
    let d = ButtonType::parse_button("report_score");
    assert!(d.is_dashboard_action());
    assert!(!d.is_setup_button());
    assert_eq!(d.setup_step(), None);
    assert_eq!(ButtonType::parse_button("setup_queuevc").setup_step(), Some("queuevc"));
    assert_eq!(ButtonType::parse_button("init_runner").setup_step(), Some("runner"));
    assert_eq!(ButtonType::parse_button("init_admin").setup_step(), Some("admin"));
    assert_eq!(ButtonType::parse_button("categorylink_red").setup_step(), None);
}

#[test]
fn dashboard_custom_ids_carry_a_format() {
    assert_eq!(dashboard_action("join_queue:3"), ("join_queue".to_string(), 3));
    assert_eq!(dashboard_action("join_queue"), ("join_queue".to_string(), 0));
    assert_eq!(dashboard_action("start_match:x"), ("start_match".to_string(), 0));
    assert_eq!(parse_fmt_id(&["a", "9"]), 9);
    assert_eq!(parse_fmt_id(&["a"]), 0);
    assert_eq!(parse_fmt_id(&["a", "300"]), 0);
}

#[test]
fn ranks_rise_with_the_ladder() {
    let ladder = [
        Rank::Beginner,
        Rank::Novice,
        Rank::Apprentice,
        Rank::Journeyman,
        Rank::Master,
        Rank::MasterElite,
        Rank::Grandmaster,
    ];
    for w in ladder.windows(2) {
        assert!(w[0].elo() < w[1].elo());
    }
    assert_eq!(Rank::Beginner.elo(), 10);
    assert_eq!(Rank::Grandmaster.elo(), 95);
    assert_eq!(Rank::MasterElite.name(), "Master Elite");
    assert_eq!(Rank::Beginner.id_hardcoded(), qbot_core::rank::EU_BEGINNER_R_ID);
}

#[test]
fn queue_type_names_round_trip() {
    for q in [QueueType::Newcomer, QueueType::Journey, QueueType::Default] {
        assert_eq!(QueueType::from_name(&q.to_name()), q);
    }
    assert_eq!(QueueType::from_name("anything"), QueueType::Default);
}

#[test]
fn match_results_from_text() {
    assert_eq!(MatchResult::from_str("red"), Some(MatchResult::RedWin));
    assert_eq!(MatchResult::from_str("nope"), None);
}

#[test]
fn teams_from_text() {
    assert_eq!(Team::from_str("RED"), Ok(Team::Red));
    assert_eq!(Team::from_str("BLU"), Ok(Team::Blu));
    assert_eq!(Team::from_str("green"), Err("Unknown : green".to_string()));
}

#[test]
fn active_session_statuses() {
    assert!(!SessionStatus::Idle.is_active());
    assert!(!SessionStatus::Hot.is_active());
    assert!(SessionStatus::Push.is_active());
    assert!(SessionStatus::Live.is_active());
    assert!(SessionStatus::Pull.is_active());
}

#[test]
fn voice_state_changes() {
    assert_eq!(VoiceStateUpdate::get(Some(Some(1)), Some(1)), VoiceStateUpdate::Reconnected);
    assert_eq!(VoiceStateUpdate::get(Some(None), Some(1)), VoiceStateUpdate::Connected);
    assert_eq!(VoiceStateUpdate::get(Some(Some(1)), Some(2)), VoiceStateUpdate::Moved);
    assert_eq!(VoiceStateUpdate::get(Some(Some(1)), None), VoiceStateUpdate::Moved);
    assert_eq!(VoiceStateUpdate::get(None, None), VoiceStateUpdate::Disconnected);
    assert_eq!(VoiceStateUpdate::get(None, Some(3)), VoiceStateUpdate::Connected);
}
