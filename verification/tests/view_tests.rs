use qbot_core::category::{Category, Format, Session};
use qbot_core::category_settings::CategorySettings;
use qbot_core::dashboard_view::{list_players, ViewParams};
use qbot_core::ids::{to_hex, IntErrorKind};
use qbot_core::link::{
    decode_link_state, detect_channels, encode_link_state, find_duplicate, link_choice, link_description, progress_text,
    slot_choices, ChannelKind, GuildChannel, LinkError, LinkSlot, LinkState, LinkStep, LinkedChannels,
};
use qbot_core::session::{SessionPlayer, SessionStatus, Team};
use qbot_core::link_options::{
    dashboard_messages, link_options, newest_message, read_link_target, FetchedMessage, LinkTarget, StateError,
};
use qbot_core::settings::SettingsRow;

fn player(user_id: u64, elo: u16, in_vc: bool) -> SessionPlayer {
    SessionPlayer {
        user_id,
        elo,
        dynamic_elo: None,
        team: None,
        in_vc,
        queue_expiration: 0,
        joined_at_ms: 0,
    }
}

fn on(team: Team, mut p: SessionPlayer) -> SessionPlayer {
    p.team = Some(team);
    p
}

fn params() -> ViewParams {
    ViewParams { hide_elo: false, dynamic_elo: false, post_game_confirm_secs: 60, guild_id: 1, in_game: Vec::new() }
}

fn one_format(sessions: Vec<Session>, connect: Option<&str>) -> Category {
    Category {
        id: 4,
        name: None,
        formats: vec![Format {
            id: 0,
            name: "6v6".to_string(),
            quota: 2,
            sessions,
            connect_info: connect.map(|s| s.to_string()),
        }],
        restarting: false,
        require_score_report: false,
        confirm_time: 60,
        last_action: None,
        last_ping_ms: None,
    }
}

#[test]
fn player_lines_with_and_without_elo() {
    let ps = [player(10, 1500, false), player(11, 900, false)];
    assert_eq!(list_players(&ps, false, false), "‹**1500**› <@10>\n‹**900**› <@11>");
    assert_eq!(list_players(&ps, true, false), "<@10>\n<@11>");
    assert_eq!(list_players(&[], false, false), "");
}

#[test]
fn category_names_and_settings() {
    let c = one_format(Vec::new(), None);
    assert_eq!(c.name(), "Category 4");
    assert_eq!(c.quota(), 2);
    let s = CategorySettings::from_category(&c, "On hot".to_string(), "After pull".to_string(), true);
    assert_eq!(s.category_id, 4);
    assert_eq!(s.quota, 2);
    assert_eq!(s.format_names, vec!["6v6".to_string()]);
    assert_eq!(s.vc_create, "On hot");
    assert!(s.vc_keep_min);
    let mut empty = one_format(Vec::new(), None);
    empty.formats.clear();
    assert_eq!(empty.quota(), 8);
}

#[test]
fn empty_dashboard_invites_to_join() {
    let c = one_format(Vec::new(), None);
    let d = c.build_dashboard_content(&params(), 0);
    assert_eq!(d.title, "Category 4");
    assert_eq!(d.fields.len(), 1);
    assert_eq!(d.fields[0].name, "Queue - Idle (0/2)");
    assert_eq!(d.fields[0].value, "*Empty, join to get started!*");
    assert!(d.footer.is_none());
    assert_eq!(d.rows.len(), 2);
    match &d.rows[0] {
        SettingsRow::Buttons(bs) => assert_eq!(bs[0].id, "join_queue:0"),
        _ => panic!("expected buttons"),
    }
}

#[test]
fn non_ascii_connect_info_is_shown_with_its_link() {
    let c = one_format(Vec::new(), Some("\u{e9}t\u{e9} 1.1.1.1:27015; password p\u{e4}ss"));
    let d = c.build_dashboard_content(&params(), 0);
    let last = d.fields.last().unwrap();
    assert!(last.value.contains("steam://connect/1.1.1.1:27015/p\u{e4}ss"));
}

#[test]
fn waiting_players_are_listed_with_status() {
    let c = one_format(vec![Session::new(vec![player(10, 1500, true)])], None);
    let d = c.build_dashboard_content(&params(), 0);
    assert_eq!(d.fields.len(), 2);
    assert_eq!(d.fields[0].name, "Queue - Idle (1/2)");
    assert_eq!(d.fields[0].value, "‹**1500**› <@10>\n");
    assert_eq!(d.fields[1].name, "Status");
    assert_eq!(d.fields[1].value, "VC\n");
}

#[test]
fn ready_game_lists_missing_players_and_teams() {
    let mut s = Session::new(vec![on(Team::Red, player(10, 1500, true)), on(Team::Blu, player(11, 1000, false))]);
    s.status = SessionStatus::Hot;
    let c = one_format(vec![s], Some("connect 1.2.3.4:27015"));
    let d = c.build_dashboard_content(&params(), 0);
    assert_eq!(d.fields[0].name, "Queue - Ready to start");
    assert_eq!(d.fields[0].value, "**Missing players:**\n  • ‹**1000**› <@11>\n");
    assert!(d.fields.iter().any(|f| f.name == "‹**1500**› 🔴 RED"));
    assert!(d.fields.iter().any(|f| f.name == "‹**1000**› 🔵 BLU"));
    let last = d.fields.last().expect("connect info");
    assert_eq!(last.name, "Server connect info:");
    assert_eq!(last.value, "```connect 1.2.3.4:27015```\n**Steam Link:**\n```steam://connect/1.2.3.4:27015```");
}

#[test]
fn team_averages_round_to_one_decimal() {
    let mut s = Session::new(vec![
        on(Team::Red, player(1, 1001, true)),
        on(Team::Blu, player(2, 1000, true)),
        on(Team::Red, player(3, 1000, true)),
        on(Team::Blu, player(4, 1000, true)),
    ]);
    s.status = SessionStatus::Hot;
    let mut c = one_format(vec![s], None);
    c.formats[0].quota = 4;
    let d = c.build_dashboard_content(&params(), 0);
    let names: Vec<&str> = d.fields.iter().map(|f| f.name.as_str()).collect();
    assert!(names.contains(&"‹**1000.5**› 🔴 RED"));
    assert!(names.contains(&"‹**1000**› 🔵 BLU"));
}

#[test]
fn recent_runner_action_is_the_footer() {
    let mut c = one_format(Vec::new(), None);
    c.last_action = Some(("ann".to_string(), "started the game".to_string(), 1_000));
    assert_eq!(c.build_dashboard_content(&params(), 500_000).footer.as_deref(), Some("ann started the game"));
    assert_eq!(c.build_dashboard_content(&params(), 1_000 + 600_000).footer, None);
}

fn state() -> LinkState {
    LinkState { category: 0xabc, dashboard: Some(0x10), queue: None, ping: None, queue_vc: None, red: None, blue: None }
}

#[test]
fn link_state_round_trip() {
    let st = state();
    let enc = encode_link_state(&st, LinkSlot::Queue);
    assert_eq!(enc, "abc_10_0_0_0_0_0_q");
    assert_eq!(decode_link_state(&enc), Ok((st, Some(LinkSlot::Queue))));
    assert_eq!(decode_link_state("abc_10_0_0_0_0_0_z"), Ok((st, None)));
    assert_eq!(decode_link_state("abc_10_0"), Err(LinkError::InvalidState));
    assert_eq!(decode_link_state("abc_zz_0_0_0_0_0_q"), Err(LinkError::BadId(IntErrorKind::InvalidDigit)));
    assert_eq!(to_hex(0xabc), "abc");
}

#[test]
fn link_choices_advance() {
    match link_choice("abc_10_0_0_0_0_0_q", 0x20) {
        Ok(LinkStep::Continue { state, next, encoded }) => {
            assert_eq!(state.queue, Some(0x20));
            assert_eq!(next, LinkSlot::QueueVc);
            assert_eq!(encoded, "abc_10_20_0_0_0_v");
        }
        _ => panic!("expected another channel to be asked for"),
    }
    match link_choice("abc_10_20_30_40_50_0_b", 0x60) {
        Ok(LinkStep::Complete(st)) => assert_eq!(st.blue, Some(0x60)),
        _ => panic!("expected completion"),
    }
    assert!(matches!(link_choice("abc", 1), Err(LinkError::InvalidState)));
}

#[test]
fn link_progress_text() {
    let st = state();
    assert_eq!(
        progress_text(&st, false),
        "**Channel Linking Progress:**\n\nDashboard: <#16>\nQueue Chat: Not selected\nQueue Voice: Not selected\nRed Team: Not selected\nBlue Team: Not selected\n"
    );
    assert!(progress_text(&st, true).contains("Ping Channel: Not selected\n"));
    assert!(link_description(&st, false, LinkSlot::Queue)
        .ends_with("\n\n**Next:** Select the Queue chat (text) channel from the dropdown below."));
}

#[test]
fn duplicate_channels_are_found() {
    let cs = vec![
        LinkedChannels { dashboard: 1, queue_chat: 2, queue_vc: 3, teams: vec![(4, 5)] },
        LinkedChannels { dashboard: 6, queue_chat: 7, queue_vc: 8, teams: vec![(9, 10), (11, 12)] },
    ];
    assert_eq!(find_duplicate(&cs, 100, 101, 102, 11, 103), Some(1));
    assert_eq!(find_duplicate(&cs, 1, 7, 102, 103, 104), Some(0));
    assert_eq!(find_duplicate(&cs, 100, 101, 102, 103, 104), None);
}

fn ch(id: u64, parent: u64, kind: ChannelKind, name: &str) -> GuildChannel {
    GuildChannel { id, parent_id: Some(parent), kind, name: name.to_string() }
}

#[test]
fn channels_are_found_by_name() {
    let channels = vec![
        ch(1, 9, ChannelKind::Text, "Dashboard"),
        ch(2, 9, ChannelKind::Text, "PUG-Chat"),
        ch(3, 9, ChannelKind::Text, "ping"),
        ch(4, 9, ChannelKind::Voice, "queue-vc"),
        ch(5, 9, ChannelKind::Voice, "Red Team"),
        ch(6, 9, ChannelKind::Voice, "BLU"),
        ch(7, 8, ChannelKind::Text, "dash"),
    ];
    let st = detect_channels(9, &channels);
    assert_eq!(
        st,
        LinkState { category: 9, dashboard: Some(1), queue: Some(2), ping: Some(3), queue_vc: Some(4), red: Some(5), blue: Some(6) }
    );
}

#[test]
fn the_voice_queue_is_the_first_voice_channel_so_named() {
    let channels = vec![
        ch(2, 9, ChannelKind::Text, "queue"),
        ch(4, 9, ChannelKind::Voice, "Waiting"),
        ch(5, 9, ChannelKind::Voice, "queue-vc"),
    ];
    let st = detect_channels(9, &channels);
    assert_eq!(st.queue, Some(2));
    assert_eq!(st.queue_vc, Some(4));
    assert_eq!(st.dashboard, None);
}

#[test]
fn hand_choices_of_a_slot() {
    let channels = vec![
        ch(1, 9, ChannelKind::Text, "a"),
        ch(2, 9, ChannelKind::Voice, "b"),
        ch(3, 8, ChannelKind::Voice, "c"),
        ch(4, 9, ChannelKind::Voice, "d"),
        GuildChannel { id: 5, parent_id: None, kind: ChannelKind::Voice, name: "e".to_string() },
    ];
    assert_eq!(slot_choices(9, &channels, true), vec![("b".to_string(), "2".to_string()), ("d".to_string(), "4".to_string())]);
    assert_eq!(slot_choices(9, &channels, false), vec![("a".to_string(), "1".to_string())]);
}

fn msg(id: u64, author: u64, timestamp: i64, title: Option<&str>, description: Option<&str>) -> FetchedMessage {
    FetchedMessage {
        id,
        author,
        timestamp,
        has_embed: title.is_some() || description.is_some(),
        title: title.map(|t| t.to_string()),
        description: description.map(|d| d.to_string()),
    }
}

fn target() -> LinkTarget {
    LinkTarget { dashboard: 10, queue: 11, queue_vc: 12, red: 13, blue: 26 }
}

#[test]
fn earlier_dashboards_are_found_newest_first() {
    let ms = vec![
        msg(1, 99, 5, Some("Queue"), None),
        msg(2, 98, 9, Some("Queue"), None),
        msg(3, 99, 9, None, Some("Join here")),
        msg(4, 99, 9, Some("x"), Some("y")),
        msg(5, 99, 9, Some("Queue"), None),
        msg(6, 99, 7, None, None),
    ];
    let found = dashboard_messages(&ms, 99);
    assert_eq!(found, vec![(1, 5), (3, 9), (5, 9)]);
    assert_eq!(newest_message(&found), Some(3));
    assert_eq!(newest_message(&vec![]), None);
}

#[test]
fn link_options_without_duplicate() {
    let m = link_options("G", 7, &target(), &None, &vec![(3, 9)]);
    assert_eq!(m.title, "G - Link Category Options");
    let d = m.description.clone().unwrap();
    assert!(d.starts_with("**Found 1 existing dashboard message(s)**\n\nFound bot messages in <#10>"));
    assert!(d.contains("Most recent: <https://discord.com/channels/7/10/3>"));
    match &m.rows[0] {
        SettingsRow::Buttons(bs) => {
            assert_eq!(bs[0].id, "link_use_existing_a_b_c_d_1a_3");
            assert_eq!(bs.len(), 4);
            assert_eq!(bs[3].id, "server_settings_link_cancel");
        }
        _ => panic!("expected buttons"),
    }
    let m = link_options("G", 7, &target(), &None, &vec![]);
    assert!(m.description.unwrap().starts_with("\u{2139}\u{fe0f} **No existing dashboard messages found**"));
    match &m.rows[0] {
        SettingsRow::Buttons(bs) => assert_eq!(bs[0].id, "link_create_new_a_b_c_d_1a"),
        _ => panic!("expected buttons"),
    }
}

#[test]
fn link_options_with_duplicate() {
    let dup = Some(("Main".to_string(), LinkedChannels { dashboard: 10, queue_chat: 1, queue_vc: 2, teams: vec![(3, 4)] }));
    let m = link_options("G", 7, &target(), &dup, &vec![]);
    let d = m.description.unwrap();
    assert!(d.starts_with("\u{26a0}\u{fe0f} **Duplicate Category Detected**\n\nCategory Main is already using"));
    assert!(d.contains("\u{2022} Red Team: <#3>\n\u{2022} Blue Team: <#4>\n\nNo existing dashboard messages found."));
    match &m.rows[0] {
        SettingsRow::Buttons(bs) => {
            assert_eq!(bs[0].id, "link_remove_dup_new_a_b_c_d_1a");
            assert_eq!(bs[1].id, "link_manual_msg_a_b_c_d_1a");
        }
        _ => panic!("expected buttons"),
    }
    let m = link_options("G", 7, &target(), &dup, &vec![(5, 1), (6, 2)]);
    match &m.rows[0] {
        SettingsRow::Buttons(bs) => assert_eq!(bs[0].id, "link_existing_remove_dup_a_b_c_d_1a_6"),
        _ => panic!("expected buttons"),
    }
}

#[test]
fn link_button_states_read_back() {
    assert_eq!(read_link_target("a_b_c_d_1a", 5, false), Ok((vec![10, 11, 12, 13, 26], None)));
    assert_eq!(read_link_target("a_b_c_d_1a_6", 5, true), Ok((vec![10, 11, 12, 13, 26], Some(6))));
    assert_eq!(read_link_target("a_b_c_zz_zz_6", 3, true), Ok((vec![10, 11, 12], Some(6))));
    assert_eq!(read_link_target("a_b_c_d_1a_6_7", 5, false), Ok((vec![10, 11, 12, 13, 26], None)));
    assert_eq!(read_link_target("a_b_c_d", 5, false), Err(StateError::InvalidState));
    assert_eq!(read_link_target("a_b_c_d_1a", 5, true), Err(StateError::InvalidState));
    assert_eq!(read_link_target("a_g_c_d_1a", 5, false), Err(StateError::BadId(IntErrorKind::InvalidDigit)));
    assert_eq!(read_link_target("a_b_c_d_1a_", 5, true), Err(StateError::BadId(IntErrorKind::Empty)));
}

#[test]
fn zero_channel_ids_are_refused() {
    assert_eq!(read_link_target("0_b_c_d_1a", 5, false), Err(StateError::BadId(IntErrorKind::Zero)));
    assert_eq!(read_link_target("a_b_c_d_1a_0", 5, true), Ok((vec![10, 11, 12, 13, 26], Some(0))));
    assert_eq!(decode_link_state("00_0_0_0_0_0_0_d"), Err(LinkError::BadId(IntErrorKind::Zero)));
}
