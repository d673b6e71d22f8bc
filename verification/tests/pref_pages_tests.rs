use qbot_core::pref_pages::{prefs_button, queue_timeout_field, vc_auto_join_component, PrefsButton, UserPreferences};
use qbot_core::prefs::TimeoutChoice;
use qbot_core::settings::{SettingsButtonStyle, SettingsRow};
use qbot_core::settings_pages::AsSettingsMenu;
use qbot_core::user_prefs::{get_user_prefs_menu_system, UserPrefsPage};

fn prefs(queue_expiration: u8) -> UserPreferences {
    UserPreferences {
        queue_expiration,
        pm_hot_alert: true,
        vc_auto_join: false,
        vc_auto_leave: true,
        vc_leave_queue: false,
        join_alert_color: 0x123456,
    }
}

fn ids(row: &SettingsRow) -> Vec<String> {
    match row {
        SettingsRow::Buttons(bs) => bs.iter().map(|b| b.id.clone()).collect(),
        _ => panic!("not a button row"),
    }
}

#[test]
fn timeout_field_in_hours_or_minutes() {
    assert_eq!(queue_timeout_field(&prefs(120)), Some("2h".to_string()));
    assert_eq!(queue_timeout_field(&prefs(90)), Some("90m".to_string()));
    assert_eq!(queue_timeout_field(&prefs(30)), Some("30m".to_string()));
}

#[test]
fn toggles_show_their_state() {
    match vc_auto_join_component(&prefs(60)).expect("a row") {
        SettingsRow::Buttons(bs) => {
            assert_eq!(bs[0].id, "settings_vc_auto_join");
            assert_eq!(bs[0].style, SettingsButtonStyle::Danger);
        }
        _ => panic!("not a button row"),
    }
}

#[test]
fn queue_settings_page_embed_and_rows() {
    let ms = get_user_prefs_menu_system();
    let p = prefs(60);
    let e = ms.build_embed(UserPrefsPage::QueueSettings, &p).expect("embed");
    assert_eq!(e.title, "Queue Settings");
    assert_eq!(e.fields[0].name, "Queue Timeout");
    assert_eq!(e.fields[0].value, "1h");
    assert_eq!(e.fields[1].name, "Help");
    assert!(e.fields[1].value.starts_with("**Queue Timeout**: Set how long"));
    assert_eq!(e.fields[1].value.lines().count(), 4);
    let rows = ms.build_components(UserPrefsPage::QueueSettings, &p).expect("rows");
    assert_eq!(rows.len(), 5);
    assert_eq!(ids(&rows[0]), vec!["settings_vc_auto_join"]);
    assert_eq!(ids(&rows[3]), vec!["settings_queue_expiration"]);
    assert_eq!(ids(&rows[4]), vec!["user_prefs_main_back"]);
    assert_eq!(qbot_core::user_prefs::get_user_prefs_navigation_info("user_prefs_main_back"), Some(UserPrefsPage::Main));
}

#[test]
fn main_page_has_no_back_button() {
    let ms = get_user_prefs_menu_system();
    let rows = ms.build_components(UserPrefsPage::Main, &prefs(60)).expect("rows");
    assert_eq!(rows.len(), 1);
    assert_eq!(
        ids(&rows[0]),
        vec!["user_prefs_queue_settings", "user_prefs_alert_settings", "user_prefs_ping_settings"]
    );
}

#[test]
fn timeout_page_offers_choices() {
    let ms = get_user_prefs_menu_system();
    let rows = ms.build_components(UserPrefsPage::QueueTimeoutSettings, &prefs(45)).expect("rows");
    assert_eq!(rows.len(), 3);
    assert_eq!(ids(&rows[1])[2], "settings_queue_expiration:cancel");
    let e = ms.build_embed(UserPrefsPage::QueueTimeoutSettings, &prefs(45)).expect("embed");
    assert_eq!(e.fields.len(), 1);
    assert_eq!(e.fields[0].value, "45m");
}

#[test]
fn compact_preferences_page() {
    let m = prefs(180).as_settings_menu();
    assert_eq!(m.title, "qBot preferences");
    assert_eq!(m.color, 0x123456);
    match &m.rows[0] {
        SettingsRow::Buttons(bs) => assert_eq!(bs[0].label, "Timeout: 3h"),
        _ => panic!("not a button row"),
    }
    assert_eq!(ids(&m.rows[2]), vec!["settings_vc_auto_join", "settings_vc_auto_leave"]);
    match &m.rows[1] {
        SettingsRow::Buttons(bs) => assert_eq!(bs[0].label, "DM alerts enabled"),
        _ => panic!("not a button row"),
    }
    match &m.rows[2] {
        SettingsRow::Buttons(bs) => {
            assert_eq!(bs[0].label, "VC auto-join disabled");
            assert_eq!(bs[1].label, "VC auto-leave enabled");
        },
        _ => panic!("not a button row"),
    }
    assert_eq!(m.rows.len(), 4);
}

#[test]
fn preference_buttons_are_read_in_handler_order() {
    assert_eq!(prefs_button("user_prefs_queue_settings"), PrefsButton::Navigate(UserPrefsPage::QueueSettings));
    assert_eq!(prefs_button("settings_queue_expiration"), PrefsButton::Navigate(UserPrefsPage::QueueTimeoutSettings));
    assert_eq!(prefs_button("user_prefs_ping_back"), PrefsButton::Navigate(UserPrefsPage::PingSettings));
    assert_eq!(prefs_button("settings_ping_back"), PrefsButton::BackToMain);
    assert_eq!(prefs_button("settings_queue_expiration:2h"), PrefsButton::Timeout(TimeoutChoice::Minutes(120)));
    assert_eq!(prefs_button("settings_queue_expiration:cancel"), PrefsButton::Timeout(TimeoutChoice::Cancel));
    assert_eq!(prefs_button("settings_vc_auto_join"), PrefsButton::ToggleVcAutoJoin);
    assert_eq!(prefs_button("settings_toggle_ping_notification_42"), PrefsButton::TogglePingIn(Some(42)));
    assert_eq!(prefs_button("settings_toggle_ping_notification_x"), PrefsButton::TogglePingIn(None));
    assert_eq!(prefs_button("nothing"), PrefsButton::Unknown);
}

#[test]
fn pressing_changes_preferences_and_shows_a_page() {
    let mut p = prefs(30);
    assert_eq!(p.press(PrefsButton::Timeout(TimeoutChoice::Minutes(240))), Some(UserPrefsPage::QueueSettings));
    assert_eq!(p.queue_expiration, 240);
    assert_eq!(p.press(PrefsButton::ToggleVcAutoJoin), Some(UserPrefsPage::QueueSettings));
    assert!(p.vc_auto_join);
    assert_eq!(p.press(PrefsButton::ToggleDm), Some(UserPrefsPage::AlertSettings));
    assert!(!p.pm_hot_alert);
    assert_eq!(p.press(PrefsButton::Timeout(TimeoutChoice::Cancel)), Some(UserPrefsPage::QueueSettings));
    assert_eq!(p.queue_expiration, 240);
    assert_eq!(p.press(PrefsButton::EditJoinAlert), None);
}

#[test]
fn page_toggles_keep_their_plain_label() {
    match qbot_core::pref_pages::dm_toggle_component(&prefs(45)) {
        Some(SettingsRow::Buttons(bs)) => {
            assert_eq!(bs[0].label, "DM Alerts");
            assert_eq!(bs[0].style, SettingsButtonStyle::Success);
        },
        _ => panic!("no button row"),
    }
}
