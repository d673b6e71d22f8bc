use qbot_core::alert_embed::{join_alert_embed, leave_alert_embed, replace_all, AlertSettings};
use qbot_core::alert_forms::{apply_alert_form, AlertForm};

fn settings() -> AlertSettings {
    AlertSettings {
        join_alert_color: 0x3498DB,
        join_alert_desc: Some("{name} ({rank}) is here, {user}!".to_string()),
        join_alert_footer: Some("gl hf".to_string()),
        join_alert_footer_img: Some("icon.png".to_string()),
        join_alert_img: Some("thumb.png".to_string()),
        leave_alert_desc: Some("   ".to_string()),
        leave_alert_footer: None,
        leave_alert_footer_img: Some("unused.png".to_string()),
        leave_alert_img: None,
    }
}

#[test]
fn replacement_matches_str_replace() {
    for (s, p, w) in [
        ("a{x}b{x}", "{x}", "Y"),
        ("{x}{x}", "{x}", ""),
        ("aaa", "aa", "b"),
        ("no match", "{x}", "Y"),
        ("", "{x}", "Y"),
        ("{{x}}", "{x}", "[{x}]"),
    ] {
        assert_eq!(replace_all(s, p, w), s.replace(p, w));
    }
}

#[test]
fn join_announcement() {
    let e = join_alert_embed(&settings(), 42, "Ann", true, "Gold", Some("6v6"));
    assert_eq!(e.title, "Ann joined the 6v6 queue");
    assert_eq!(e.color, 0x3498DB);
    assert_eq!(e.description.as_deref(), Some("Ann (Gold) is here, <@42>!"));
    assert_eq!(e.footer.as_deref(), Some("gl hf"));
    assert_eq!(e.footer_icon.as_deref(), Some("icon.png"));
    assert_eq!(e.thumbnail.as_deref(), Some("thumb.png"));
    let preview = join_alert_embed(&settings(), 42, "Ann", false, "Gold", None);
    assert_eq!(preview.title, "Ann joined the queue");
}

#[test]
fn leave_announcement() {
    let e = leave_alert_embed(&settings(), 42, "Ann", true, None);
    assert_eq!(e.title, "Ann left the queue");
    assert_eq!(e.color, 0x3498DB);
    assert_eq!(e.description, None);
    assert_eq!(e.footer, None);
    assert_eq!(e.footer_icon, None);
    assert_eq!(e.thumbnail, None);
    let mut s = settings();
    s.leave_alert_desc = Some("bye {user} aka {name} {rank}".to_string());
    assert_eq!(leave_alert_embed(&s, 7, "Bo", true, Some("4v4")).description.as_deref(), Some("bye <@7> aka Bo {rank}"));
}

fn some(s: &str) -> Option<String> {
    Some(s.to_string())
}

#[test]
fn join_alert_form_is_applied() {
    let mut a = settings();
    let fields = vec![some(" #ff5733 "), some("  hello  "), some(""), None];
    assert_eq!(apply_alert_form(&mut a, AlertForm::Join, &fields, &vec![true; 4]), Ok(()));
    assert_eq!(a.join_alert_color, 0xFF5733);
    assert_eq!(a.join_alert_desc, some("hello"));
    assert_eq!(a.join_alert_footer, None);
    assert_eq!(a.join_alert_img, some("thumb.png"));
}

#[test]
fn bad_colour_keeps_the_old_one() {
    let mut a = settings();
    let fields = vec![some("1000000"), None, None, None];
    assert_eq!(apply_alert_form(&mut a, AlertForm::Admin, &fields, &vec![true; 4]), Ok(()));
    assert_eq!(a.join_alert_color, 0x3498DB);
    let fields = vec![some("zz")];
    assert_eq!(apply_alert_form(&mut a, AlertForm::Join, &fields, &vec![true]), Ok(()));
    assert_eq!(a.join_alert_color, 0x3498DB);
}

#[test]
fn leave_form_writes_leave_settings_and_the_shared_colour() {
    let mut a = settings();
    let fields = vec![some("00ff00"), some("bye"), some("cya"), some("img.png")];
    assert_eq!(apply_alert_form(&mut a, AlertForm::Leave, &fields, &vec![true; 4]), Ok(()));
    assert_eq!(a.join_alert_color, 0x00FF00);
    assert_eq!(a.leave_alert_desc, some("bye"));
    assert_eq!(a.leave_alert_footer, some("cya"));
    assert_eq!(a.leave_alert_img, some("img.png"));
    assert_eq!(a.join_alert_desc, settings().join_alert_desc);
}

#[test]
fn admin_form_fourth_field_is_the_leave_message() {
    let mut a = settings();
    let fields = vec![None, some("j"), some("f"), some("l")];
    assert_eq!(apply_alert_form(&mut a, AlertForm::Admin, &fields, &vec![false; 4]), Ok(()));
    assert_eq!(a.join_alert_desc, some("j"));
    assert_eq!(a.join_alert_footer, some("f"));
    assert_eq!(a.leave_alert_desc, some("l"));
}

#[test]
fn refused_text_saves_nothing() {
    let mut a = settings();
    let fields = vec![some("000000"), some("ok"), some("bad")];
    let r = apply_alert_form(&mut a, AlertForm::Join, &fields, &vec![true, true, false]);
    assert_eq!(
        r,
        Err("**Error:** Footer text contains invalid characters. Only ASCII printable and extended characters are allowed.".to_string())
    );
    assert_eq!(a.join_alert_color, 0x3498DB);
    let r = apply_alert_form(&mut a, AlertForm::Leave, &fields, &vec![true, false, false]);
    assert!(r.unwrap_err().starts_with("**Error:** Description contains"));
    let blank = vec![None, some("   "), None];
    assert_eq!(apply_alert_form(&mut a, AlertForm::Join, &blank, &vec![false; 3]), Ok(()));
    assert_eq!(a.join_alert_desc, None);
}
