//! The forms that edit a player's announcements: a player's own join and
//! leave alert forms, and the alert form an admin fills in for a player.
//! Each submitted field is trimmed; an empty text field clears its
//! setting, and the colour is kept unless the field reads as a colour.

use vstd::prelude::*;
use vstd::string::*;
use crate::forms::{trim, trim_spec};
use crate::player_forms::{read_color, color_spec};
use crate::alert_embed::AlertSettings;

verus! {

/// Which alert form was submitted.
#[derive(Debug, Clone, Copy, PartialEq, Eq, Structural)]
pub enum AlertForm {
    /// A player's own join alert: colour, message, footer, image
    Join,
    /// A player's own leave alert: colour, description, footer, image
    Leave,
    /// An admin editing a player: colour, join message, join footer,
    /// leave message
    Admin,
}

/// The setting a field of a form writes.
#[derive(Debug, Clone, Copy, PartialEq, Eq, Structural)]
pub enum AlertSlot {
    Color,
    JoinDesc,
    JoinFooter,
    JoinImg,
    LeaveDesc,
    LeaveFooter,
    LeaveImg,
    Ignored,
}

/// The setting field `k` of form `f` writes. The colour field of every
/// form sets the join alert colour, which both announcements use.
pub open spec fn slot_of(f: AlertForm, k: int) -> AlertSlot {
    if k == 0 {
        AlertSlot::Color
    } else if k == 1 {
        match f {
            AlertForm::Join => AlertSlot::JoinDesc,
            AlertForm::Leave => AlertSlot::LeaveDesc,
            AlertForm::Admin => AlertSlot::JoinDesc,
        }
    } else if k == 2 {
        match f {
            AlertForm::Join => AlertSlot::JoinFooter,
            AlertForm::Leave => AlertSlot::LeaveFooter,
            AlertForm::Admin => AlertSlot::JoinFooter,
        }
    } else if k == 3 {
        match f {
            AlertForm::Join => AlertSlot::JoinImg,
            AlertForm::Leave => AlertSlot::LeaveImg,
            AlertForm::Admin => AlertSlot::LeaveDesc,
        }
    } else {
        AlertSlot::Ignored
    }
}

/// A player's announcement settings as data.
pub struct AlertView {
    pub color: u32,
    pub join_desc: Option<Seq<char>>,
    pub join_footer: Option<Seq<char>>,
    pub join_footer_img: Option<Seq<char>>,
    pub join_img: Option<Seq<char>>,
    pub leave_desc: Option<Seq<char>>,
    pub leave_footer: Option<Seq<char>>,
    pub leave_footer_img: Option<Seq<char>>,
    pub leave_img: Option<Seq<char>>,
}

/// An optional string as characters.
pub open spec fn ochars(o: Option<String>) -> Option<Seq<char>> {
    match o {
        Some(s) => Some(s@),
        None => None,
    }
}

/// Announcement settings as data.
pub open spec fn alert_view(a: AlertSettings) -> AlertView {
    AlertView {
        color: a.join_alert_color,
        join_desc: ochars(a.join_alert_desc),
        join_footer: ochars(a.join_alert_footer),
        join_footer_img: ochars(a.join_alert_footer_img),
        join_img: ochars(a.join_alert_img),
        leave_desc: ochars(a.leave_alert_desc),
        leave_footer: ochars(a.leave_alert_footer),
        leave_footer_img: ochars(a.leave_alert_footer_img),
        leave_img: ochars(a.leave_alert_img),
    }
}

/// A text field as stored: trimmed, and absent when empty.
pub open spec fn stored_text(v: Seq<char>) -> Option<Seq<char>> {
    if trim_spec(v).len() == 0 { None } else { Some(trim_spec(v)) }
}

/// The settings after field `k` of form `f` was submitted with `v`.
pub open spec fn apply_field(a: AlertView, f: AlertForm, k: int, v: Seq<char>) -> AlertView {
    match slot_of(f, k) {
        AlertSlot::Color => match color_spec(v) {
            Some(c) => AlertView { color: c, ..a },
            None => a,
        },
        AlertSlot::JoinDesc => AlertView { join_desc: stored_text(v), ..a },
        AlertSlot::JoinFooter => AlertView { join_footer: stored_text(v), ..a },
        AlertSlot::JoinImg => AlertView { join_img: stored_text(v), ..a },
        AlertSlot::LeaveDesc => AlertView { leave_desc: stored_text(v), ..a },
        AlertSlot::LeaveFooter => AlertView { leave_footer: stored_text(v), ..a },
        AlertSlot::LeaveImg => AlertView { leave_img: stored_text(v), ..a },
        AlertSlot::Ignored => a,
    }
}

/// The settings after the fields `fs` of form `f` were submitted in order
/// (a field without a value changes nothing).
pub open spec fn apply_fields(a: AlertView, f: AlertForm, fs: Seq<Option<Seq<char>>>) -> AlertView
    decreases fs.len(),
{
    if fs.len() == 0 {
        a
    } else {
        let before = apply_fields(a, f, fs.drop_last());
        match fs.last() {
            Some(v) => apply_field(before, f, fs.len() - 1, v),
            None => before,
        }
    }
}

/// The name of text field `k` of a player's own form, as its error names
/// it.
pub open spec fn field_name(f: AlertForm, k: int) -> Seq<char> {
    if k == 2 {
        "Footer text"@
    } else {
        match f {
            AlertForm::Leave => "Description"@,
            _ => "Message"@,
        }
    }
}

/// Whether text field `k` (the message or the footer of a player's own
/// form) is refused: it holds text that the character rule rejects
/// (`ok[k]` is the rule's verdict on the field).
pub open spec fn refused(f: AlertForm, fs: Seq<Option<Seq<char>>>, ok: Seq<bool>, k: int) -> bool {
    &&& f != AlertForm::Admin
    &&& (k == 1 || k == 2)
    &&& k < fs.len()
    &&& fs[k] is Some
    &&& trim_spec(fs[k]->0).len() > 0
    &&& !ok[k]
}

/// The error a refused field gives.
pub open spec fn refusal_text(name: Seq<char>) -> Seq<char> {
    "**Error:** "@ + name + " contains invalid characters. Only ASCII printable and extended characters are allowed."@
}

/// What submitting form `f` gives: the error of the first refused field
/// (nothing is saved then), or the settings with every field applied.
pub open spec fn form_outcome(a: AlertView, f: AlertForm, fs: Seq<Option<Seq<char>>>, ok: Seq<bool>) -> Result<AlertView, Seq<char>> {
    if refused(f, fs, ok, 1) {
        Err(refusal_text(field_name(f, 1)))
    } else if refused(f, fs, ok, 2) {
        Err(refusal_text(field_name(f, 2)))
    } else {
        Ok(apply_fields(a, f, fs))
    }
}

/// The submitted values as data.
pub open spec fn fields_view(fs: Seq<Option<String>>) -> Seq<Option<Seq<char>>> {
    fs.map_values(|o: Option<String>| ochars(o))
}

fn stored(v: &str) -> (r: Option<String>)
    ensures
        ochars(r) == stored_text(v@),
{
    let t = trim(v);
    if t.unicode_len() == 0 {
        None
    } else {
        Some(t)
    }
}

fn field_refused(form: AlertForm, fields: &Vec<Option<String>>, text_ok: &Vec<bool>, k: usize) -> (r: bool)
    requires
        text_ok@.len() == fields@.len(),
        k == 1 || k == 2,
    ensures
        r == refused(form, fields_view(fields@), text_ok@, k as int),
{
    if k >= fields.len() {
        return false;
    }
    match form {
        AlertForm::Admin => false,
        _ => match &fields[k] {
            Some(v) => trim(v.as_str()).unicode_len() > 0 && !text_ok[k],
            None => false,
        },
    }
}

fn refusal(form: AlertForm, k: usize) -> (r: String)
    requires
        k == 1 || k == 2,
    ensures
        r@ == refusal_text(field_name(form, k as int)),
{
    let mut s = String::from_str("**Error:** ");
    if k == 2 {
        s.append("Footer text");
    } else {
        match form {
            AlertForm::Leave => s.append("Description"),
            _ => s.append("Message"),
        }
    }
    s.append(" contains invalid characters. Only ASCII printable and extended characters are allowed.");
    s
}

/// Applies a submitted alert form to `settings`. `fields` holds the value
/// of each field in order (none where the field came without one);
/// `text_ok` holds, for each field, the verdict of the rule on the
/// characters a player's text may hold. On a refused field the settings
/// are left as they were and the error to show is returned.
pub fn apply_alert_form(
    settings: &mut AlertSettings,
    form: AlertForm,
    fields: &Vec<Option<String>>,
    text_ok: &Vec<bool>,
) -> (r: Result<(), String>)
    requires
        text_ok@.len() == fields@.len(),
    ensures
        match form_outcome(alert_view(*old(settings)), form, fields_view(fields@), text_ok@) {
            Ok(a) => r is Ok && alert_view(*final(settings)) == a,
            Err(e) => r is Err && r->Err_0@ == e && alert_view(*final(settings)) == alert_view(*old(settings)),
        },
{
    if field_refused(form, fields, text_ok, 1) {
        return Err(refusal(form, 1));
    }
    if field_refused(form, fields, text_ok, 2) {
        return Err(refusal(form, 2));
    }
    let ghost start = alert_view(*settings);
    let ghost fv = fields_view(fields@);
    let n = fields.len();
    let mut k: usize = 0;
    while k < n
        invariant
            n == fields@.len(),
            fv == fields_view(fields@),
            k <= n,
            alert_view(*settings) == apply_fields(start, form, fv.take(k as int)),
        decreases n - k,
    {
        assert(fv.take(k as int + 1).drop_last() =~= fv.take(k as int));
        assert(fv.take(k as int + 1).last() == ochars(fields@[k as int]));
        match &fields[k] {
            Some(v) => {
                let slot = if k == 0 {
                    AlertSlot::Color
                } else if k == 1 {
                    match form {
                        AlertForm::Leave => AlertSlot::LeaveDesc,
                        _ => AlertSlot::JoinDesc,
                    }
                } else if k == 2 {
                    match form {
                        AlertForm::Leave => AlertSlot::LeaveFooter,
                        _ => AlertSlot::JoinFooter,
                    }
                } else if k == 3 {
                    match form {
                        AlertForm::Join => AlertSlot::JoinImg,
                        AlertForm::Leave => AlertSlot::LeaveImg,
                        AlertForm::Admin => AlertSlot::LeaveDesc,
                    }
                } else {
                    AlertSlot::Ignored
                };
                assert(slot == slot_of(form, k as int));
                match slot {
                    AlertSlot::Color => {
                        match read_color(v.as_str()) {
                            Some(c) => settings.join_alert_color = c,
                            None => {},
                        }
                    },
                    AlertSlot::JoinDesc => settings.join_alert_desc = stored(v.as_str()),
                    AlertSlot::JoinFooter => settings.join_alert_footer = stored(v.as_str()),
                    AlertSlot::JoinImg => settings.join_alert_img = stored(v.as_str()),
                    AlertSlot::LeaveDesc => settings.leave_alert_desc = stored(v.as_str()),
                    AlertSlot::LeaveFooter => settings.leave_alert_footer = stored(v.as_str()),
                    AlertSlot::LeaveImg => settings.leave_alert_img = stored(v.as_str()),
                    AlertSlot::Ignored => {},
                }
            },
            None => {},
        }
        k = k + 1;
    }
    assert(fv.take(n as int) =~= fv);
    Ok(())
}

} // verus!
