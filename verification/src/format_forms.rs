//! The forms of a category's formats (adding one, editing one) and of the
//! dashboard message to link: what they read as, and what an edit changes.

use vstd::prelude::*;
use vstd::string::*;
use crate::text::has_prefix;
use crate::parse::{parse_u8_spec, parse_u8, parse_u64_spec, parse_u64, split_spec, split_on};
use crate::forms::{trim_spec, trim};
use crate::menu_system::{contains_sub, contains_str};
use crate::category_buttons::{after, last_field, last_field_of};
use crate::category::{Category, format_index};

verus! {

/// Why a format form is refused.
#[derive(Debug, Clone, Copy, PartialEq, Eq, Structural)]
pub enum FormatFormError {
    /// "Format name cannot be empty."
    EmptyName,
    /// "Invalid quota. Must be a number >= 2."
    InvalidQuota,
}

/// What a format form reads as: the trimmed name, which must not be empty,
/// and the trimmed quota read as a `u8` of at least 2.
pub open spec fn format_form_spec(name: Seq<char>, quota: Seq<char>) -> Result<(Seq<char>, u8), FormatFormError> {
    if trim_spec(name).len() == 0 {
        Err(FormatFormError::EmptyName)
    } else {
        match parse_u8_spec(trim_spec(quota)) {
            Some(q) => if q >= 2 { Ok((trim_spec(name), q)) } else { Err(FormatFormError::InvalidQuota) },
            None => Err(FormatFormError::InvalidQuota),
        }
    }
}

/// Reads a submitted format form.
pub fn read_format_form(name: &str, quota: &str) -> (r: Result<(String, u8), FormatFormError>)
    ensures
        match r {
            Ok((n, q)) => format_form_spec(name@, quota@) == Ok::<(Seq<char>, u8), FormatFormError>((n@, q)),
            Err(e) => format_form_spec(name@, quota@) == Err::<(Seq<char>, u8), FormatFormError>(e),
        },
{
    let n = trim(name);
    if n.unicode_len() == 0 {
        return Err(FormatFormError::EmptyName);
    }
    let q = trim(quota);
    match parse_u8(q.as_str()) {
        Some(v) => if v >= 2 { Ok((n, v)) } else { Err(FormatFormError::InvalidQuota) },
        None => Err(FormatFormError::InvalidQuota),
    }
}

/// What a format modal's id asks for.
#[derive(Debug, Clone, Copy, PartialEq, Eq, Structural)]
pub enum FormatModal {
    /// Edit format (category, format)
    Edit(u8, u8),
    /// Add a format to the category
    Add(u8),
    /// "Invalid edit modal ID format": not two `_`-separated fields
    EditBadShape,
    /// "Invalid category_id"
    EditBadCategory,
    /// "Invalid format_id"
    EditBadFormat,
    /// "Invalid add modal ID format"
    AddBadId,
    /// Not a format modal
    Other,
}

/// What a format modal's id asks for:
/// `category_fmt_modal_edit_{category}_{format}` or
/// `category_fmt_modal_add_{category}`.
pub open spec fn format_modal_spec(id: Seq<char>) -> FormatModal {
    if has_prefix(id, "category_fmt_modal_edit_"@) {
        let parts = split_spec(after(id, "category_fmt_modal_edit_"@), '_');
        if parts.len() != 2 {
            FormatModal::EditBadShape
        } else {
            match parse_u8_spec(parts[0]) {
                None => FormatModal::EditBadCategory,
                Some(c) => match parse_u8_spec(parts[1]) {
                    None => FormatModal::EditBadFormat,
                    Some(f) => FormatModal::Edit(c, f),
                },
            }
        }
    } else if has_prefix(id, "category_fmt_modal_add_"@) {
        match parse_u8_spec(after(id, "category_fmt_modal_add_"@)) {
            Some(c) => FormatModal::Add(c),
            None => FormatModal::AddBadId,
        }
    } else {
        FormatModal::Other
    }
}

fn rest_after(s: &str, prefix: &str) -> (r: String)
    requires
        has_prefix(s@, prefix@),
    ensures
        r@ == after(s@, prefix@),
{
    let n = s.unicode_len();
    let m = prefix.unicode_len();
    String::from_str(s.substring_char(m, n))
}

/// Reads what a format modal's id asks for.
pub fn classify_format_modal(id: &str) -> (r: FormatModal)
    ensures
        r == format_modal_spec(id@),
{
    if crate::text::starts_with(id, "category_fmt_modal_edit_") {
        let rest = rest_after(id, "category_fmt_modal_edit_");
        let parts = split_on(rest.as_str(), '_');
        proof {
            assert(parts@.map_values(|x: String| x@).len() == parts@.len());
        }
        if parts.len() != 2 {
            return FormatModal::EditBadShape;
        }
        proof {
            assert(parts@.map_values(|x: String| x@)[0] == parts@[0]@);
            assert(parts@.map_values(|x: String| x@)[1] == parts@[1]@);
        }
        match parse_u8(parts[0].as_str()) {
            None => FormatModal::EditBadCategory,
            Some(c) => match parse_u8(parts[1].as_str()) {
                None => FormatModal::EditBadFormat,
                Some(f) => FormatModal::Edit(c, f),
            },
        }
    } else if crate::text::starts_with(id, "category_fmt_modal_add_") {
        let rest = rest_after(id, "category_fmt_modal_add_");
        match parse_u8(rest.as_str()) {
            Some(c) => FormatModal::Add(c),
            None => FormatModal::AddBadId,
        }
    } else {
        FormatModal::Other
    }
}

/// The category a modal id names after `prefix`, if it reads as a `u8`.
pub open spec fn id_after_spec(id: Seq<char>, prefix: Seq<char>) -> Option<u8> {
    if has_prefix(id, prefix) { parse_u8_spec(after(id, prefix)) } else { None }
}

/// The category a modal id names after `prefix`.
pub fn id_after(id: &str, prefix: &str) -> (r: Option<u8>)
    ensures
        r == id_after_spec(id@, prefix@),
{
    if crate::text::starts_with(id, prefix) {
        let rest = rest_after(id, prefix);
        parse_u8(rest.as_str())
    } else {
        None
    }
}

/// Why a message id input is refused.
#[derive(Debug, Clone, Copy, PartialEq, Eq, Structural)]
pub enum MessageInputError {
    /// "Invalid Discord message link format"
    BadLink,
    /// "Invalid message ID: must be a number or Discord message link"
    BadId,
}

/// The message id an input names: a Discord message link (its last
/// `/`-separated field), or the trimmed input read as a number.
pub open spec fn message_input_spec(s: Seq<char>) -> Result<u64, MessageInputError> {
    if contains_sub(s, "discord.com/channels/"@) {
        match parse_u64_spec(last_field(s, '/')) {
            Some(v) => Ok(v),
            None => Err(MessageInputError::BadLink),
        }
    } else {
        match parse_u64_spec(trim_spec(s)) {
            Some(v) => Ok(v),
            None => Err(MessageInputError::BadId),
        }
    }
}

/// Reads the message id input of the dashboard linking form.
pub fn parse_message_input(s: &str) -> (r: Result<u64, MessageInputError>)
    ensures
        r == message_input_spec(s@),
{
    if contains_str(s, "discord.com/channels/") {
        let f = last_field_of(s, '/');
        match parse_u64(f.as_str()) {
            Some(v) => Ok(v),
            None => Err(MessageInputError::BadLink),
        }
    } else {
        let t = trim(s);
        match parse_u64(t.as_str()) {
            Some(v) => Ok(v),
            None => Err(MessageInputError::BadId),
        }
    }
}

impl Category {
    /// Gives format `fmt_id` its new name and quota; `false` ("Format
    /// {id} not found.") when the category has no such format.
    pub fn edit_format(&mut self, fmt_id: u8, name: String, quota: u8) -> (r: bool)
        ensures
            ({
                let i = format_index(old(self).formats@, fmt_id, 0);
                &&& r == (i < old(self).formats@.len())
                &&& final(self).formats@.len() == old(self).formats@.len()
                &&& forall|k: int| 0 <= k < old(self).formats@.len() && k != i ==> #[trigger] final(self).formats@[k] == old(self).formats@[k]
                &&& r ==> {
                    let (o, n) = (old(self).formats@[i], final(self).formats@[i]);
                    &&& n.name == name
                    &&& n.quota == quota
                    &&& n.id == o.id
                    &&& n.sessions == o.sessions
                    &&& n.connect_info == o.connect_info
                }
            }),
            final(self).id == old(self).id,
            final(self).name == old(self).name,
            final(self).restarting == old(self).restarting,
            final(self).require_score_report == old(self).require_score_report,
            final(self).confirm_time == old(self).confirm_time,
            final(self).last_action == old(self).last_action,
            final(self).last_ping_ms == old(self).last_ping_ms,
    {
        match self.find_format(fmt_id) {
            Some(i) => {
                let f = &mut self.formats[i];
                f.name = name;
                f.quota = quota;
                true
            },
            None => false,
        }
    }
}

} // verus!
