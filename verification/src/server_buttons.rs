//! Which part of the server settings a button or select of the settings
//! pages belongs to, read from its id in the order the handler tries them.

use vstd::prelude::*;
use vstd::string::*;
use crate::text::{has_prefix, str_eq, starts_with};
use crate::settings_pages::{server_config_toggles, server_toggles, toggle_view, ConfigToggle};

verus! {

/// The part of the server settings a component id names.
#[derive(Debug, Clone, Copy, PartialEq, Eq, Structural)]
pub enum ServerButton {
    /// One of the server configuration toggles, by its place in the list
    ConfigToggle(usize),
    Roles,
    RolesBack,
    RunnerRole,
    AdminRole,
    Ranks,
    RanksBack,
    RankSelect,
    RankLinkRole,
    RankBack,
    RankEdit,
    RankAdd,
    RankLink,
    RankDelete,
    RankRole,
    DefaultRankSelect,
    Categories,
    CategoriesBack,
    EditPostGameConfirmTime,
    CreateRoles,
    CreateCategory,
    LinkCategory,
    LinkCategorySelect,
    LinkCancel,
    LinkUseExisting,
    LinkCreateNew,
    LinkChannel,
    LinkExistingRemoveDup,
    LinkRemoveDupNew,
    LinkManualMsg,
    RemoveCategory,
    RemoveCategorySelect,
    RemoveConfirmDelete,
    RemoveConfirmKeep,
    RemoveCancel,
    CategorySelect,
    CategoryBack,
    CategoryLinkMessage,
    CategoryLinkMsgConfirm,
    CategorySettingsBack,
    CategorySelectFor,
    Unknown,
}

/// Index of the first toggle of `ts[i..]` whose button id is `id` (or the
/// length).
pub open spec fn toggle_index(ts: Seq<(Seq<char>, Seq<char>, Seq<char>, Seq<char>, bool)>, id: Seq<char>, i: int) -> int
    decreases ts.len() - i,
{
    if 0 <= i < ts.len() && ts[i].1 != id {
        toggle_index(ts, id, i + 1)
    } else {
        i
    }
}

/// What a component id names, and the part of the id after a matched
/// prefix (empty for an exact match).
pub open spec fn server_button_spec(id: Seq<char>) -> (ServerButton, Seq<char>) {
    let t = toggle_index(server_toggles(), id, 0);
    if t < server_toggles().len() {
        (ServerButton::ConfigToggle(t as usize), Seq::empty())
    } else if id == "server_settings_roles"@ {
        (ServerButton::Roles, Seq::empty())
    } else if id == "server_settings_roles_back"@ {
        (ServerButton::RolesBack, Seq::empty())
    } else if id == "server_settings_runner_role"@ {
        (ServerButton::RunnerRole, Seq::empty())
    } else if id == "server_settings_admin_role"@ {
        (ServerButton::AdminRole, Seq::empty())
    } else if id == "server_settings_ranks"@ {
        (ServerButton::Ranks, Seq::empty())
    } else if id == "server_settings_ranks_back"@ {
        (ServerButton::RanksBack, Seq::empty())
    } else if id == "server_settings_rank_select"@ {
        (ServerButton::RankSelect, Seq::empty())
    } else if id == "server_settings_rank_link_role"@ {
        (ServerButton::RankLinkRole, Seq::empty())
    } else if id == "server_settings_rank_back"@ {
        (ServerButton::RankBack, Seq::empty())
    } else if has_prefix(id, "server_settings_rank_edit_"@) {
        (ServerButton::RankEdit, id.subrange("server_settings_rank_edit_"@.len() as int, id.len() as int))
    } else if id == "server_settings_rank_add"@ {
        (ServerButton::RankAdd, Seq::empty())
    } else if id == "server_settings_rank_link"@ {
        (ServerButton::RankLink, Seq::empty())
    } else if has_prefix(id, "server_settings_rank_delete_"@) {
        (ServerButton::RankDelete, id.subrange("server_settings_rank_delete_"@.len() as int, id.len() as int))
    } else if has_prefix(id, "server_settings_rank_role_"@) {
        (ServerButton::RankRole, id.subrange("server_settings_rank_role_"@.len() as int, id.len() as int))
    } else if id == "server_settings_default_rank_select"@ {
        (ServerButton::DefaultRankSelect, Seq::empty())
    } else if id == "server_settings_categories"@ {
        (ServerButton::Categories, Seq::empty())
    } else if id == "server_settings_categories_back"@ {
        (ServerButton::CategoriesBack, Seq::empty())
    } else if id == "server_settings_edit_post_game_confirm_time"@ {
        (ServerButton::EditPostGameConfirmTime, Seq::empty())
    } else if id == "server_settings_create_roles"@ {
        (ServerButton::CreateRoles, Seq::empty())
    } else if id == "server_settings_create_category"@ {
        (ServerButton::CreateCategory, Seq::empty())
    } else if id == "server_settings_link_category"@ {
        (ServerButton::LinkCategory, Seq::empty())
    } else if id == "server_settings_link_category_select"@ {
        (ServerButton::LinkCategorySelect, Seq::empty())
    } else if id == "server_settings_link_cancel"@ {
        (ServerButton::LinkCancel, Seq::empty())
    } else if has_prefix(id, "link_use_existing_"@) {
        (ServerButton::LinkUseExisting, id.subrange("link_use_existing_"@.len() as int, id.len() as int))
    } else if has_prefix(id, "link_create_new_"@) {
        (ServerButton::LinkCreateNew, id.subrange("link_create_new_"@.len() as int, id.len() as int))
    } else if has_prefix(id, "link_ch_"@) {
        (ServerButton::LinkChannel, id.subrange("link_ch_"@.len() as int, id.len() as int))
    } else if has_prefix(id, "link_existing_remove_dup_"@) {
        (ServerButton::LinkExistingRemoveDup, id.subrange("link_existing_remove_dup_"@.len() as int, id.len() as int))
    } else if has_prefix(id, "link_remove_dup_new_"@) {
        (ServerButton::LinkRemoveDupNew, id.subrange("link_remove_dup_new_"@.len() as int, id.len() as int))
    } else if has_prefix(id, "link_manual_msg_"@) {
        (ServerButton::LinkManualMsg, id.subrange("link_manual_msg_"@.len() as int, id.len() as int))
    } else if id == "server_settings_remove_category"@ {
        (ServerButton::RemoveCategory, Seq::empty())
    } else if id == "server_settings_remove_category_select"@ {
        (ServerButton::RemoveCategorySelect, Seq::empty())
    } else if has_prefix(id, "server_settings_remove_confirm_delete_"@) {
        (ServerButton::RemoveConfirmDelete, id.subrange("server_settings_remove_confirm_delete_"@.len() as int, id.len() as int))
    } else if has_prefix(id, "server_settings_remove_confirm_keep_"@) {
        (ServerButton::RemoveConfirmKeep, id.subrange("server_settings_remove_confirm_keep_"@.len() as int, id.len() as int))
    } else if id == "server_settings_remove_cancel"@ {
        (ServerButton::RemoveCancel, Seq::empty())
    } else if id == "server_settings_category_select"@ {
        (ServerButton::CategorySelect, Seq::empty())
    } else if id == "server_settings_category_back"@ {
        (ServerButton::CategoryBack, Seq::empty())
    } else if has_prefix(id, "category_settings_link_message_"@) {
        (ServerButton::CategoryLinkMessage, id.subrange("category_settings_link_message_"@.len() as int, id.len() as int))
    } else if has_prefix(id, "category_link_msg_confirm_"@) {
        (ServerButton::CategoryLinkMsgConfirm, id.subrange("category_link_msg_confirm_"@.len() as int, id.len() as int))
    } else if has_prefix(id, "category_settings_back_"@) {
        (ServerButton::CategorySettingsBack, id.subrange("category_settings_back_"@.len() as int, id.len() as int))
    } else if has_prefix(id, "server_settings_category_select_"@) {
        (ServerButton::CategorySelectFor, id.subrange("server_settings_category_select_"@.len() as int, id.len() as int))
    } else {
        (ServerButton::Unknown, Seq::empty())
    }
}

fn strip(s: &str, prefix: &str) -> (r: String)
    requires
        has_prefix(s@, prefix@),
    ensures
        r@ == s@.subrange(prefix@.len() as int, s@.len() as int),
{
    let n = s.unicode_len();
    let m = prefix.unicode_len();
    String::from_str(s.substring_char(m, n))
}

fn find_toggle(id: &str) -> (r: Option<usize>)
    ensures
        match r {
            Some(i) => i as int == toggle_index(server_toggles(), id@, 0) && i < server_toggles().len(),
            None => toggle_index(server_toggles(), id@, 0) >= server_toggles().len(),
        },
{
    let ts = server_config_toggles();
    let ghost tv = ts@.map_values(|t: ConfigToggle| toggle_view(t));
    assert(tv.len() == ts@.len());
    let n = ts.len();
    let mut i: usize = 0;
    while i < n
        invariant
            tv == server_toggles(),
            tv == ts@.map_values(|t: ConfigToggle| toggle_view(t)),
            n == ts@.len(),
            n == tv.len(),
            i <= n,
            toggle_index(tv, id@, 0) == toggle_index(tv, id@, i as int),
        decreases n - i,
    {
        assert(tv[i as int] == toggle_view(ts@[i as int]));
        if str_eq(ts[i].button_id, id) {
            return Some(i);
        }
        i = i + 1;
    }
    None
}

/// Reads what a server settings component id names, trying the toggles,
/// then each id and prefix in the order the handler does.
pub fn classify_server_button(id: &str) -> (r: (ServerButton, String))
    ensures
        r.0 == server_button_spec(id@).0,
        r.1@ == server_button_spec(id@).1,
{
    let empty = String::new();
    assert(empty@ =~= Seq::<char>::empty());
    match find_toggle(id) {
        Some(t) => {
            return (ServerButton::ConfigToggle(t), empty);
        },
        None => {},
    }
    if str_eq(id, "server_settings_roles") {
        (ServerButton::Roles, String::new())
    } else if str_eq(id, "server_settings_roles_back") {
        (ServerButton::RolesBack, String::new())
    } else if str_eq(id, "server_settings_runner_role") {
        (ServerButton::RunnerRole, String::new())
    } else if str_eq(id, "server_settings_admin_role") {
        (ServerButton::AdminRole, String::new())
    } else if str_eq(id, "server_settings_ranks") {
        (ServerButton::Ranks, String::new())
    } else if str_eq(id, "server_settings_ranks_back") {
        (ServerButton::RanksBack, String::new())
    } else if str_eq(id, "server_settings_rank_select") {
        (ServerButton::RankSelect, String::new())
    } else if str_eq(id, "server_settings_rank_link_role") {
        (ServerButton::RankLinkRole, String::new())
    } else if str_eq(id, "server_settings_rank_back") {
        (ServerButton::RankBack, String::new())
    } else if starts_with(id, "server_settings_rank_edit_") {
        (ServerButton::RankEdit, strip(id, "server_settings_rank_edit_"))
    } else if str_eq(id, "server_settings_rank_add") {
        (ServerButton::RankAdd, String::new())
    } else if str_eq(id, "server_settings_rank_link") {
        (ServerButton::RankLink, String::new())
    } else if starts_with(id, "server_settings_rank_delete_") {
        (ServerButton::RankDelete, strip(id, "server_settings_rank_delete_"))
    } else if starts_with(id, "server_settings_rank_role_") {
        (ServerButton::RankRole, strip(id, "server_settings_rank_role_"))
    } else if str_eq(id, "server_settings_default_rank_select") {
        (ServerButton::DefaultRankSelect, String::new())
    } else if str_eq(id, "server_settings_categories") {
        (ServerButton::Categories, String::new())
    } else if str_eq(id, "server_settings_categories_back") {
        (ServerButton::CategoriesBack, String::new())
    } else if str_eq(id, "server_settings_edit_post_game_confirm_time") {
        (ServerButton::EditPostGameConfirmTime, String::new())
    } else if str_eq(id, "server_settings_create_roles") {
        (ServerButton::CreateRoles, String::new())
    } else if str_eq(id, "server_settings_create_category") {
        (ServerButton::CreateCategory, String::new())
    } else if str_eq(id, "server_settings_link_category") {
        (ServerButton::LinkCategory, String::new())
    } else if str_eq(id, "server_settings_link_category_select") {
        (ServerButton::LinkCategorySelect, String::new())
    } else if str_eq(id, "server_settings_link_cancel") {
        (ServerButton::LinkCancel, String::new())
    } else if starts_with(id, "link_use_existing_") {
        (ServerButton::LinkUseExisting, strip(id, "link_use_existing_"))
    } else if starts_with(id, "link_create_new_") {
        (ServerButton::LinkCreateNew, strip(id, "link_create_new_"))
    } else if starts_with(id, "link_ch_") {
        (ServerButton::LinkChannel, strip(id, "link_ch_"))
    } else if starts_with(id, "link_existing_remove_dup_") {
        (ServerButton::LinkExistingRemoveDup, strip(id, "link_existing_remove_dup_"))
    } else if starts_with(id, "link_remove_dup_new_") {
        (ServerButton::LinkRemoveDupNew, strip(id, "link_remove_dup_new_"))
    } else if starts_with(id, "link_manual_msg_") {
        (ServerButton::LinkManualMsg, strip(id, "link_manual_msg_"))
    } else if str_eq(id, "server_settings_remove_category") {
        (ServerButton::RemoveCategory, String::new())
    } else if str_eq(id, "server_settings_remove_category_select") {
        (ServerButton::RemoveCategorySelect, String::new())
    } else if starts_with(id, "server_settings_remove_confirm_delete_") {
        (ServerButton::RemoveConfirmDelete, strip(id, "server_settings_remove_confirm_delete_"))
    } else if starts_with(id, "server_settings_remove_confirm_keep_") {
        (ServerButton::RemoveConfirmKeep, strip(id, "server_settings_remove_confirm_keep_"))
    } else if str_eq(id, "server_settings_remove_cancel") {
        (ServerButton::RemoveCancel, String::new())
    } else if str_eq(id, "server_settings_category_select") {
        (ServerButton::CategorySelect, String::new())
    } else if str_eq(id, "server_settings_category_back") {
        (ServerButton::CategoryBack, String::new())
    } else if starts_with(id, "category_settings_link_message_") {
        (ServerButton::CategoryLinkMessage, strip(id, "category_settings_link_message_"))
    } else if starts_with(id, "category_link_msg_confirm_") {
        (ServerButton::CategoryLinkMsgConfirm, strip(id, "category_link_msg_confirm_"))
    } else if starts_with(id, "category_settings_back_") {
        (ServerButton::CategorySettingsBack, strip(id, "category_settings_back_"))
    } else if starts_with(id, "server_settings_category_select_") {
        (ServerButton::CategorySelectFor, strip(id, "server_settings_category_select_"))
    } else {
        (ServerButton::Unknown, String::new())
    }
}

} // verus!
