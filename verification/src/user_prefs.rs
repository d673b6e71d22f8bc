//! The user preferences menus: their pages, buttons and navigation.

use vstd::prelude::*;
use crate::text::{str_eq, starts_with, ends_with, has_prefix, has_suffix};
use crate::unified_menu::{ButtonType, MenuButton, MenuDefinition, DynamicField, DynamicComponent, button_view, menu_view, MenuView};

verus! {

/// User preference page identifier.
#[derive(Debug, Clone, Copy, PartialEq, Eq, Structural)]
pub enum UserPrefsPage {
    /// Main user preferences overview page
    Main,
    /// Queue settings page (timeout, auto-join, auto-leave, etc.)
    QueueSettings,
    /// Queue timeout selection page
    QueueTimeoutSettings,
    /// Alert settings page (join/leave alerts, DM alerts)
    AlertSettings,
    /// Ping notifications page (per-server ping preferences)
    PingSettings,
}

/// Index of a page in the menu table.
pub open spec fn page_index(p: UserPrefsPage) -> int {
    match p {
        UserPrefsPage::Main => 0,
        UserPrefsPage::QueueSettings => 1,
        UserPrefsPage::QueueTimeoutSettings => 2,
        UserPrefsPage::AlertSettings => 3,
        UserPrefsPage::PingSettings => 4,
    }
}

/// The user preference menus, in page order.
pub open spec fn user_prefs_table() -> Seq<MenuView<UserPrefsPage>> {
    seq![
        MenuView {
            page: UserPrefsPage::Main,
            title: "qBot Preferences"@,
            description: "Configure your queue preferences and notification settings"@,
            color: 0x5865F2,
            parent: None,
            buttons: seq![("user_prefs_queue_settings"@, "Queue Settings"@, Some("Configure queue timeout, auto-join, and auto-leave settings"@), Some(UserPrefsPage::QueueSettings), ButtonType::Nav), ("user_prefs_alert_settings"@, "Alert Settings"@, Some("Configure join/leave alerts and DM notifications"@), Some(UserPrefsPage::AlertSettings), ButtonType::Nav), ("user_prefs_ping_settings"@, "Ping Settings"@, Some("Configure ping notifications for each server"@), Some(UserPrefsPage::PingSettings), ButtonType::Nav)],
            fields: seq![],
            dynamic_fields: seq![],
            dynamic_components: seq![],
        },
        MenuView {
            page: UserPrefsPage::QueueSettings,
            title: "Queue Settings"@,
            description: "Configure queue behavior and voice channel settings"@,
            color: 0x5865F2,
            parent: Some(UserPrefsPage::Main),
            buttons: seq![("settings_queue_expiration"@, "Queue Timeout"@, Some("Set how long before you're automatically removed from the queue"@), Some(UserPrefsPage::QueueTimeoutSettings), ButtonType::Nav), ("settings_vc_auto_join"@, "VC Auto-join"@, Some("Automatically join voice channel when joining queue"@), None, ButtonType::Toggle), ("settings_vc_auto_leave"@, "VC Auto-leave"@, Some("Automatically leave voice channel when leaving queue"@), None, ButtonType::Toggle), ("settings_vc_leave_queue"@, "Leave Queue on VC Disconnect"@, Some("Automatically leave queue when disconnecting from voice channel"@), None, ButtonType::Toggle)],
            fields: seq![],
            dynamic_fields: seq![("Queue Timeout"@, DynamicField::QueueTimeout, true)],
            dynamic_components: seq![DynamicComponent::VcAutoJoin, DynamicComponent::VcAutoLeave, DynamicComponent::VcLeaveQueue],
        },
        MenuView {
            page: UserPrefsPage::QueueTimeoutSettings,
            title: "Queue Timeout"@,
            description: "Select how long before you're automatically removed from the queue"@,
            color: 0x5865F2,
            parent: Some(UserPrefsPage::QueueSettings),
            buttons: seq![],
            fields: seq![],
            dynamic_fields: seq![("Current Value"@, DynamicField::QueueTimeout, true)],
            dynamic_components: seq![DynamicComponent::QueueTimeoutButtons, DynamicComponent::QueueTimeoutCancel],
        },
        MenuView {
            page: UserPrefsPage::AlertSettings,
            title: "Alert Settings"@,
            description: "Configure custom alerts and notification preferences"@,
            color: 0x5865F2,
            parent: Some(UserPrefsPage::Main),
            buttons: seq![("settings_toggle_dm"@, "DM Alerts"@, Some("Receive DM notifications when games are ready"@), None, ButtonType::Toggle), ("settings_edit_alert"@, "Edit Join Alert"@, Some("Customize your join announcement embed"@), None, ButtonType::Edit), ("settings_edit_leave_alert"@, "Edit Leave Alert"@, Some("Customize your leave announcement embed"@), None, ButtonType::Edit)],
            fields: seq![],
            dynamic_fields: seq![],
            dynamic_components: seq![DynamicComponent::DmToggle],
        },
        MenuView {
            page: UserPrefsPage::PingSettings,
            title: "Ping Settings"@,
            description: "Configure ping notifications for each server"@,
            color: 0x5865F2,
            parent: Some(UserPrefsPage::Main),
            buttons: seq![("settings_ping_notifications"@, "Ping Notifications"@, Some("Toggle ping notifications for this server"@), None, ButtonType::Toggle)],
            fields: seq![("Note"@, "Ping settings are configured per-server. This toggle works when accessed from a server context (dashboard)."@, true)],
            dynamic_fields: seq![],
            dynamic_components: seq![],
        },
    ]
}

/// The registered handlers: (button id, handler name).
pub open spec fn user_prefs_handlers() -> Seq<(Seq<char>, Seq<char>)> {
    seq![("settings_toggle_dm"@, "handle_toggle_dm"@), ("settings_edit_alert"@, "handle_edit_alert"@), ("settings_edit_leave_alert"@, "handle_edit_leave_alert"@), ("settings_vc_auto_join"@, "handle_vc_auto_join"@), ("settings_vc_auto_leave"@, "handle_vc_auto_leave"@), ("settings_vc_leave_queue"@, "handle_vc_leave_queue"@), ("settings_queue_expiration:*"@, "handle_queue_expiration"@), ("settings_ping_notifications"@, "handle_ping_notifications"@)] 
}

/// The back button that returns to `parent`.
pub open spec fn back_button_id_spec(parent: UserPrefsPage) -> Seq<char> {
    match parent {
        UserPrefsPage::Main => "user_prefs_main_back"@,
        UserPrefsPage::QueueSettings => "user_prefs_queue_back"@,
        UserPrefsPage::QueueTimeoutSettings => "user_prefs_queue_back"@,
        UserPrefsPage::AlertSettings => "user_prefs_alert_back"@,
        UserPrefsPage::PingSettings => "user_prefs_ping_back"@,
    }
}

/// The page a back button returns to.
pub open spec fn parent_from_back_spec(id: Seq<char>) -> Option<UserPrefsPage> {
    if id == "user_prefs_main_back"@ {
        Some(UserPrefsPage::Main)
    } else if id == "user_prefs_queue_back"@ {
        Some(UserPrefsPage::QueueSettings)
    } else if id == "user_prefs_alert_back"@ {
        Some(UserPrefsPage::AlertSettings)
    } else if id == "user_prefs_ping_back"@ {
        Some(UserPrefsPage::PingSettings)
    } else {
        None
    }
}

/// Whether `id` is a back button of these menus.
pub open spec fn is_back_spec(id: Seq<char>) -> bool {
    has_suffix(id, "_back"@) && has_prefix(id, "user_prefs_"@)
}

/// The target page of the first button with id `id`, scanning the menus
/// from index `i`.
pub open spec fn target_from(t: Seq<MenuView<UserPrefsPage>>, id: Seq<char>, i: int) -> Option<UserPrefsPage>
    decreases t.len() - i,
{
    if !(0 <= i < t.len()) {
        None
    } else {
        match button_with_id(t[i].buttons, id, 0) {
            Some(b) => b.3,
            None => target_from(t, id, i + 1),
        }
    }
}

/// The first button of `bs` with id `id`, scanning from index `j`.
pub open spec fn button_with_id(
    bs: Seq<(Seq<char>, Seq<char>, Option<Seq<char>>, Option<UserPrefsPage>, ButtonType)>,
    id: Seq<char>,
    j: int,
) -> Option<(Seq<char>, Seq<char>, Option<Seq<char>>, Option<UserPrefsPage>, ButtonType)>
    decreases bs.len() - j,
{
    if !(0 <= j < bs.len()) {
        None
    } else if bs[j].0 == id {
        Some(bs[j])
    } else {
        button_with_id(bs, id, j + 1)
    }
}

/// The page a navigation button id leads to.
pub open spec fn navigation_spec(id: Seq<char>) -> Option<UserPrefsPage> {
    if is_back_spec(id) {
        parent_from_back_spec(id)
    } else {
        target_from(user_prefs_table(), id, 0)
    }
}

/// The ids of non-navigation buttons of `t[i..]` that have no handler in
/// `h`, in menu order.
pub open spec fn missing_from(t: Seq<MenuView<UserPrefsPage>>, h: Seq<(Seq<char>, Seq<char>)>, i: int) -> Seq<Seq<char>>
    decreases t.len() - i,
{
    if !(0 <= i < t.len()) {
        Seq::empty()
    } else {
        missing_in(t[i].buttons, h, 0) + missing_from(t, h, i + 1)
    }
}

/// Whether `h` has a handler for `id`.
pub open spec fn has_handler(h: Seq<(Seq<char>, Seq<char>)>, id: Seq<char>) -> bool {
    exists|k: int| 0 <= k < h.len() && #[trigger] h[k].0 == id
}

/// The ids of non-navigation buttons of `bs[j..]` without a handler.
pub open spec fn missing_in(
    bs: Seq<(Seq<char>, Seq<char>, Option<Seq<char>>, Option<UserPrefsPage>, ButtonType)>,
    h: Seq<(Seq<char>, Seq<char>)>,
    j: int,
) -> Seq<Seq<char>>
    decreases bs.len() - j,
{
    if !(0 <= j < bs.len()) {
        Seq::empty()
    } else if bs[j].4 != ButtonType::Nav && !has_handler(h, bs[j].0) {
        seq![bs[j].0] + missing_in(bs, h, j + 1)
    } else {
        missing_in(bs, h, j + 1)
    }
}

/// The user preference menus and their button handlers.
pub struct UserPrefsMenuSystem {
    pub menus: Vec<MenuDefinition<UserPrefsPage>>,
    pub button_handlers: Vec<(&'static str, &'static str)>,
}

impl UserPrefsMenuSystem {
    /// The menus as data.
    pub open spec fn table(&self) -> Seq<MenuView<UserPrefsPage>> {
        self.menus@.map_values(|m: MenuDefinition<UserPrefsPage>| menu_view(m))
    }

    /// The handlers as data.
    pub open spec fn handlers(&self) -> Seq<(Seq<char>, Seq<char>)> {
        self.button_handlers@.map_values(|h: (&'static str, &'static str)| (h.0@, h.1@))
    }

    /// Whether this is the user preference menu system.
    pub open spec fn wf(&self) -> bool {
        self.table() == user_prefs_table() && self.handlers() == user_prefs_handlers()
    }

    /// Builds the user preference menus and registers the handlers of their
    /// non-navigation buttons.
    pub fn new() -> (r: Self)
        ensures
            r.wf(),
    {
        let mut menus: Vec<MenuDefinition<UserPrefsPage>> = Vec::new();
        let mut buttons: Vec<MenuButton<UserPrefsPage>> = Vec::new();
        buttons.push(MenuButton { id: "user_prefs_queue_settings", label: "Queue Settings", description: Some("Configure queue timeout, auto-join, and auto-leave settings"), target_page: Some(UserPrefsPage::QueueSettings), button_type: ButtonType::Nav });
        buttons.push(MenuButton { id: "user_prefs_alert_settings", label: "Alert Settings", description: Some("Configure join/leave alerts and DM notifications"), target_page: Some(UserPrefsPage::AlertSettings), button_type: ButtonType::Nav });
        buttons.push(MenuButton { id: "user_prefs_ping_settings", label: "Ping Settings", description: Some("Configure ping notifications for each server"), target_page: Some(UserPrefsPage::PingSettings), button_type: ButtonType::Nav });
        let mut fields: Vec<(&'static str, &'static str, bool)> = Vec::new();
        let mut dynamic_fields: Vec<(&'static str, DynamicField, bool)> = Vec::new();
        let mut dynamic_components: Vec<DynamicComponent> = Vec::new();
        menus.push(MenuDefinition {
            page: UserPrefsPage::Main,
            title: "qBot Preferences",
            description: "Configure your queue preferences and notification settings",
            color: 0x5865F2,
            parent: None,
            buttons,
            fields,
            dynamic_fields,
            dynamic_components,
        });
        let mut buttons: Vec<MenuButton<UserPrefsPage>> = Vec::new();
        buttons.push(MenuButton { id: "settings_queue_expiration", label: "Queue Timeout", description: Some("Set how long before you're automatically removed from the queue"), target_page: Some(UserPrefsPage::QueueTimeoutSettings), button_type: ButtonType::Nav });
        buttons.push(MenuButton { id: "settings_vc_auto_join", label: "VC Auto-join", description: Some("Automatically join voice channel when joining queue"), target_page: None, button_type: ButtonType::Toggle });
        buttons.push(MenuButton { id: "settings_vc_auto_leave", label: "VC Auto-leave", description: Some("Automatically leave voice channel when leaving queue"), target_page: None, button_type: ButtonType::Toggle });
        buttons.push(MenuButton { id: "settings_vc_leave_queue", label: "Leave Queue on VC Disconnect", description: Some("Automatically leave queue when disconnecting from voice channel"), target_page: None, button_type: ButtonType::Toggle });
        let mut fields: Vec<(&'static str, &'static str, bool)> = Vec::new();
        let mut dynamic_fields: Vec<(&'static str, DynamicField, bool)> = Vec::new();
        dynamic_fields.push(("Queue Timeout", DynamicField::QueueTimeout, true));
        let mut dynamic_components: Vec<DynamicComponent> = Vec::new();
        dynamic_components.push(DynamicComponent::VcAutoJoin);
        dynamic_components.push(DynamicComponent::VcAutoLeave);
        dynamic_components.push(DynamicComponent::VcLeaveQueue);
        menus.push(MenuDefinition {
            page: UserPrefsPage::QueueSettings,
            title: "Queue Settings",
            description: "Configure queue behavior and voice channel settings",
            color: 0x5865F2,
            parent: Some(UserPrefsPage::Main),
            buttons,
            fields,
            dynamic_fields,
            dynamic_components,
        });
        let mut buttons: Vec<MenuButton<UserPrefsPage>> = Vec::new();
        let mut fields: Vec<(&'static str, &'static str, bool)> = Vec::new();
        let mut dynamic_fields: Vec<(&'static str, DynamicField, bool)> = Vec::new();
        dynamic_fields.push(("Current Value", DynamicField::QueueTimeout, true));
        let mut dynamic_components: Vec<DynamicComponent> = Vec::new();
        dynamic_components.push(DynamicComponent::QueueTimeoutButtons);
        dynamic_components.push(DynamicComponent::QueueTimeoutCancel);
        menus.push(MenuDefinition {
            page: UserPrefsPage::QueueTimeoutSettings,
            title: "Queue Timeout",
            description: "Select how long before you're automatically removed from the queue",
            color: 0x5865F2,
            parent: Some(UserPrefsPage::QueueSettings),
            buttons,
            fields,
            dynamic_fields,
            dynamic_components,
        });
        let mut buttons: Vec<MenuButton<UserPrefsPage>> = Vec::new();
        buttons.push(MenuButton { id: "settings_toggle_dm", label: "DM Alerts", description: Some("Receive DM notifications when games are ready"), target_page: None, button_type: ButtonType::Toggle });
        buttons.push(MenuButton { id: "settings_edit_alert", label: "Edit Join Alert", description: Some("Customize your join announcement embed"), target_page: None, button_type: ButtonType::Edit });
        buttons.push(MenuButton { id: "settings_edit_leave_alert", label: "Edit Leave Alert", description: Some("Customize your leave announcement embed"), target_page: None, button_type: ButtonType::Edit });
        let mut fields: Vec<(&'static str, &'static str, bool)> = Vec::new();
        let mut dynamic_fields: Vec<(&'static str, DynamicField, bool)> = Vec::new();
        let mut dynamic_components: Vec<DynamicComponent> = Vec::new();
        dynamic_components.push(DynamicComponent::DmToggle);
        menus.push(MenuDefinition {
            page: UserPrefsPage::AlertSettings,
            title: "Alert Settings",
            description: "Configure custom alerts and notification preferences",
            color: 0x5865F2,
            parent: Some(UserPrefsPage::Main),
            buttons,
            fields,
            dynamic_fields,
            dynamic_components,
        });
        let mut buttons: Vec<MenuButton<UserPrefsPage>> = Vec::new();
        buttons.push(MenuButton { id: "settings_ping_notifications", label: "Ping Notifications", description: Some("Toggle ping notifications for this server"), target_page: None, button_type: ButtonType::Toggle });
        let mut fields: Vec<(&'static str, &'static str, bool)> = Vec::new();
        fields.push(("Note", "Ping settings are configured per-server. This toggle works when accessed from a server context (dashboard).", true));
        let mut dynamic_fields: Vec<(&'static str, DynamicField, bool)> = Vec::new();
        let mut dynamic_components: Vec<DynamicComponent> = Vec::new();
        menus.push(MenuDefinition {
            page: UserPrefsPage::PingSettings,
            title: "Ping Settings",
            description: "Configure ping notifications for each server",
            color: 0x5865F2,
            parent: Some(UserPrefsPage::Main),
            buttons,
            fields,
            dynamic_fields,
            dynamic_components,
        });
        let mut button_handlers: Vec<(&'static str, &'static str)> = Vec::new();
        button_handlers.push(("settings_toggle_dm", "handle_toggle_dm"));
        button_handlers.push(("settings_edit_alert", "handle_edit_alert"));
        button_handlers.push(("settings_edit_leave_alert", "handle_edit_leave_alert"));
        button_handlers.push(("settings_vc_auto_join", "handle_vc_auto_join"));
        button_handlers.push(("settings_vc_auto_leave", "handle_vc_auto_leave"));
        button_handlers.push(("settings_vc_leave_queue", "handle_vc_leave_queue"));
        button_handlers.push(("settings_queue_expiration:*", "handle_queue_expiration"));
        button_handlers.push(("settings_ping_notifications", "handle_ping_notifications"));
        let r = UserPrefsMenuSystem { menus, button_handlers };
        assert(r.table() =~= user_prefs_table()) by {
            assert forall|i: int| 0 <= i < user_prefs_table().len() implies #[trigger] r.table()[i] == user_prefs_table()[i] by {
                assert(r.table()[i].buttons =~= user_prefs_table()[i].buttons);
                assert(r.table()[i].fields =~= user_prefs_table()[i].fields);
                assert(r.table()[i].dynamic_fields =~= user_prefs_table()[i].dynamic_fields);
                assert(r.table()[i].dynamic_components =~= user_prefs_table()[i].dynamic_components);
            }
        }
        assert(r.handlers() =~= user_prefs_handlers());
        r
    }
    fn index_of(page: UserPrefsPage) -> (r: usize)
        ensures
            r as int == page_index(page),
    {
        match page {
            UserPrefsPage::Main => 0,
            UserPrefsPage::QueueSettings => 1,
            UserPrefsPage::QueueTimeoutSettings => 2,
            UserPrefsPage::AlertSettings => 3,
            UserPrefsPage::PingSettings => 4,
        }
    }

    /// The definition of `page`.
    pub fn get_menu(&self, page: UserPrefsPage) -> (r: Option<&MenuDefinition<UserPrefsPage>>)
        requires
            self.wf(),
        ensures
            r is Some,
            menu_view(*r.unwrap()) == user_prefs_table()[page_index(page)],
    {
        let i = Self::index_of(page);
        assert(user_prefs_table().len() == 5);
        assert(self.table().len() == self.menus@.len());
        assert(self.table()[i as int] == menu_view(self.menus@[i as int]));
        Some(&self.menus[i])
    }

    /// The parent page of `page`, if it has one.
    pub fn get_parent(&self, page: UserPrefsPage) -> (r: Option<UserPrefsPage>)
        requires
            self.wf(),
        ensures
            r == user_prefs_table()[page_index(page)].parent,
    {
        let i = Self::index_of(page);
        assert(user_prefs_table().len() == 5);
        assert(self.table().len() == self.menus@.len());
        assert(self.table()[i as int] == menu_view(self.menus@[i as int]));
        self.menus[i].parent
    }

    /// The target page of the first button with id `button_id`.
    pub fn get_target_page(&self, button_id: &str) -> (r: Option<UserPrefsPage>)
        requires
            self.wf(),
        ensures
            r == target_from(user_prefs_table(), button_id@, 0),
    {
        let n = self.menus.len();
        let mut i: usize = 0;
        while i < n
            invariant
                self.wf(),
                n == self.menus@.len(),
                i <= n,
                target_from(user_prefs_table(), button_id@, 0) == target_from(user_prefs_table(), button_id@, i as int),
            decreases n - i,
        {
            let ghost mv = user_prefs_table()[i as int];
            assert(self.table().len() == self.menus@.len());
            assert(self.table()[i as int] == menu_view(self.menus@[i as int]));
            let bs = &self.menus[i].buttons;
            let m = bs.len();
            let mut j: usize = 0;
            while j < m
                invariant
                    m == bs@.len(),
                    self.wf(),
                    i < n,
                    n == user_prefs_table().len(),
                    mv == user_prefs_table()[i as int],
                    target_from(user_prefs_table(), button_id@, 0) == target_from(user_prefs_table(), button_id@, i as int),
                    mv.buttons == bs@.map_values(|b: MenuButton<UserPrefsPage>| button_view(b)),
                    j <= m,
                    button_with_id(mv.buttons, button_id@, 0) == button_with_id(mv.buttons, button_id@, j as int),
                decreases m - j,
            {
                if str_eq(bs[j].id, button_id) {
                    assert(mv.buttons[j as int] == button_view(bs@[j as int]));
                    assert(button_with_id(mv.buttons, button_id@, j as int) == Some(mv.buttons[j as int]));
                    assert(target_from(user_prefs_table(), button_id@, i as int) == bs@[j as int].target_page);
                    return bs[j].target_page;
                }
                j = j + 1;
            }
            i = i + 1;
        }
        None
    }

    /// The id of the back button that returns to `parent`.
    pub fn get_back_button_id(&self, parent: UserPrefsPage) -> (r: &'static str)
        ensures
            r@ == back_button_id_spec(parent),
    {
        match parent {
            UserPrefsPage::Main => "user_prefs_main_back",
            UserPrefsPage::QueueSettings => "user_prefs_queue_back",
            UserPrefsPage::QueueTimeoutSettings => "user_prefs_queue_back",
            UserPrefsPage::AlertSettings => "user_prefs_alert_back",
            UserPrefsPage::PingSettings => "user_prefs_ping_back",
        }
    }

    /// The ids of non-navigation buttons that have no registered handler,
    /// in menu order.
    pub fn verify_handlers(&self) -> (r: Vec<&'static str>)
        requires
            self.wf(),
        ensures
            r@.map_values(|s: &'static str| s@) == missing_from(user_prefs_table(), user_prefs_handlers(), 0),
    {
        let mut out: Vec<&'static str> = Vec::new();
        let n = self.menus.len();
        let mut i: usize = 0;
        while i < n
            invariant
                self.wf(),
                n == self.menus@.len(),
                i <= n,
                missing_from(user_prefs_table(), user_prefs_handlers(), 0)
                    == out@.map_values(|s: &'static str| s@) + missing_from(user_prefs_table(), user_prefs_handlers(), i as int),
            decreases n - i,
        {
            let ghost mv = user_prefs_table()[i as int];
            assert(self.table()[i as int] == menu_view(self.menus@[i as int]));
            let bs = &self.menus[i].buttons;
            let m = bs.len();
            let mut j: usize = 0;
            let ghost before = out@.map_values(|s: &'static str| s@);
            while j < m
                invariant
                    self.wf(),
                    m == bs@.len(),
                    mv.buttons == bs@.map_values(|b: MenuButton<UserPrefsPage>| button_view(b)),
                    j <= m,
                    missing_in(mv.buttons, user_prefs_handlers(), 0)
                        == out@.map_values(|s: &'static str| s@).subrange(before.len() as int, out@.len() as int)
                            + missing_in(mv.buttons, user_prefs_handlers(), j as int),
                    before.len() <= out@.len(),
                    out@.map_values(|s: &'static str| s@).subrange(0, before.len() as int) == before,
                decreases m - j,
            {
                let b = bs[j];
                assert(mv.buttons[j as int] == button_view(b));
                let is_nav = match b.button_type {
                    ButtonType::Nav => true,
                    _ => false,
                };
                if !is_nav && !self.has_handler(b.id) {
                    let ghost ov = out@.map_values(|s: &'static str| s@);
                    out.push(b.id);
                    assert(out@.map_values(|s: &'static str| s@) =~= ov.push(b.id@));
                    assert(out@.map_values(|s: &'static str| s@).subrange(before.len() as int, out@.len() as int)
                        =~= ov.subrange(before.len() as int, ov.len() as int).push(b.id@));
                    assert(out@.map_values(|s: &'static str| s@).subrange(0, before.len() as int) =~= ov.subrange(0, before.len() as int));
                }
                j = j + 1;
            }
            assert(out@.map_values(|s: &'static str| s@) =~= before + out@.map_values(|s: &'static str| s@).subrange(before.len() as int, out@.len() as int));
            i = i + 1;
        }
        assert(out@.map_values(|s: &'static str| s@) =~= out@.map_values(|s: &'static str| s@) + Seq::<Seq<char>>::empty());
        out
    }

    fn has_handler(&self, id: &str) -> (r: bool)
        requires
            self.wf(),
        ensures
            r == has_handler(user_prefs_handlers(), id@),
    {
        let n = self.button_handlers.len();
        let mut k: usize = 0;
        while k < n
            invariant
                self.wf(),
                n == self.button_handlers@.len(),
                k <= n,
                forall|t: int| 0 <= t < k ==> #[trigger] user_prefs_handlers()[t].0 != id@,
            decreases n - k,
        {
            assert(user_prefs_handlers()[k as int] == (self.button_handlers@[k as int].0@, self.button_handlers@[k as int].1@));
            if str_eq(self.button_handlers[k].0, id) {
                assert(user_prefs_handlers()[k as int].0 == id@);
                return true;
            }
            k = k + 1;
        }
        false
    }
}

/// Helper for navigation: the target page of a button id.
pub fn get_user_prefs_target_page(button_id: &str) -> (r: Option<UserPrefsPage>)
    ensures
        r == target_from(user_prefs_table(), button_id@, 0),
{
    get_user_prefs_menu_system().get_target_page(button_id)
}

/// Whether a button id is a back button of the preference menus.
pub fn is_user_prefs_back_button(button_id: &str) -> (r: bool)
    ensures
        r == is_back_spec(button_id@),
{
    ends_with(button_id, "_back") && starts_with(button_id, "user_prefs_")
}

/// The page a back button returns to.
pub fn get_user_prefs_parent_from_back_button(button_id: &str) -> (r: Option<UserPrefsPage>)
    ensures
        r == parent_from_back_spec(button_id@),
{
    if str_eq(button_id, "user_prefs_main_back") {
        Some(UserPrefsPage::Main)
    } else if str_eq(button_id, "user_prefs_queue_back") {
        Some(UserPrefsPage::QueueSettings)
    } else if str_eq(button_id, "user_prefs_alert_back") {
        Some(UserPrefsPage::AlertSettings)
    } else if str_eq(button_id, "user_prefs_ping_back") {
        Some(UserPrefsPage::PingSettings)
    } else {
        None
    }
}

/// The page a button of the preference menus leads to: the parent for a
/// back button, else the button's target page.
pub fn get_user_prefs_navigation_info(button_id: &str) -> (r: Option<UserPrefsPage>)
    ensures
        r == navigation_spec(button_id@),
{
    if is_user_prefs_back_button(button_id) {
        get_user_prefs_parent_from_back_button(button_id)
    } else {
        get_user_prefs_target_page(button_id)
    }
}

/// The user preference menu system.
pub fn get_user_prefs_menu_system() -> (r: UserPrefsMenuSystem)
    ensures
        r.wf(),
{
    UserPrefsMenuSystem::new()
}

/// Every non-navigation button of the preference menus has a handler.
pub proof fn lemma_all_handlers_registered()
    ensures
        missing_from(user_prefs_table(), user_prefs_handlers(), 0).len() == 0,
{
    let t = user_prefs_table();
    let h = user_prefs_handlers();
    reveal_with_fuel(missing_in, 6);
    reveal_with_fuel(missing_from, 7);
    assert(h[0].0 == "settings_toggle_dm"@);
    assert(h[1].0 == "settings_edit_alert"@);
    assert(h[2].0 == "settings_edit_leave_alert"@);
    assert(h[3].0 == "settings_vc_auto_join"@);
    assert(h[4].0 == "settings_vc_auto_leave"@);
    assert(h[5].0 == "settings_vc_leave_queue"@);
    assert(h[7].0 == "settings_ping_notifications"@);
    assert forall|i: int| 0 <= i < t.len() implies #[trigger] missing_in(t[i].buttons, h, 0).len() == 0 by {
    }
    assert(missing_from(t, h, 5).len() == 0);
    assert(missing_from(t, h, 4).len() == 0);
    assert(missing_from(t, h, 3).len() == 0);
    assert(missing_from(t, h, 2).len() == 0);
    assert(missing_from(t, h, 1).len() == 0);
}

/// The back button of a page's parent leads back to that parent.
pub proof fn lemma_back_returns_to_parent(p: UserPrefsPage)
    requires
        user_prefs_table()[page_index(p)].parent is Some,
    ensures
        navigation_spec(back_button_id_spec(user_prefs_table()[page_index(p)].parent.unwrap()))
            == user_prefs_table()[page_index(p)].parent,
{
    reveal_strlit("user_prefs_main_back");
    reveal_strlit("user_prefs_queue_back");
    reveal_strlit("_back");
    reveal_strlit("user_prefs_");
    let q = user_prefs_table()[page_index(p)].parent.unwrap();
    let id = back_button_id_spec(q);
    assert(q == UserPrefsPage::Main || q == UserPrefsPage::QueueSettings);
    assert(id.subrange(id.len() - 5, id.len() as int) =~= "_back"@);
    assert(id.subrange(0, 11) =~= "user_prefs_"@);
    assert(is_back_spec(id));
    if q == UserPrefsPage::QueueSettings {
        assert(id[11] != "user_prefs_main_back"@[11]);
    }
}

} // verus!
