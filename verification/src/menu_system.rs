//! The server configuration menus: pages, buttons, navigation and button
//! layout.

use vstd::prelude::*;
use vstd::string::*;
use crate::text::{str_eq, starts_with, ends_with, has_prefix, has_suffix};
use crate::alerts::join_with;
use crate::settings::{SettingsMenu, SettingsField, FieldView, MenuView};

verus! {

/// Colour of a menu page.
#[derive(Debug, Clone, Copy, PartialEq, Eq)]
pub enum MenuColor {
    /// Discord blurple - standard config pages
    Standard,
    /// Green - success/confirmation pages
    Success,
    /// Red - danger/warning pages
    Danger,
    /// Gold - warning/attention pages
    Warning,
    /// Grey - neutral pages
    Neutral,
}

impl MenuColor {
    /// The RGB value of the colour.
    pub open spec fn spec_value(self) -> u32 {
        match self {
            MenuColor::Standard => 0x5865F2,
            MenuColor::Success => 0x57F287,
            MenuColor::Danger => 0xED4245,
            MenuColor::Warning => 0xFEE75C,
            MenuColor::Neutral => 0x99AAB5,
        }
    }

    /// The RGB value of the colour.
    pub fn value(&self) -> (r: u32)
        ensures
            r == self.spec_value(),
    {
        match self {
            MenuColor::Standard => 0x5865F2,
            MenuColor::Success => 0x57F287,
            MenuColor::Danger => 0xED4245,
            MenuColor::Warning => 0xFEE75C,
            MenuColor::Neutral => 0x99AAB5,
        }
    }
}

/// Button style configuration.
#[derive(Debug, Clone, Copy, PartialEq, Eq)]
pub enum ButtonStyle {
    /// Primary action
    Primary,
    /// Secondary action
    Secondary,
    /// Success action
    Success,
    /// Danger action
    Danger,
}

/// Menu page identifier.
#[derive(Debug, Clone, Copy, PartialEq, Eq)]
pub enum MenuPage {
    /// Main guild config page
    GuildConfig,
    /// Server config page (General/Roles/VC/ELO buttons)
    ServerConfig,
    /// Roles configuration sub-menu
    RolesConfig,
    /// ELO configuration page
    EloConfig,
    /// VC configuration page
    VcConfig,
    /// General configuration page
    GeneralConfig,
    /// Rank configuration page
    RankConfig,
    /// Category list page
    CategoryList,
    /// Category settings page
    CategorySettings,
}

/// Index of a page in the menu table.
pub open spec fn page_index(p: MenuPage) -> int {
    match p {
        MenuPage::GuildConfig => 0,
        MenuPage::ServerConfig => 1,
        MenuPage::RolesConfig => 2,
        MenuPage::EloConfig => 3,
        MenuPage::VcConfig => 4,
        MenuPage::GeneralConfig => 5,
        MenuPage::RankConfig => 6,
        MenuPage::CategoryList => 7,
        MenuPage::CategorySettings => 8,
    }
}

/// Menu button definition.
#[derive(Debug, Clone, Copy)]
pub struct MenuButton {
    pub id: &'static str,
    pub label: &'static str,
    pub description: Option<&'static str>,
    pub target_page: Option<MenuPage>,
}

/// Menu page definition.
#[derive(Debug)]
pub struct MenuDefinition {
    pub page: MenuPage,
    pub title: &'static str,
    pub description: &'static str,
    pub color: MenuColor,
    pub parent: Option<MenuPage>,
    pub buttons: Vec<MenuButton>,
    /// (name, value, inline)
    pub fields: Vec<(&'static str, &'static str, bool)>,
}

/// A button as data: (id, label, description, target page).
pub open spec fn mbutton_view(b: MenuButton) -> (Seq<char>, Seq<char>, Option<Seq<char>>, Option<MenuPage>) {
    (b.id@, b.label@, match b.description { Some(d) => Some(d@), None => None }, b.target_page)
}

/// A menu page as data: (page, title, description, colour, parent, buttons, fields).
pub open spec fn mdef_view(m: MenuDefinition) -> (MenuPage, Seq<char>, Seq<char>, MenuColor, Option<MenuPage>, Seq<(Seq<char>, Seq<char>, Option<Seq<char>>, Option<MenuPage>)>, Seq<(Seq<char>, Seq<char>, bool)>) {
    (
        m.page,
        m.title@,
        m.description@,
        m.color,
        m.parent,
        m.buttons@.map_values(|b: MenuButton| mbutton_view(b)),
        m.fields@.map_values(|f: (&'static str, &'static str, bool)| (f.0@, f.1@, f.2)),
    )
}

/// The server configuration menus as first defined, in page order.
pub open spec fn base_table() -> Seq<(MenuPage, Seq<char>, Seq<char>, MenuColor, Option<MenuPage>, Seq<(Seq<char>, Seq<char>, Option<Seq<char>>, Option<MenuPage>)>, Seq<(Seq<char>, Seq<char>, bool)>)> {
    seq![
        (MenuPage::GuildConfig, "Guild Configuration"@, "Select a server to configure"@, MenuColor::Standard, None, seq![], seq![]),
        (MenuPage::ServerConfig, "Server Configuration"@, "Configure server-wide settings"@, MenuColor::Standard, Some(MenuPage::GuildConfig), seq![("guild_config_general_menu"@, "General"@, Some("Configure general server settings like post-game confirm time and gamemode"@), Some(MenuPage::GeneralConfig)), ("guild_config_roles_menu"@, "Roles"@, Some("Configure runner, admin, and ping roles for permissions and notifications"@), Some(MenuPage::RolesConfig)), ("guild_config_elo_menu"@, "ELO"@, Some("Configure ELO calculations, rank linking, and dynamic ELO settings"@), Some(MenuPage::EloConfig)), ("guild_config_vc_menu"@, "Voice Chat"@, Some("Configure voice channel settings like auto-join, auto-leave, and VC policies"@), Some(MenuPage::VcConfig))], seq![]),
        (MenuPage::RolesConfig, "Roles Configuration"@, "Configure runner, admin, and ping roles"@, MenuColor::Standard, Some(MenuPage::ServerConfig), seq![("guild_config_create_ping_role"@, "Create ping role"@, Some("Create a new Discord role that will be pinged instead of @here"@), None)], seq![("Runner Role"@, "Select runner role"@, true), ("Admin Role"@, "Select admin role"@, true), ("Ping Role"@, "Select ping role (empty for @here)"@, true)]),
        (MenuPage::EloConfig, "ELO Configuration"@, "Configure ELO and rank settings"@, MenuColor::Standard, Some(MenuPage::ServerConfig), seq![], seq![]),
        (MenuPage::VcConfig, "Voice Chat Configuration"@, "Configure voice channel settings"@, MenuColor::Standard, Some(MenuPage::ServerConfig), seq![], seq![]),
        (MenuPage::GeneralConfig, "General Configuration"@, "Configure general server settings"@, MenuColor::Standard, Some(MenuPage::ServerConfig), seq![("guild_config_edit_post_game_confirm_time"@, "Edit timeout"@, Some("Change the time in seconds to wait for post-game confirmation"@), None), ("guild_config_edit_gamemode"@, "Edit gamemode"@, Some("Set the current gamemode for the server"@), None), ("guild_config_edit_system_msg_channel"@, "Edit system msg channel"@, Some("Configure the channel for system message broadcasts"@), None), ("guild_config_edit_community_updates_channel"@, "Edit community updates channel"@, Some("Configure the channel for community update broadcasts"@), None)], seq![]),
        (MenuPage::RankConfig, "Rank Configuration"@, "Configure rank settings"@, MenuColor::Standard, Some(MenuPage::EloConfig), seq![], seq![]),
        (MenuPage::CategoryList, "Category List"@, "Select a category to manage"@, MenuColor::Standard, Some(MenuPage::ServerConfig), seq![], seq![]),
        (MenuPage::CategorySettings, "Category Settings"@, "Configure category-specific settings"@, MenuColor::Standard, Some(MenuPage::CategoryList), seq![], seq![]),
    ]
}

/// The id of the back button added to pages whose parent is `parent`.
pub open spec fn back_id_for(parent: MenuPage) -> Seq<char> {
    match parent {
        MenuPage::GuildConfig => "guild_config_back"@,
        MenuPage::ServerConfig => "guild_config_server_back"@,
        MenuPage::RolesConfig => "guild_config_roles_back"@,
        MenuPage::EloConfig => "guild_config_elo_back"@,
        MenuPage::VcConfig => "guild_config_vc_back"@,
        MenuPage::GeneralConfig => "guild_config_general_back"@,
        MenuPage::RankConfig => "guild_config_rank_back"@,
        MenuPage::CategoryList => "guild_config_categories_back"@,
        MenuPage::CategorySettings => "guild_config_category_back"@,
    }
}

/// The page a server configuration back button returns to.
pub open spec fn server_parent_from_back_spec(id: Seq<char>) -> Option<MenuPage> {
    if id == "guild_config_back"@ {
        Some(MenuPage::GuildConfig)
    } else if id == "guild_config_server_back"@ {
        Some(MenuPage::ServerConfig)
    } else if id == "guild_config_roles_back"@ {
        Some(MenuPage::RolesConfig)
    } else if id == "guild_config_elo_back"@ {
        Some(MenuPage::EloConfig)
    } else if id == "guild_config_vc_back"@ {
        Some(MenuPage::VcConfig)
    } else if id == "guild_config_general_back"@ {
        Some(MenuPage::GeneralConfig)
    } else if id == "guild_config_rank_back"@ {
        Some(MenuPage::RankConfig)
    } else if id == "guild_config_categories_back"@ {
        Some(MenuPage::CategoryList)
    } else if id == "guild_config_category_back"@ {
        Some(MenuPage::CategorySettings)
    } else {
        None
    }
}

/// The menu system holding the server configuration menus.
pub struct MenuSystem {
    pub menus: Vec<MenuDefinition>,
}

impl MenuSystem {
    /// The menus as data.
    pub open spec fn table(&self) -> Seq<(MenuPage, Seq<char>, Seq<char>, MenuColor, Option<MenuPage>, Seq<(Seq<char>, Seq<char>, Option<Seq<char>>, Option<MenuPage>)>, Seq<(Seq<char>, Seq<char>, bool)>)> {
        self.menus@.map_values(|m: MenuDefinition| mdef_view(m))
    }

    /// Each page stands at its own index.
    pub open spec fn pages_in_order(&self) -> bool {
        self.menus@.len() == 9 && forall|i: int| 0 <= i < 9 ==> page_index(#[trigger] self.menus@[i].page) == i
    }

    /// Create a new menu system with all defined menus.
    pub fn new() -> (r: Self)
        ensures
            r.table() == base_table(),
            r.pages_in_order(),
    {
        let mut menus: Vec<MenuDefinition> = Vec::new();
        let mut buttons: Vec<MenuButton> = Vec::new();
        let mut fields: Vec<(&'static str, &'static str, bool)> = Vec::new();
        menus.push(MenuDefinition { page: MenuPage::GuildConfig, title: "Guild Configuration", description: "Select a server to configure", color: MenuColor::Standard, parent: None, buttons, fields });
        let mut buttons: Vec<MenuButton> = Vec::new();
        buttons.push(MenuButton { id: "guild_config_general_menu", label: "General", description: Some("Configure general server settings like post-game confirm time and gamemode"), target_page: Some(MenuPage::GeneralConfig) });
        buttons.push(MenuButton { id: "guild_config_roles_menu", label: "Roles", description: Some("Configure runner, admin, and ping roles for permissions and notifications"), target_page: Some(MenuPage::RolesConfig) });
        buttons.push(MenuButton { id: "guild_config_elo_menu", label: "ELO", description: Some("Configure ELO calculations, rank linking, and dynamic ELO settings"), target_page: Some(MenuPage::EloConfig) });
        buttons.push(MenuButton { id: "guild_config_vc_menu", label: "Voice Chat", description: Some("Configure voice channel settings like auto-join, auto-leave, and VC policies"), target_page: Some(MenuPage::VcConfig) });
        let mut fields: Vec<(&'static str, &'static str, bool)> = Vec::new();
        menus.push(MenuDefinition { page: MenuPage::ServerConfig, title: "Server Configuration", description: "Configure server-wide settings", color: MenuColor::Standard, parent: Some(MenuPage::GuildConfig), buttons, fields });
        let mut buttons: Vec<MenuButton> = Vec::new();
        buttons.push(MenuButton { id: "guild_config_create_ping_role", label: "Create ping role", description: Some("Create a new Discord role that will be pinged instead of @here"), target_page: None });
        let mut fields: Vec<(&'static str, &'static str, bool)> = Vec::new();
        fields.push(("Runner Role", "Select runner role", true));
        fields.push(("Admin Role", "Select admin role", true));
        fields.push(("Ping Role", "Select ping role (empty for @here)", true));
        menus.push(MenuDefinition { page: MenuPage::RolesConfig, title: "Roles Configuration", description: "Configure runner, admin, and ping roles", color: MenuColor::Standard, parent: Some(MenuPage::ServerConfig), buttons, fields });
        let mut buttons: Vec<MenuButton> = Vec::new();
        let mut fields: Vec<(&'static str, &'static str, bool)> = Vec::new();
        menus.push(MenuDefinition { page: MenuPage::EloConfig, title: "ELO Configuration", description: "Configure ELO and rank settings", color: MenuColor::Standard, parent: Some(MenuPage::ServerConfig), buttons, fields });
        let mut buttons: Vec<MenuButton> = Vec::new();
        let mut fields: Vec<(&'static str, &'static str, bool)> = Vec::new();
        menus.push(MenuDefinition { page: MenuPage::VcConfig, title: "Voice Chat Configuration", description: "Configure voice channel settings", color: MenuColor::Standard, parent: Some(MenuPage::ServerConfig), buttons, fields });
        let mut buttons: Vec<MenuButton> = Vec::new();
        buttons.push(MenuButton { id: "guild_config_edit_post_game_confirm_time", label: "Edit timeout", description: Some("Change the time in seconds to wait for post-game confirmation"), target_page: None });
        buttons.push(MenuButton { id: "guild_config_edit_gamemode", label: "Edit gamemode", description: Some("Set the current gamemode for the server"), target_page: None });
        buttons.push(MenuButton { id: "guild_config_edit_system_msg_channel", label: "Edit system msg channel", description: Some("Configure the channel for system message broadcasts"), target_page: None });
        buttons.push(MenuButton { id: "guild_config_edit_community_updates_channel", label: "Edit community updates channel", description: Some("Configure the channel for community update broadcasts"), target_page: None });
        let mut fields: Vec<(&'static str, &'static str, bool)> = Vec::new();
        menus.push(MenuDefinition { page: MenuPage::GeneralConfig, title: "General Configuration", description: "Configure general server settings", color: MenuColor::Standard, parent: Some(MenuPage::ServerConfig), buttons, fields });
        let mut buttons: Vec<MenuButton> = Vec::new();
        let mut fields: Vec<(&'static str, &'static str, bool)> = Vec::new();
        menus.push(MenuDefinition { page: MenuPage::RankConfig, title: "Rank Configuration", description: "Configure rank settings", color: MenuColor::Standard, parent: Some(MenuPage::EloConfig), buttons, fields });
        let mut buttons: Vec<MenuButton> = Vec::new();
        let mut fields: Vec<(&'static str, &'static str, bool)> = Vec::new();
        menus.push(MenuDefinition { page: MenuPage::CategoryList, title: "Category List", description: "Select a category to manage", color: MenuColor::Standard, parent: Some(MenuPage::ServerConfig), buttons, fields });
        let mut buttons: Vec<MenuButton> = Vec::new();
        let mut fields: Vec<(&'static str, &'static str, bool)> = Vec::new();
        menus.push(MenuDefinition { page: MenuPage::CategorySettings, title: "Category Settings", description: "Configure category-specific settings", color: MenuColor::Standard, parent: Some(MenuPage::CategoryList), buttons, fields });
        let r = MenuSystem { menus };
        assert(r.table() =~= base_table()) by {
            assert forall|i: int| 0 <= i < base_table().len() implies #[trigger] r.table()[i] == base_table()[i] by {
                assert(r.table()[i].5 =~= base_table()[i].5);
                assert(r.table()[i].6 =~= base_table()[i].6);
            }
        }
        r
    }
    fn index_of(page: MenuPage) -> (r: usize)
        ensures
            r as int == page_index(page),
            r < 9,
    {
        match page {
            MenuPage::GuildConfig => 0,
            MenuPage::ServerConfig => 1,
            MenuPage::RolesConfig => 2,
            MenuPage::EloConfig => 3,
            MenuPage::VcConfig => 4,
            MenuPage::GeneralConfig => 5,
            MenuPage::RankConfig => 6,
            MenuPage::CategoryList => 7,
            MenuPage::CategorySettings => 8,
        }
    }

    /// Get the menu definition for a given page.
    pub fn get_menu(&self, page: MenuPage) -> (r: Option<&MenuDefinition>)
        requires
            self.pages_in_order(),
        ensures
            r is Some,
            r.unwrap().page == page,
            mdef_view(*r.unwrap()) == self.table()[page_index(page)],
    {
        let i = Self::index_of(page);
        assert(self.table()[i as int] == mdef_view(self.menus@[i as int]));
        Some(&self.menus[i])
    }

    /// Get the parent page for a given page.
    pub fn get_parent(&self, page: MenuPage) -> (r: Option<MenuPage>)
        requires
            self.pages_in_order(),
        ensures
            r == self.table()[page_index(page)].4,
    {
        let i = Self::index_of(page);
        assert(self.table()[i as int] == mdef_view(self.menus@[i as int]));
        self.menus[i].parent
    }

    /// The target page of the first button with id `button_id`, scanning
    /// the pages in order.
    pub fn get_target_page(&self, button_id: &str) -> (r: Option<MenuPage>)
        ensures
            r == target_in(self.table(), button_id@, 0),
    {
        let n = self.menus.len();
        let mut i: usize = 0;
        while i < n
            invariant
                n == self.menus@.len(),
                i <= n,
                target_in(self.table(), button_id@, 0) == target_in(self.table(), button_id@, i as int),
            decreases n - i,
        {
            let ghost mv = self.table()[i as int];
            assert(mv == mdef_view(self.menus@[i as int]));
            let bs = &self.menus[i].buttons;
            let m = bs.len();
            let mut j: usize = 0;
            while j < m
                invariant
                    m == bs@.len(),
                    i < n,
                    n == self.menus@.len(),
                    mv == self.table()[i as int],
                    target_in(self.table(), button_id@, 0) == target_in(self.table(), button_id@, i as int),
                    mv.5 == bs@.map_values(|b: MenuButton| mbutton_view(b)),
                    j <= m,
                    find_button(mv.5, button_id@, 0) == find_button(mv.5, button_id@, j as int),
                decreases m - j,
            {
                if str_eq(bs[j].id, button_id) {
                    assert(mv.5[j as int] == mbutton_view(bs@[j as int]));
                    assert(find_button(mv.5, button_id@, j as int) == Some(mv.5[j as int]));
                    return bs[j].target_page;
                }
                j = j + 1;
            }
            i = i + 1;
        }
        None
    }

    /// Fills in button descriptions from `descriptions`, a table of
    /// (config column, description): a button takes the description of the
    /// first column its id contains. Then adds a "Back" button, leading to
    /// the parent, to every page that has a parent and no "Back" button yet.
    pub fn populate_descriptions(&mut self, descriptions: &[(&'static str, &'static str)])
        ensures
            final(self).table() == old(self).table().map_values(|m: (MenuPage, Seq<char>, Seq<char>, MenuColor, Option<MenuPage>, Seq<(Seq<char>, Seq<char>, Option<Seq<char>>, Option<MenuPage>)>, Seq<(Seq<char>, Seq<char>, bool)>)| populated_menu(m, descs_view(descriptions@))),
            final(self).menus@.len() == old(self).menus@.len(),
            forall|i: int| 0 <= i < old(self).menus@.len() ==> #[trigger] final(self).menus@[i].page == old(self).menus@[i].page,
    {
        let n = self.menus.len();
        let ghost old_table = self.table();
        let ghost old_menus = self.menus@;
        let ghost dv = descs_view(descriptions@);
        let mut i: usize = 0;
        while i < n
            invariant
                n == self.menus@.len(),
                n == old_table.len(),
                old_table == old_menus.map_values(|m: MenuDefinition| mdef_view(m)),
                dv == descs_view(descriptions@),
                i <= n,
                forall|k: int| 0 <= k < n ==> #[trigger] self.menus@[k].page == old_menus[k].page,
                forall|k: int| 0 <= k < i ==> #[trigger] self.table()[k] == populated_menu(old_table[k], dv),
                forall|k: int| i <= k < n ==> #[trigger] self.menus@[k] == old_menus[k],
            decreases n - i,
        {
            let ghost before = self.menus@;
            let ghost before_table = self.table();
            let m = self.menus[i].buttons.len();
            let mut new_buttons: Vec<MenuButton> = Vec::new();
            let mut has_back = false;
            let mut j: usize = 0;
            let ghost bv = old_table[i as int].5;
            assert(self.menus@[i as int] == old_menus[i as int]);
            assert(bv == self.menus@[i as int].buttons@.map_values(|b: MenuButton| mbutton_view(b)));
            while j < m
                invariant
                    m == self.menus@[i as int].buttons@.len(),
                    i < n,
                    n == self.menus@.len(),
                    bv == self.menus@[i as int].buttons@.map_values(|b: MenuButton| mbutton_view(b)),
                    dv == descs_view(descriptions@),
                    j <= m,
                    new_buttons@.map_values(|b: MenuButton| mbutton_view(b)) == bv.subrange(0, j as int).map_values(|b: (Seq<char>, Seq<char>, Option<Seq<char>>, Option<MenuPage>)| with_description(b, dv)),
                    has_back == has_back_label(bv.subrange(0, j as int)),
                decreases m - j,
            {
                let b = self.menus[i].buttons[j];
                assert(bv[j as int] == mbutton_view(b));
                let d = description_for(b.id, descriptions);
                let nb = match d {
                    Some(desc) => MenuButton { id: b.id, label: b.label, description: Some(desc), target_page: b.target_page },
                    None => b,
                };
                let ghost prev = new_buttons@.map_values(|x: MenuButton| mbutton_view(x));
                new_buttons.push(nb);
                assert(new_buttons@.map_values(|x: MenuButton| mbutton_view(x)) =~= prev.push(mbutton_view(nb)));
                assert(bv.subrange(0, j as int + 1) =~= bv.subrange(0, j as int).push(bv[j as int]));
                assert(bv.subrange(0, j as int + 1).map_values(|x: (Seq<char>, Seq<char>, Option<Seq<char>>, Option<MenuPage>)| with_description(x, dv))
                    =~= bv.subrange(0, j as int).map_values(|x: (Seq<char>, Seq<char>, Option<Seq<char>>, Option<MenuPage>)| with_description(x, dv)).push(with_description(bv[j as int], dv)));
                assert(bv.subrange(0, j as int + 1).drop_last() =~= bv.subrange(0, j as int));
                let is_back = str_eq(b.label, "Back");
                if is_back {
                    has_back = true;
                }
                proof {
                    let s0 = bv.subrange(0, j as int);
                    let s1 = bv.subrange(0, j as int + 1);
                    if has_back_label(s0) {
                        let w = choose|w: int| 0 <= w < s0.len() && #[trigger] s0[w].1 == "Back"@;
                        assert(s1[w] == s0[w]);
                    }
                    if is_back {
                        assert(s1[j as int].1 == "Back"@);
                    }
                    if has_back_label(s1) {
                        let w = choose|w: int| 0 <= w < s1.len() && #[trigger] s1[w].1 == "Back"@;
                        if w < j {
                            assert(s0[w] == s1[w]);
                        }
                    }
                }
                j = j + 1;
            }
            assert(bv.subrange(0, m as int) =~= bv);
            assert(has_back == has_back_label(bv));
            let parent = self.menus[i].parent;
            let ghost nb_before = new_buttons@.map_values(|x: MenuButton| mbutton_view(x));
            assert(nb_before == bv.map_values(|b: (Seq<char>, Seq<char>, Option<Seq<char>>, Option<MenuPage>)| with_description(b, dv)));
            match parent {
                Some(p) => {
                    if !has_back {
                        let ghost prev = new_buttons@.map_values(|x: MenuButton| mbutton_view(x));
                        let nb = MenuButton { id: back_button_id(p), label: "Back", description: Some("Return to previous menu"), target_page: Some(p) };
                        new_buttons.push(nb);
                        assert(new_buttons@.map_values(|x: MenuButton| mbutton_view(x)) =~= prev.push(mbutton_view(nb)));
                    }
                },
                None => {},
            }
            let ghost old_i = self.menus@[i as int];
            self.menus[i].buttons = new_buttons;
            proof {
                assert forall|k: int| 0 <= k < i + 1 implies #[trigger] self.table()[k] == populated_menu(old_table[k], dv) by {
                    if k < i {
                        assert(self.menus@[k] == before[k]);
                        assert(self.table()[k] == mdef_view(before[k]));
                        assert(before_table[k] == mdef_view(before[k]));
                        assert(before_table[k] == populated_menu(old_table[k], dv));
                    } else {
                        assert(self.table()[k] == mdef_view(self.menus@[k]));
                        assert(old_table[k] == mdef_view(old_i));
                        assert(old_i == old_menus[k]);
                        assert(old_table[k].5 == bv);
                        assert(old_table[k].4 == parent);
                        let pm = populated_menu(old_table[k], dv);
                        let cur = mdef_view(self.menus@[k]);
                        assert(cur.5 =~= pm.5);
                        assert(cur.0 == pm.0);
                        assert(cur.1 == pm.1);
                        assert(cur.2 == pm.2);
                        assert(cur.3 == pm.3);
                        assert(cur.4 == pm.4);
                        assert(cur.6 == pm.6);
                    }
                }
                assert forall|k: int| i + 1 <= k < n implies #[trigger] self.menus@[k] == old_menus[k] by {
                    assert(self.menus@[k] == before[k]);
                }
            }
            i = i + 1;
        }
        assert(self.table() =~= old_table.map_values(|m: (MenuPage, Seq<char>, Seq<char>, MenuColor, Option<MenuPage>, Seq<(Seq<char>, Seq<char>, Option<Seq<char>>, Option<MenuPage>)>, Seq<(Seq<char>, Seq<char>, bool)>)| populated_menu(m, dv)));
    }

    /// The button rows of a page: buttons in rows of at most five, "Back"
    /// buttons in the secondary style and the others in the primary one;
    /// `None` for a page without buttons.
    pub fn build_components(&self, page: MenuPage) -> (r: Option<Vec<Vec<(&'static str, &'static str, ButtonStyle)>>>)
        requires
            self.pages_in_order(),
        ensures
            self.table()[page_index(page)].5.len() == 0 ==> r is None,
            self.table()[page_index(page)].5.len() > 0 ==> r is Some
                && rows_view(r.unwrap()@) == chunks5(self.table()[page_index(page)].5.map_values(|b: (Seq<char>, Seq<char>, Option<Seq<char>>, Option<MenuPage>)| styled(b))),
    {
        let idx = Self::index_of(page);
        let ghost mv = self.table()[idx as int];
        assert(mv == mdef_view(self.menus@[idx as int]));
        let bs = &self.menus[idx].buttons;
        let n = bs.len();
        if n == 0 {
            return None;
        }
        let ghost sb = mv.5.map_values(|b: (Seq<char>, Seq<char>, Option<Seq<char>>, Option<MenuPage>)| styled(b));
        let mut rows: Vec<Vec<(&'static str, &'static str, ButtonStyle)>> = Vec::new();
        let mut current: Vec<(&'static str, &'static str, ButtonStyle)> = Vec::new();
        let mut i: usize = 0;
        while i < n
            invariant
                n == bs@.len(),
                mv.5 == bs@.map_values(|b: MenuButton| mbutton_view(b)),
                sb == mv.5.map_values(|b: (Seq<char>, Seq<char>, Option<Seq<char>>, Option<MenuPage>)| styled(b)),
                i <= n,
                i == rows@.len() * 5 + current@.len(),
                current@.len() < 5,
                forall|k: int| 0 <= k < rows@.len() ==> #[trigger] row_view(rows@[k]@) == sb.subrange(5 * k, 5 * k + 5),
                row_view(current@) == sb.subrange(5 * rows@.len() as int, i as int),
            decreases n - i,
        {
            let b = bs[i];
            assert(mv.5[i as int] == mbutton_view(b));
            let style = if str_eq(b.label, "Back") { ButtonStyle::Secondary } else { ButtonStyle::Primary };
            let ghost prev = row_view(current@);
            current.push((b.id, b.label, style));
            assert(row_view(current@) =~= prev.push(sb[i as int]));
            assert(sb.subrange(5 * rows@.len() as int, i as int + 1) =~= sb.subrange(5 * rows@.len() as int, i as int).push(sb[i as int]));
            if current.len() == 5 {
                let ghost rprev = rows@;
                rows.push(current);
                current = Vec::new();
                assert forall|k: int| 0 <= k < rows@.len() implies #[trigger] row_view(rows@[k]@) == sb.subrange(5 * k, 5 * k + 5) by {
                    if k < rprev.len() {
                        assert(rows@[k] == rprev[k]);
                    }
                }
                assert(row_view(current@) =~= sb.subrange(5 * rows@.len() as int, i as int + 1));
            }
            i = i + 1;
        }
        if current.len() > 0 {
            let ghost rprev = rows@;
            rows.push(current);
            assert forall|k: int| 0 <= k < rows@.len() implies #[trigger] row_view(rows@[k]@) == chunks5(sb)[k] by {
                if k < rprev.len() {
                    assert(rows@[k] == rprev[k]);
                }
            }
        } else {
            assert forall|k: int| 0 <= k < rows@.len() implies #[trigger] row_view(rows@[k]@) == chunks5(sb)[k] by {
            }
        }
        assert(rows_view(rows@) =~= chunks5(sb));
        Some(rows)
    }
}

/// The first button of `bs[j..]` with id `id`.
pub open spec fn find_button(
    bs: Seq<(Seq<char>, Seq<char>, Option<Seq<char>>, Option<MenuPage>)>,
    id: Seq<char>,
    j: int,
) -> Option<(Seq<char>, Seq<char>, Option<Seq<char>>, Option<MenuPage>)>
    decreases bs.len() - j,
{
    if !(0 <= j < bs.len()) {
        None
    } else if bs[j].0 == id {
        Some(bs[j])
    } else {
        find_button(bs, id, j + 1)
    }
}

/// The target page of the first button with id `id` in `t[i..]`.
pub open spec fn target_in(
    t: Seq<(MenuPage, Seq<char>, Seq<char>, MenuColor, Option<MenuPage>, Seq<(Seq<char>, Seq<char>, Option<Seq<char>>, Option<MenuPage>)>, Seq<(Seq<char>, Seq<char>, bool)>)>,
    id: Seq<char>,
    i: int,
) -> Option<MenuPage>
    decreases t.len() - i,
{
    if !(0 <= i < t.len()) {
        None
    } else {
        match find_button(t[i].5, id, 0) {
            Some(b) => b.3,
            None => target_in(t, id, i + 1),
        }
    }
}

/// Whether `needle` occurs in `hay`.
pub open spec fn contains_sub(hay: Seq<char>, needle: Seq<char>) -> bool {
    exists|k: int| 0 <= k && k + needle.len() <= hay.len() && #[trigger] hay.subrange(k, k + needle.len()) == needle
}

/// The description table as data.
pub open spec fn descs_view(d: Seq<(&'static str, &'static str)>) -> Seq<(Seq<char>, Seq<char>)> {
    d.map_values(|x: (&'static str, &'static str)| (x.0@, x.1@))
}

/// The description of the first column of `d[k..]` that `id` contains.
pub open spec fn desc_from(d: Seq<(Seq<char>, Seq<char>)>, id: Seq<char>, k: int) -> Option<Seq<char>>
    decreases d.len() - k,
{
    if !(0 <= k < d.len()) {
        None
    } else if contains_sub(id, d[k].0) {
        Some(d[k].1)
    } else {
        desc_from(d, id, k + 1)
    }
}

/// A button with the description that the table gives it, if any.
pub open spec fn with_description(
    b: (Seq<char>, Seq<char>, Option<Seq<char>>, Option<MenuPage>),
    d: Seq<(Seq<char>, Seq<char>)>,
) -> (Seq<char>, Seq<char>, Option<Seq<char>>, Option<MenuPage>) {
    match desc_from(d, b.0, 0) {
        Some(x) => (b.0, b.1, Some(x), b.3),
        None => b,
    }
}

/// Whether some button of `bs` is labelled "Back".
pub open spec fn has_back_label(bs: Seq<(Seq<char>, Seq<char>, Option<Seq<char>>, Option<MenuPage>)>) -> bool {
    exists|j: int| 0 <= j < bs.len() && #[trigger] bs[j].1 == "Back"@
}

/// A page once descriptions are filled in and its back button added.
pub open spec fn populated_menu(
    m: (MenuPage, Seq<char>, Seq<char>, MenuColor, Option<MenuPage>, Seq<(Seq<char>, Seq<char>, Option<Seq<char>>, Option<MenuPage>)>, Seq<(Seq<char>, Seq<char>, bool)>),
    d: Seq<(Seq<char>, Seq<char>)>,
) -> (MenuPage, Seq<char>, Seq<char>, MenuColor, Option<MenuPage>, Seq<(Seq<char>, Seq<char>, Option<Seq<char>>, Option<MenuPage>)>, Seq<(Seq<char>, Seq<char>, bool)>) {
    let bs = m.5.map_values(|b: (Seq<char>, Seq<char>, Option<Seq<char>>, Option<MenuPage>)| with_description(b, d));
    let bs2 = match m.4 {
        Some(p) => if has_back_label(m.5) {
            bs
        } else {
            bs.push((back_id_for(p), "Back"@, Some("Return to previous menu"@), Some(p)))
        },
        None => bs,
    };
    (m.0, m.1, m.2, m.3, m.4, bs2, m.6)
}

/// A button with its style: secondary for "Back", primary otherwise.
pub open spec fn styled(b: (Seq<char>, Seq<char>, Option<Seq<char>>, Option<MenuPage>)) -> (Seq<char>, Seq<char>, ButtonStyle) {
    (b.0, b.1, if b.1 == "Back"@ { ButtonStyle::Secondary } else { ButtonStyle::Primary })
}

/// A button row as data.
pub open spec fn row_view(r: Seq<(&'static str, &'static str, ButtonStyle)>) -> Seq<(Seq<char>, Seq<char>, ButtonStyle)> {
    r.map_values(|x: (&'static str, &'static str, ButtonStyle)| (x.0@, x.1@, x.2))
}

/// Button rows as data.
pub open spec fn rows_view(r: Seq<Vec<(&'static str, &'static str, ButtonStyle)>>) -> Seq<Seq<(Seq<char>, Seq<char>, ButtonStyle)>> {
    r.map_values(|x: Vec<(&'static str, &'static str, ButtonStyle)>| row_view(x@))
}

/// `s` cut into rows of five (the last one possibly shorter).
pub open spec fn chunks5<T>(s: Seq<T>) -> Seq<Seq<T>> {
    Seq::new(((s.len() + 4) / 5) as nat, |k: int| s.subrange(5 * k, if 5 * k + 5 <= s.len() { 5 * k + 5 } else { s.len() as int }))
}

pub fn contains_str(hay: &str, needle: &str) -> (r: bool)
    ensures
        r == contains_sub(hay@, needle@),
{
    let n = hay.unicode_len();
    let m = needle.unicode_len();
    if m > n {
        return false;
    }
    let mut k: usize = 0;
    while k <= n - m
        invariant
            n == hay@.len(),
            m == needle@.len(),
            m <= n,
            k <= n - m + 1,
            forall|t: int| 0 <= t < k ==> #[trigger] hay@.subrange(t, t + m) != needle@,
        decreases n - m + 1 - k,
    {
        let mut j: usize = 0;
        let mut ok = true;
        while j < m
            invariant
                n == hay@.len(),
                m == needle@.len(),
                k + m <= n,
                j <= m,
                ok == (forall|t: int| 0 <= t < j ==> hay@[k + t] == needle@[t]),
            decreases m - j,
        {
            if hay.get_char(k + j) != needle.get_char(j) {
                ok = false;
            }
            j = j + 1;
        }
        if ok {
            assert(hay@.subrange(k as int, k + m) =~= needle@);
            return true;
        }
        assert(hay@.subrange(k as int, k + m) != needle@) by {
            let t = choose|t: int| 0 <= t < m && hay@[k + t] != needle@[t];
            assert(hay@.subrange(k as int, k + m)[t] != needle@[t]);
        }
        k = k + 1;
    }
    false
}

fn description_for(id: &str, descriptions: &[(&'static str, &'static str)]) -> (r: Option<&'static str>)
    ensures
        match desc_from(descs_view(descriptions@), id@, 0) {
            Some(d) => r is Some && r.unwrap()@ == d,
            None => r is None,
        },
{
    let n = descriptions.len();
    let ghost dv = descs_view(descriptions@);
    let mut k: usize = 0;
    while k < n
        invariant
            n == descriptions@.len(),
            dv == descs_view(descriptions@),
            k <= n,
            desc_from(dv, id@, 0) == desc_from(dv, id@, k as int),
        decreases n - k,
    {
        let (col, desc) = descriptions[k];
        assert(dv[k as int] == (col@, desc@));
        if contains_str(id, col) {
            return Some(desc);
        }
        k = k + 1;
    }
    None
}

/// The id of the back button added to pages whose parent is `parent`.
pub fn back_button_id(parent: MenuPage) -> (r: &'static str)
    ensures
        r@ == back_id_for(parent),
{
    match parent {
        MenuPage::GuildConfig => "guild_config_back",
        MenuPage::ServerConfig => "guild_config_server_back",
        MenuPage::RolesConfig => "guild_config_roles_back",
        MenuPage::EloConfig => "guild_config_elo_back",
        MenuPage::VcConfig => "guild_config_vc_back",
        MenuPage::GeneralConfig => "guild_config_general_back",
        MenuPage::RankConfig => "guild_config_rank_back",
        MenuPage::CategoryList => "guild_config_categories_back",
        MenuPage::CategorySettings => "guild_config_category_back",
    }
}

/// The server configuration menus with their back buttons, the button
/// descriptions being filled in from `descriptions` (config column,
/// description).
pub fn get_menu_system_with(descriptions: &[(&'static str, &'static str)]) -> (r: MenuSystem)
    ensures
        r.pages_in_order(),
        r.table() == base_table().map_values(|m: (MenuPage, Seq<char>, Seq<char>, MenuColor, Option<MenuPage>, Seq<(Seq<char>, Seq<char>, Option<Seq<char>>, Option<MenuPage>)>, Seq<(Seq<char>, Seq<char>, bool)>)| populated_menu(m, descs_view(descriptions@))),
{
    let mut system = MenuSystem::new();
    system.populate_descriptions(descriptions);
    system
}

/// The server configuration menus with their back buttons (no description
/// table given).
pub fn get_menu_system() -> (r: MenuSystem)
    ensures
        r.pages_in_order(),
        r.table() == base_table().map_values(|m: (MenuPage, Seq<char>, Seq<char>, MenuColor, Option<MenuPage>, Seq<(Seq<char>, Seq<char>, Option<Seq<char>>, Option<MenuPage>)>, Seq<(Seq<char>, Seq<char>, bool)>)| populated_menu(m, Seq::empty())),
{
    let empty: Vec<(&'static str, &'static str)> = Vec::new();
    let r = get_menu_system_with(empty.as_slice());
    assert(descs_view(empty@) =~= Seq::<(Seq<char>, Seq<char>)>::empty());
    r
}

/// The help lines of a page: `**{label}**: {description}` for each button
/// that has a description and is not a "Back" button, in order.
pub open spec fn help_lines(bs: Seq<(Seq<char>, Seq<char>, Option<Seq<char>>, Option<MenuPage>)>) -> Seq<Seq<char>>
    decreases bs.len(),
{
    if bs.len() == 0 {
        Seq::empty()
    } else {
        let b = bs.last();
        match b.2 {
            Some(d) => if b.1 != "Back"@ {
                help_lines(bs.drop_last()).push("**"@ + b.1 + "**: "@ + d)
            } else {
                help_lines(bs.drop_last())
            },
            None => help_lines(bs.drop_last()),
        }
    }
}

/// The embed of a menu page for a guild: `{guild} - {title}`, the page's
/// description and colour, its fields, then a "Help" field describing its
/// buttons when any has a description.
pub open spec fn menu_embed_spec(
    m: (MenuPage, Seq<char>, Seq<char>, MenuColor, Option<MenuPage>, Seq<(Seq<char>, Seq<char>, Option<Seq<char>>, Option<MenuPage>)>, Seq<(Seq<char>, Seq<char>, bool)>),
    guild_name: Seq<char>,
) -> MenuView {
    let help = help_lines(m.5);
    let fields = m.6.map_values(|f: (Seq<char>, Seq<char>, bool)| FieldView { name: f.0, value: f.1, inline: f.2 });
    MenuView {
        title: guild_name + " - "@ + m.1,
        description: Some(m.2),
        color: m.3.spec_value(),
        fields: if help.len() > 0 {
            fields.push(FieldView { name: "Help"@, value: join_with(help, "\n"@), inline: false })
        } else {
            fields
        },
        rows: Seq::empty(),
        footer: None,
    }
}

impl MenuSystem {
    /// The embed of a menu page for a guild. The dynamic data is not shown:
    /// no page of the server menus has dynamic fields.
    pub fn build_embed_with_dynamic(&self, page: MenuPage, guild_name: &str, dynamic_data: &[(&str, String)]) -> (r: Option<SettingsMenu>)
        requires
            self.pages_in_order(),
        ensures
            r is Some,
            r.unwrap()@ == menu_embed_spec(self.table()[page_index(page)], guild_name@),
    {
        let menu = match self.get_menu(page) {
            Some(m) => m,
            None => {
                return None;
            },
        };
        let ghost mv = self.table()[page_index(page)];
        let mut title = String::from_str(guild_name);
        title.append(" - ");
        title.append(menu.title);
        let mut embed = SettingsMenu::new(title)
            .description(String::from_str(menu.description))
            .color(menu.color.value());
        let nf = menu.fields.len();
        let ghost fv = mv.6.map_values(|f: (Seq<char>, Seq<char>, bool)| FieldView { name: f.0, value: f.1, inline: f.2 });
        let mut i: usize = 0;
        while i < nf
            invariant
                nf == menu.fields@.len(),
                mv == mdef_view(*menu),
                fv == mv.6.map_values(|f: (Seq<char>, Seq<char>, bool)| FieldView { name: f.0, value: f.1, inline: f.2 }),
                i <= nf,
                embed@.title == guild_name@ + " - "@ + mv.1,
                embed@.description == Some(mv.2),
                embed@.color == mv.3.spec_value(),
                embed@.fields == fv.take(i as int),
                embed@.rows == Seq::<crate::settings::RowView>::empty(),
                embed@.footer is None,
            decreases nf - i,
        {
            let f = menu.fields[i];
            let field = SettingsField::new(String::from_str(f.0), String::from_str(f.1)).inline(f.2);
            embed = embed.field(field);
            assert(fv.take(i as int + 1) =~= fv.take(i as int).push(fv[i as int]));
            i = i + 1;
        }
        assert(fv.take(nf as int) =~= fv);
        let nb = menu.buttons.len();
        let ghost bv = mv.5;
        let mut help = String::new();
        let mut count: usize = 0;
        let mut j: usize = 0;
        while j < nb
            invariant
                nb == menu.buttons@.len(),
                mv == mdef_view(*menu),
                bv == mv.5,
                bv == menu.buttons@.map_values(|b: MenuButton| mbutton_view(b)),
                j <= nb,
                count <= j,
                count == help_lines(bv.take(j as int)).len(),
                help@ == join_with(help_lines(bv.take(j as int)), "\n"@),
            decreases nb - j,
        {
            let b = menu.buttons[j];
            assert(bv[j as int] == mbutton_view(b));
            assert(bv.take(j as int + 1).drop_last() =~= bv.take(j as int));
            assert(bv.take(j as int + 1).last() == bv[j as int]);
            let ghost prev = help_lines(bv.take(j as int));
            match b.description {
                Some(d) => {
                    if !str_eq(b.label, "Back") {
                        if count > 0 {
                            help.append("\n");
                        }
                        help.append("**");
                        help.append(b.label);
                        help.append("**: ");
                        help.append(d);
                        count = count + 1;
                        proof {
                            let line = "**"@ + b.label@ + "**: "@ + d@;
                            assert(help_lines(bv.take(j as int + 1)) == prev.push(line));
                            assert(prev.push(line).drop_last() =~= prev);
                            if prev.len() == 0 {
                                assert(help@ =~= line);
                            } else {
                                assert(help@ =~= join_with(prev, "\n"@) + "\n"@ + line);
                            }
                        }
                    }
                },
                None => {},
            }
            j = j + 1;
        }
        assert(bv.take(nb as int) =~= bv);
        if count > 0 {
            embed = embed.field(SettingsField::new(String::from_str("Help"), help).inline(false));
        }
        Some(embed)
    }

    /// The embed of a menu page for a guild.
    pub fn build_embed(&self, page: MenuPage, guild_name: &str) -> (r: Option<SettingsMenu>)
        requires
            self.pages_in_order(),
        ensures
            r is Some,
            r.unwrap()@ == menu_embed_spec(self.table()[page_index(page)], guild_name@),
    {
        let none: Vec<(&str, String)> = Vec::new();
        self.build_embed_with_dynamic(page, guild_name, none.as_slice())
    }
}

} // verus!
