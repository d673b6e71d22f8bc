//! Navigation through the server configuration menus.

use vstd::prelude::*;
use crate::text::{str_eq, starts_with, ends_with, has_prefix, has_suffix};
use crate::menu_system::{
    MenuSystem, MenuPage, MenuButton, base_table, back_id_for, server_parent_from_back_spec, target_in, populated_menu,
    get_menu_system, mbutton_view, mdef_view, page_index, find_button, with_description, desc_from, MenuColor,
};

verus! {

/// The server configuration menus as first defined (without back buttons).
pub fn get_server_config_menu_system() -> (r: MenuSystem)
    ensures
        r.table() == base_table(),
        r.pages_in_order(),
{
    MenuSystem::new()
}

/// The ids of the buttons of `t[i..]` that lead to no page, in order.
pub open spec fn no_target_from(
    t: Seq<(MenuPage, Seq<char>, Seq<char>, crate::menu_system::MenuColor, Option<MenuPage>, Seq<(Seq<char>, Seq<char>, Option<Seq<char>>, Option<MenuPage>)>, Seq<(Seq<char>, Seq<char>, bool)>)>,
    i: int,
) -> Seq<Seq<char>>
    decreases t.len() - i,
{
    if !(0 <= i < t.len()) {
        Seq::empty()
    } else {
        no_target_in(t[i].5, 0) + no_target_from(t, i + 1)
    }
}

/// The ids of the buttons of `bs[j..]` that lead to no page, in order.
pub open spec fn no_target_in(bs: Seq<(Seq<char>, Seq<char>, Option<Seq<char>>, Option<MenuPage>)>, j: int) -> Seq<Seq<char>>
    decreases bs.len() - j,
{
    if !(0 <= j < bs.len()) {
        Seq::empty()
    } else if bs[j].3 is None {
        seq![bs[j].0] + no_target_in(bs, j + 1)
    } else {
        no_target_in(bs, j + 1)
    }
}

/// The ids of all server configuration buttons that lead to no page, that
/// is, that need a handler of their own, in page order.
pub fn verify_server_config_handlers() -> (r: Vec<&'static str>)
    ensures
        r@.map_values(|s: &'static str| s@) == no_target_from(base_table(), 0),
{
    let system = get_server_config_menu_system();
    let mut out: Vec<&'static str> = Vec::new();
    let n = system.menus.len();
    let mut i: usize = 0;
    while i < n
        invariant
            system.table() == base_table(),
            n == system.menus@.len(),
            i <= n,
            no_target_from(base_table(), 0) == out@.map_values(|s: &'static str| s@) + no_target_from(base_table(), i as int),
        decreases n - i,
    {
        let ghost mv = base_table()[i as int];
        assert(system.table()[i as int] == mdef_view(system.menus@[i as int]));
        let bs = &system.menus[i].buttons;
        let m = bs.len();
        let mut j: usize = 0;
        let ghost start = out@.map_values(|s: &'static str| s@);
        while j < m
            invariant
                m == bs@.len(),
                mv.5 == bs@.map_values(|b: MenuButton| mbutton_view(b)),
                j <= m,
                out@.map_values(|s: &'static str| s@) + no_target_in(mv.5, j as int) == start + no_target_in(mv.5, 0),
            decreases m - j,
        {
            let b = bs[j];
            assert(mv.5[j as int] == mbutton_view(b));
            if b.target_page.is_none() {
                let ghost ov = out@.map_values(|s: &'static str| s@);
                out.push(b.id);
                assert(out@.map_values(|s: &'static str| s@) =~= ov.push(b.id@));
                assert(ov + no_target_in(mv.5, j as int) =~= ov.push(b.id@) + no_target_in(mv.5, j as int + 1));
            }
            j = j + 1;
        }
        assert(out@.map_values(|s: &'static str| s@) =~= out@.map_values(|s: &'static str| s@) + no_target_in(mv.5, m as int));
        assert(start + no_target_from(base_table(), i as int) =~= start + no_target_in(mv.5, 0) + no_target_from(base_table(), i as int + 1));
        i = i + 1;
    }
    assert(out@.map_values(|s: &'static str| s@) + no_target_from(base_table(), n as int) =~= out@.map_values(|s: &'static str| s@));
    out
}

/// Whether `id` is a server configuration back button.
pub open spec fn server_is_back_spec(id: Seq<char>) -> bool {
    has_suffix(id, "_back"@) && has_prefix(id, "guild_config_"@)
}

/// The page a server configuration button leads to: the parent for a back
/// button, else the button's target in the menus with their back buttons.
pub open spec fn server_navigation_spec(id: Seq<char>) -> Option<MenuPage> {
    if server_is_back_spec(id) {
        server_parent_from_back_spec(id)
    } else {
        target_in(
            base_table().map_values(|m: (MenuPage, Seq<char>, Seq<char>, crate::menu_system::MenuColor, Option<MenuPage>, Seq<(Seq<char>, Seq<char>, Option<Seq<char>>, Option<MenuPage>)>, Seq<(Seq<char>, Seq<char>, bool)>)| populated_menu(m, Seq::empty())),
            id,
            0,
        )
    }
}

/// Helper to get navigation info from a button ID.
pub fn get_server_config_navigation_info(button_id: &str) -> (r: Option<MenuPage>)
    ensures
        r == server_navigation_spec(button_id@),
{
    if is_server_config_back_button(button_id) {
        get_server_config_parent_from_back_button(button_id)
    } else {
        get_menu_system().get_target_page(button_id)
    }
}

/// Check if a button ID is a back button.
pub fn is_server_config_back_button(button_id: &str) -> (r: bool)
    ensures
        r == server_is_back_spec(button_id@),
{
    ends_with(button_id, "_back") && starts_with(button_id, "guild_config_")
}

/// Get the parent page from a back button ID.
pub fn get_server_config_parent_from_back_button(button_id: &str) -> (r: Option<MenuPage>)
    ensures
        r == server_parent_from_back_spec(button_id@),
{
    if str_eq(button_id, "guild_config_back") {
        Some(MenuPage::GuildConfig)
    } else if str_eq(button_id, "guild_config_server_back") {
        Some(MenuPage::ServerConfig)
    } else if str_eq(button_id, "guild_config_roles_back") {
        Some(MenuPage::RolesConfig)
    } else if str_eq(button_id, "guild_config_elo_back") {
        Some(MenuPage::EloConfig)
    } else if str_eq(button_id, "guild_config_vc_back") {
        Some(MenuPage::VcConfig)
    } else if str_eq(button_id, "guild_config_general_back") {
        Some(MenuPage::GeneralConfig)
    } else if str_eq(button_id, "guild_config_rank_back") {
        Some(MenuPage::RankConfig)
    } else if str_eq(button_id, "guild_config_categories_back") {
        Some(MenuPage::CategoryList)
    } else if str_eq(button_id, "guild_config_category_back") {
        Some(MenuPage::CategorySettings)
    } else {
        None
    }
}

proof fn lemma_back_id_parent(q: MenuPage)
    ensures
        server_is_back_spec(back_id_for(q)),
        server_parent_from_back_spec(back_id_for(q)) == Some(q),
{
    reveal_strlit("_back");
    reveal_strlit("guild_config_");
    reveal_strlit("guild_config_back");
    reveal_strlit("guild_config_server_back");
    reveal_strlit("guild_config_roles_back");
    reveal_strlit("guild_config_elo_back");
    reveal_strlit("guild_config_vc_back");
    reveal_strlit("guild_config_general_back");
    reveal_strlit("guild_config_rank_back");
    reveal_strlit("guild_config_categories_back");
    reveal_strlit("guild_config_category_back");
    let id = back_id_for(q);
    assert(id.subrange(id.len() - 5, id.len() as int) =~= "_back"@);
    assert(id.subrange(0, 13) =~= "guild_config_"@);
    match q {
        MenuPage::GuildConfig => {},
        MenuPage::ServerConfig => {
            assert(id[13] != "guild_config_back"@[13]);
        },
        MenuPage::RolesConfig => {
            assert(id[13] != "guild_config_back"@[13]);
            assert(id[13] != "guild_config_server_back"@[13]);
        },
        MenuPage::EloConfig => {
            assert(id[13] != "guild_config_back"@[13]);
            assert(id[13] != "guild_config_server_back"@[13]);
            assert(id[13] != "guild_config_roles_back"@[13] || id[14] != "guild_config_roles_back"@[14]);
        },
        MenuPage::VcConfig => {
            assert(id[13] != "guild_config_back"@[13]);
            assert(id[13] != "guild_config_server_back"@[13]);
            assert(id[13] != "guild_config_roles_back"@[13] || id[14] != "guild_config_roles_back"@[14]);
            assert(id[13] != "guild_config_elo_back"@[13]);
        },
        MenuPage::GeneralConfig => {
            assert(id[13] != "guild_config_back"@[13]);
            assert(id[13] != "guild_config_server_back"@[13]);
            assert(id[13] != "guild_config_roles_back"@[13] || id[14] != "guild_config_roles_back"@[14]);
            assert(id[13] != "guild_config_elo_back"@[13]);
            assert(id[13] != "guild_config_vc_back"@[13]);
        },
        MenuPage::RankConfig => {
            assert(id[13] != "guild_config_back"@[13]);
            assert(id[13] != "guild_config_server_back"@[13]);
            assert(id[13] != "guild_config_roles_back"@[13] || id[14] != "guild_config_roles_back"@[14]);
            assert(id[13] != "guild_config_elo_back"@[13]);
            assert(id[13] != "guild_config_vc_back"@[13]);
            assert(id[13] != "guild_config_general_back"@[13]);
        },
        MenuPage::CategoryList => {
            assert(id[13] != "guild_config_back"@[13]);
            assert(id[13] != "guild_config_server_back"@[13]);
            assert(id[13] != "guild_config_roles_back"@[13] || id[14] != "guild_config_roles_back"@[14]);
            assert(id[13] != "guild_config_elo_back"@[13]);
            assert(id[13] != "guild_config_vc_back"@[13]);
            assert(id[13] != "guild_config_general_back"@[13]);
            assert(id[13] != "guild_config_rank_back"@[13]);
        },
        MenuPage::CategorySettings => {
            assert(id[13] != "guild_config_back"@[13]);
            assert(id[13] != "guild_config_server_back"@[13]);
            assert(id[13] != "guild_config_roles_back"@[13] || id[14] != "guild_config_roles_back"@[14]);
            assert(id[13] != "guild_config_elo_back"@[13]);
            assert(id[13] != "guild_config_vc_back"@[13]);
            assert(id[13] != "guild_config_general_back"@[13]);
            assert(id[13] != "guild_config_rank_back"@[13]);
            assert(id.len() != "guild_config_categories_back"@.len());
        },
    }
}

/// Every back button added to a page leads to that page's parent.
pub proof fn lemma_server_back_returns_to_parent(p: MenuPage)
    requires
        base_table()[page_index(p)].4 is Some,
    ensures
        server_navigation_spec(back_id_for(base_table()[page_index(p)].4.unwrap())) == base_table()[page_index(p)].4,
{
    lemma_back_id_parent(base_table()[page_index(p)].4.unwrap());
}

proof fn lemma_find_past_push(
    bs: Seq<(Seq<char>, Seq<char>, Option<Seq<char>>, Option<MenuPage>)>,
    x: (Seq<char>, Seq<char>, Option<Seq<char>>, Option<MenuPage>),
    id: Seq<char>,
    j: int,
)
    requires
        x.0 != id,
        0 <= j,
    ensures
        find_button(bs.push(x), id, j) == find_button(bs, id, j),
    decreases bs.len() + 1 - j,
{
    if j < bs.len() {
        assert(bs.push(x)[j] == bs[j]);
        lemma_find_past_push(bs, x, id, j + 1);
    } else if j == bs.len() {
        assert(bs.push(x)[j] == x);
        assert(find_button(bs.push(x), id, j + 1) is None);
    }
}

proof fn lemma_populated_find(
    m: (MenuPage, Seq<char>, Seq<char>, MenuColor, Option<MenuPage>, Seq<(Seq<char>, Seq<char>, Option<Seq<char>>, Option<MenuPage>)>, Seq<(Seq<char>, Seq<char>, bool)>),
    id: Seq<char>,
)
    requires
        !server_is_back_spec(id),
    ensures
        find_button(populated_menu(m, Seq::empty()).5, id, 0) == find_button(m.5, id, 0),
{
    let bs = m.5.map_values(|b: (Seq<char>, Seq<char>, Option<Seq<char>>, Option<MenuPage>)| with_description(b, Seq::empty()));
    assert forall|k: int| 0 <= k < m.5.len() implies #[trigger] bs[k] == m.5[k] by {
        assert(desc_from(Seq::empty(), m.5[k].0, 0) is None);
    }
    assert(bs =~= m.5);
    match m.4 {
        Some(p) => {
            lemma_back_id_parent(p);
            lemma_find_past_push(m.5, (back_id_for(p), "Back"@, Some("Return to previous menu"@), Some(p)), id, 0);
        },
        None => {},
    }
}

proof fn lemma_populated_target(id: Seq<char>, i: int)
    requires
        !server_is_back_spec(id),
        0 <= i <= base_table().len(),
    ensures
        target_in(
            base_table().map_values(|m: (MenuPage, Seq<char>, Seq<char>, MenuColor, Option<MenuPage>, Seq<(Seq<char>, Seq<char>, Option<Seq<char>>, Option<MenuPage>)>, Seq<(Seq<char>, Seq<char>, bool)>)| populated_menu(m, Seq::empty())),
            id,
            i,
        ) == target_in(base_table(), id, i),
    decreases base_table().len() - i,
{
    let pt = base_table().map_values(|m: (MenuPage, Seq<char>, Seq<char>, MenuColor, Option<MenuPage>, Seq<(Seq<char>, Seq<char>, Option<Seq<char>>, Option<MenuPage>)>, Seq<(Seq<char>, Seq<char>, bool)>)| populated_menu(m, Seq::empty()));
    if i < base_table().len() {
        assert(pt[i] == populated_menu(base_table()[i], Seq::empty()));
        lemma_populated_find(base_table()[i], id);
        lemma_populated_target(id, i + 1);
    }
}

/// Navigation from a server configuration button: a back button leads to
/// the parent it names; any other button leads where the button with that
/// id in the menus as first defined leads (the added back buttons change
/// nothing for it), and nowhere when no button has that id.
pub proof fn lemma_navigation_by_table(id: Seq<char>)
    ensures
        server_navigation_spec(id) == (if server_is_back_spec(id) {
            server_parent_from_back_spec(id)
        } else {
            target_in(base_table(), id, 0)
        }),
{
    if !server_is_back_spec(id) {
        lemma_populated_target(id, 0);
    }
}

} // verus!
