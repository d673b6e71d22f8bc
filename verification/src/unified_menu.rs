//! Menu pages as data: pages with buttons, fields and components, shared by
//! the preference menus.

use vstd::prelude::*;

verus! {

/// Button type for menu actions.
#[derive(Debug, Clone, Copy, PartialEq, Eq)]
pub enum ButtonType {
    /// Toggle button (on/off state)
    Toggle,
    /// Edit button (opens modal/selector)
    Edit,
    /// Navigation button (goes to another page)
    Nav,
    /// Action button (performs an action)
    Action,
}

/// A field whose value is computed from the user's preferences.
#[derive(Debug, Clone, Copy, PartialEq, Eq)]
pub enum DynamicField {
    /// The queue timeout, as `2h` or `90m`
    QueueTimeout,
}

/// A component row computed from the user's preferences.
#[derive(Debug, Clone, Copy, PartialEq, Eq)]
pub enum DynamicComponent {
    /// DM alerts toggle
    DmToggle,
    /// Voice auto-join toggle
    VcAutoJoin,
    /// Voice auto-leave toggle
    VcAutoLeave,
    /// Leave the queue on voice disconnect toggle
    VcLeaveQueue,
    /// Queue timeout choices: 30 minutes, 1 and 2 hours
    QueueTimeoutButtons,
    /// Queue timeout choices: 3 and 4 hours, and cancel
    QueueTimeoutCancel,
}

/// Menu button definition.
#[derive(Debug, Clone, Copy)]
pub struct MenuButton<Page> {
    pub id: &'static str,
    pub label: &'static str,
    pub description: Option<&'static str>,
    pub target_page: Option<Page>,
    pub button_type: ButtonType,
}

/// Menu page definition.
#[derive(Debug)]
pub struct MenuDefinition<Page> {
    pub page: Page,
    pub title: &'static str,
    pub description: &'static str,
    pub color: u32,
    pub parent: Option<Page>,
    pub buttons: Vec<MenuButton<Page>>,
    pub fields: Vec<(&'static str, &'static str, bool)>,
    pub dynamic_fields: Vec<(&'static str, DynamicField, bool)>,
    pub dynamic_components: Vec<DynamicComponent>,
}

/// A menu page as data.
pub struct MenuView<Page> {
    pub page: Page,
    pub title: Seq<char>,
    pub description: Seq<char>,
    pub color: u32,
    pub parent: Option<Page>,
    pub buttons: Seq<(Seq<char>, Seq<char>, Option<Seq<char>>, Option<Page>, ButtonType)>,
    pub fields: Seq<(Seq<char>, Seq<char>, bool)>,
    pub dynamic_fields: Seq<(Seq<char>, DynamicField, bool)>,
    pub dynamic_components: Seq<DynamicComponent>,
}

/// A button as data: (id, label, description, target page, type).
pub open spec fn button_view<Page>(b: MenuButton<Page>) -> (Seq<char>, Seq<char>, Option<Seq<char>>, Option<Page>, ButtonType) {
    (b.id@, b.label@, match b.description { Some(d) => Some(d@), None => None }, b.target_page, b.button_type)
}

/// A menu page as data.
pub open spec fn menu_view<Page>(m: MenuDefinition<Page>) -> MenuView<Page> {
    MenuView {
        page: m.page,
        title: m.title@,
        description: m.description@,
        color: m.color,
        parent: m.parent,
        buttons: m.buttons@.map_values(|b: MenuButton<Page>| button_view(b)),
        fields: m.fields@.map_values(|f: (&'static str, &'static str, bool)| (f.0@, f.1@, f.2)),
        dynamic_fields: m.dynamic_fields@.map_values(|f: (&'static str, DynamicField, bool)| (f.0@, f.1, f.2)),
        dynamic_components: m.dynamic_components@,
    }
}

} // verus!
