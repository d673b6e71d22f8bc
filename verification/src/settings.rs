//! Settings menus as data: fields, buttons and component rows, and the
//! pages of server and category settings built from them.

use vstd::prelude::*;
use vstd::string::*;
use crate::text::{dec, push_dec};

verus! {

/// Up to this many options (exclusive) a choice is offered as buttons.
pub const LIST_THRESHOLD: usize = 5;

/// Colour of the settings pages (Discord blurple).
pub const SETTINGS_COLOR: u32 = 0x5865F2;

/// Style of a settings button.
#[derive(Debug, Clone, Copy, PartialEq, Eq, Structural)]
pub enum SettingsButtonStyle {
    Primary,
    Secondary,
    Success,
    Danger,
}

/// A field displayed in the settings embed.
pub struct SettingsField {
    pub name: String,
    pub value: String,
    pub inline: bool,
}

/// A field as data.
pub struct FieldView {
    pub name: Seq<char>,
    pub value: Seq<char>,
    pub inline: bool,
}

impl View for SettingsField {
    type V = FieldView;

    open spec fn view(&self) -> FieldView {
        FieldView { name: self.name@, value: self.value@, inline: self.inline }
    }
}

impl SettingsField {
    /// A field shown inline.
    pub fn new(name: String, value: String) -> (r: Self)
        ensures
            r@ == (FieldView { name: name@, value: value@, inline: true }),
    {
        SettingsField { name, value, inline: true }
    }

    /// The same field, inline or not.
    pub fn inline(self, inline: bool) -> (r: Self)
        ensures
            r@ == (FieldView { name: self@.name, value: self@.value, inline }),
    {
        SettingsField { name: self.name, value: self.value, inline }
    }
}

/// A button in a settings menu.
pub struct SettingsButton {
    pub id: String,
    pub label: String,
    pub style: SettingsButtonStyle,
    pub disabled: bool,
}

/// A button as data.
pub struct ButtonView {
    pub id: Seq<char>,
    pub label: Seq<char>,
    pub style: SettingsButtonStyle,
    pub disabled: bool,
}

impl View for SettingsButton {
    type V = ButtonView;

    open spec fn view(&self) -> ButtonView {
        ButtonView { id: self.id@, label: self.label@, style: self.style, disabled: self.disabled }
    }
}

/// An enabled button as data.
pub open spec fn btn(id: Seq<char>, label: Seq<char>, style: SettingsButtonStyle) -> ButtonView {
    ButtonView { id, label, style, disabled: false }
}

/// The id of a button scoped to a category:
/// `category_settings_{action}_{category_id}`.
pub open spec fn category_button_id(action: Seq<char>, category_id: u8) -> Seq<char> {
    "category_settings_"@ + action + "_"@ + dec(category_id as nat)
}

/// Green for a setting that is on, red for one that is off.
pub open spec fn state_style(enabled: bool) -> SettingsButtonStyle {
    if enabled { SettingsButtonStyle::Success } else { SettingsButtonStyle::Danger }
}

/// A toggle's label: the setting's name, then ` enabled` or ` disabled`.
pub open spec fn toggle_label(label: Seq<char>, enabled: bool) -> Seq<char> {
    label + if enabled { " enabled"@ } else { " disabled"@ }
}

impl SettingsButton {
    /// A toggle: the setting's name followed by its state, green when
    /// enabled, red when not.
    pub fn toggle(id: String, label: String, enabled: bool) -> (r: Self)
        ensures
            r@ == btn(id@, toggle_label(label@, enabled), state_style(enabled)),
    {
        let mut text = label;
        if enabled {
            text.append(" enabled");
        } else {
            text.append(" disabled");
        }
        SettingsButton {
            id,
            label: text,
            style: if enabled { SettingsButtonStyle::Success } else { SettingsButtonStyle::Danger },
            disabled: false,
        }
    }

    /// A primary button that opens an editor.
    pub fn edit(id: String, label: String) -> (r: Self)
        ensures
            r@ == btn(id@, label@, SettingsButtonStyle::Primary),
    {
        SettingsButton { id, label, style: SettingsButtonStyle::Primary, disabled: false }
    }

    /// A button with the given style.
    pub fn action(id: String, label: String, style: SettingsButtonStyle) -> (r: Self)
        ensures
            r@ == btn(id@, label@, style),
    {
        SettingsButton { id, label, style, disabled: false }
    }

    /// The same button, disabled or not.
    pub fn disabled(self, disabled: bool) -> (r: Self)
        ensures
            r@ == (ButtonView { id: self@.id, label: self@.label, style: self@.style, disabled }),
    {
        SettingsButton { id: self.id, label: self.label, style: self.style, disabled }
    }

    /// An edit button scoped to a category.
    pub fn category_edit(action: &str, label: String, category_id: u8) -> (r: Self)
        ensures
            r@ == btn(category_button_id(action@, category_id), label@, SettingsButtonStyle::Primary),
    {
        Self::edit(category_id_string(action, category_id), label)
    }

    /// An action button scoped to a category.
    pub fn category_action(action: &str, label: String, style: SettingsButtonStyle, category_id: u8) -> (r: Self)
        ensures
            r@ == btn(category_button_id(action@, category_id), label@, style),
    {
        Self::action(category_id_string(action, category_id), label, style)
    }
}

/// Ephemeral replies, and their Back button.
pub struct Ephemeral {}

impl Ephemeral {
    /// A secondary `Back` button with id `id`.
    pub fn back(id: String) -> (r: SettingsButton)
        ensures
            r@ == btn(id@, "Back"@, SettingsButtonStyle::Secondary),
    {
        SettingsButton::action(id, String::from_str("Back"), SettingsButtonStyle::Secondary)
    }
}

fn category_id_string(action: &str, category_id: u8) -> (r: String)
    ensures
        r@ == category_button_id(action@, category_id),
{
    let mut s = String::from_str("category_settings_");
    s.append(action);
    s.append("_");
    push_dec(&mut s, category_id as u64);
    s
}

/// A row of components.
pub enum SettingsRow {
    Buttons(Vec<SettingsButton>),
    RoleSelect { id: String, placeholder: String, default: Option<u64> },
    StringSelect { id: String, placeholder: String, options: Vec<(String, String)> },
}

/// A row as data.
pub enum RowView {
    Buttons(Seq<ButtonView>),
    RoleSelect { id: Seq<char>, placeholder: Seq<char>, default: Option<u64> },
    StringSelect { id: Seq<char>, placeholder: Seq<char>, options: Seq<(Seq<char>, Seq<char>)> },
}

/// Buttons as data.
pub open spec fn buttons_view(bs: Seq<SettingsButton>) -> Seq<ButtonView> {
    bs.map_values(|b: SettingsButton| b@)
}

/// Options (label, value) as data.
pub open spec fn options_view(os: Seq<(String, String)>) -> Seq<(Seq<char>, Seq<char>)> {
    os.map_values(|o: (String, String)| (o.0@, o.1@))
}

impl View for SettingsRow {
    type V = RowView;

    open spec fn view(&self) -> RowView {
        match self {
            SettingsRow::Buttons(bs) => RowView::Buttons(buttons_view(bs@)),
            SettingsRow::RoleSelect { id, placeholder, default } => RowView::RoleSelect {
                id: id@,
                placeholder: placeholder@,
                default: *default,
            },
            SettingsRow::StringSelect { id, placeholder, options } => RowView::StringSelect {
                id: id@,
                placeholder: placeholder@,
                options: options_view(options@),
            },
        }
    }
}

/// A settings page: an embed and its component rows.
pub struct SettingsMenu {
    pub title: String,
    pub description: Option<String>,
    pub color: u32,
    pub fields: Vec<SettingsField>,
    pub rows: Vec<SettingsRow>,
    pub footer: Option<String>,
}

/// A settings page as data.
pub struct MenuView {
    pub title: Seq<char>,
    pub description: Option<Seq<char>>,
    pub color: u32,
    pub fields: Seq<FieldView>,
    pub rows: Seq<RowView>,
    pub footer: Option<Seq<char>>,
}

/// An optional string as data.
pub open spec fn opt_str(o: Option<String>) -> Option<Seq<char>> {
    match o {
        Some(s) => Some(s@),
        None => None,
    }
}

impl View for SettingsMenu {
    type V = MenuView;

    open spec fn view(&self) -> MenuView {
        MenuView {
            title: self.title@,
            description: opt_str(self.description),
            color: self.color,
            fields: self.fields@.map_values(|f: SettingsField| f@),
            rows: self.rows@.map_values(|r: SettingsRow| r@),
            footer: opt_str(self.footer),
        }
    }
}

impl SettingsMenu {
    /// An empty page with a title, in the settings colour.
    pub fn new(title: String) -> (r: Self)
        ensures
            r@ == (MenuView {
                title: title@,
                description: None,
                color: SETTINGS_COLOR,
                fields: Seq::empty(),
                rows: Seq::empty(),
                footer: None,
            }),
    {
        let r = SettingsMenu {
            title,
            description: None,
            color: SETTINGS_COLOR,
            fields: Vec::new(),
            rows: Vec::new(),
            footer: None,
        };
        assert(r@.fields =~= Seq::<FieldView>::empty());
        assert(r@.rows =~= Seq::<RowView>::empty());
        r
    }

    /// The same page with a description.
    pub fn description(self, desc: String) -> (r: Self)
        ensures
            r@ == (MenuView { description: Some(desc@), ..self@ }),
    {
        SettingsMenu { description: Some(desc), ..self }
    }

    /// The same page in another colour.
    pub fn color(self, color: u32) -> (r: Self)
        ensures
            r@ == (MenuView { color, ..self@ }),
    {
        SettingsMenu { color, ..self }
    }

    /// The same page with one more field at the end.
    pub fn field(self, field: SettingsField) -> (r: Self)
        ensures
            r@ == (MenuView { fields: self@.fields.push(field@), ..self@ }),
    {
        let mut m = self;
        let ghost before = m.fields@;
        m.fields.push(field);
        assert(m.fields@.map_values(|f: SettingsField| f@) =~= before.map_values(|f: SettingsField| f@).push(field@));
        m
    }

    /// The same page with one more row at the end.
    pub fn row(self, row: SettingsRow) -> (r: Self)
        ensures
            r@ == (MenuView { rows: self@.rows.push(row@), ..self@ }),
    {
        let mut m = self;
        let ghost before = m.rows@;
        m.rows.push(row);
        assert(m.rows@.map_values(|r: SettingsRow| r@) =~= before.map_values(|r: SettingsRow| r@).push(row@));
        m
    }

    /// The same page with a footer.
    pub fn footer(self, footer: String) -> (r: Self)
        ensures
            r@ == (MenuView { footer: Some(footer@), ..self@ }),
    {
        SettingsMenu { footer: Some(footer), ..self }
    }
}

/// The id of a choice button: `{menu_id}_{value}`.
pub open spec fn choice_id(menu_id: Seq<char>, value: Seq<char>) -> Seq<char> {
    menu_id + "_"@ + value
}

/// How a choice among `options` is offered: nothing for no option, one
/// primary button for one, secondary buttons below the threshold, else a
/// select menu.
pub open spec fn selection_spec(menu_id: Seq<char>, placeholder: Seq<char>, options: Seq<(Seq<char>, Seq<char>)>) -> Option<RowView> {
    if options.len() == 0 {
        None
    } else if options.len() == 1 {
        Some(RowView::Buttons(seq![btn(choice_id(menu_id, options[0].1), options[0].0, SettingsButtonStyle::Primary)]))
    } else if options.len() < LIST_THRESHOLD {
        Some(RowView::Buttons(options.map_values(|o: (Seq<char>, Seq<char>)|
            btn(choice_id(menu_id, o.1), o.0, SettingsButtonStyle::Secondary))))
    } else {
        Some(RowView::StringSelect { id: menu_id, placeholder, options })
    }
}

fn choice_string(menu_id: &str, value: &String) -> (r: String)
    ensures
        r@ == choice_id(menu_id@, value@),
{
    let mut s = String::from_str(menu_id);
    s.append("_");
    s.append(value.as_str());
    s
}

/// Offers a choice among (label, value) options in the way that suits
/// their number.
pub fn create_selection_menu(menu_id: &str, placeholder: &str, options: Vec<(String, String)>) -> (r: Option<SettingsRow>)
    ensures
        match r {
            Some(row) => selection_spec(menu_id@, placeholder@, options_view(options@)) == Some(row@),
            None => selection_spec(menu_id@, placeholder@, options_view(options@)) is None,
        },
{
    let n = options.len();
    if n == 0 {
        return None;
    }
    if n < LIST_THRESHOLD {
        let style = if n == 1 { SettingsButtonStyle::Primary } else { SettingsButtonStyle::Secondary };
        let ghost ov = options_view(options@);
        let mut buttons: Vec<SettingsButton> = Vec::new();
        let mut i: usize = 0;
        while i < n
            invariant
                n == options@.len(),
                ov == options_view(options@),
                i <= n,
                buttons@.len() == i,
                forall|k: int| 0 <= k < i ==> #[trigger] buttons@[k]@ == btn(choice_id(menu_id@, ov[k].1), ov[k].0, style),
            decreases n - i,
        {
            let id = choice_string(menu_id, &options[i].1);
            let label = options[i].0.clone();
            buttons.push(SettingsButton { id, label, style, disabled: false });
            i = i + 1;
        }
        let row = SettingsRow::Buttons(buttons);
        proof {
            let bv = buttons_view(buttons@);
            if n == 1 {
                assert(bv =~= seq![btn(choice_id(menu_id@, ov[0].1), ov[0].0, SettingsButtonStyle::Primary)]);
            } else {
                assert(bv =~= ov.map_values(|o: (Seq<char>, Seq<char>)|
                    btn(choice_id(menu_id@, o.1), o.0, SettingsButtonStyle::Secondary)));
            }
        }
        Some(row)
    } else {
        Some(SettingsRow::StringSelect {
            id: String::from_str(menu_id),
            placeholder: String::from_str(placeholder),
            options,
        })
    }
}

/// The queue timeout as shown in preferences: whole hours as `Nh`, other
/// lengths as `Nm`.
pub open spec fn timeout_text(minutes: u64) -> Seq<char> {
    if minutes >= 60 && minutes % 60 == 0 {
        dec((minutes / 60) as nat) + "h"@
    } else {
        dec(minutes as nat) + "m"@
    }
}

/// The queue timeout as shown in preferences.
pub fn queue_timeout_text(minutes: u64) -> (r: String)
    ensures
        r@ == timeout_text(minutes),
{
    let mut s = String::new();
    if minutes >= 60 && minutes % 60 == 0 {
        push_dec(&mut s, minutes / 60);
        s.append("h");
    } else {
        push_dec(&mut s, minutes);
        s.append("m");
    }
    assert(s@ =~= timeout_text(minutes));
    s
}

} // verus!
