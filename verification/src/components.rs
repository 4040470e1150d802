//! The message components the bot offers (buttons, select menus and the
//! rows that hold them), and the error for a component that cannot be read
//! back.
use vstd::prelude::*;

verus! {

/// How a button is drawn.
#[derive(Clone, Copy, Debug, PartialEq, Eq, Structural)]
pub enum ButtonStyle {
    Primary,
    Secondary,
    Success,
    Danger,
}

/// A button: the id that comes back when it is pressed, its label, an
/// optional emoji and its style.
#[derive(Clone, Debug)]
pub struct Button {
    pub custom_id: String,
    pub label: String,
    pub emoji: Option<char>,
    pub style: ButtonStyle,
}

/// What a button shows, as text.
pub struct ButtonView {
    pub custom_id: Seq<char>,
    pub label: Seq<char>,
    pub emoji: Option<char>,
    pub style: ButtonStyle,
}

impl View for Button {
    type V = ButtonView;

    open spec fn view(&self) -> ButtonView {
        ButtonView {
            custom_id: self.custom_id@,
            label: self.label@,
            emoji: self.emoji,
            style: self.style,
        }
    }
}

/// One choice of a select menu: what it shows and the value it sends back.
#[derive(Clone, Debug)]
pub struct MenuOption {
    pub label: String,
    pub value: String,
}

/// What a menu option shows and sends, as text.
pub struct MenuOptionView {
    pub label: Seq<char>,
    pub value: Seq<char>,
}

impl View for MenuOption {
    type V = MenuOptionView;

    open spec fn view(&self) -> MenuOptionView {
        MenuOptionView { label: self.label@, value: self.value@ }
    }
}

/// A select menu: its id, the text shown while nothing is chosen, and its
/// options in order.
#[derive(Clone, Debug)]
pub struct SelectMenu {
    pub custom_id: String,
    pub placeholder: String,
    pub options: Vec<MenuOption>,
}

/// What a select menu holds, as text.
pub struct SelectMenuView {
    pub custom_id: Seq<char>,
    pub placeholder: Seq<char>,
    pub options: Seq<MenuOptionView>,
}

impl View for SelectMenu {
    type V = SelectMenuView;

    open spec fn view(&self) -> SelectMenuView {
        SelectMenuView {
            custom_id: self.custom_id@,
            placeholder: self.placeholder@,
            options: self.options@.map_values(|o: MenuOption| o@),
        }
    }
}

/// One component of an action row.
#[derive(Clone, Debug)]
pub enum Component {
    Button(Button),
    SelectMenu(SelectMenu),
}

/// What a component holds, as text.
pub enum ComponentView {
    Button(ButtonView),
    SelectMenu(SelectMenuView),
}

impl View for Component {
    type V = ComponentView;

    open spec fn view(&self) -> ComponentView {
        match self {
            Component::Button(b) => ComponentView::Button(b@),
            Component::SelectMenu(m) => ComponentView::SelectMenu(m@),
        }
    }
}

/// A row of components, in the order they were added.
#[derive(Clone, Debug)]
pub struct ActionRow {
    pub components: Vec<Component>,
}

impl View for ActionRow {
    type V = Seq<ComponentView>;

    open spec fn view(&self) -> Seq<ComponentView> {
        self.components@.map_values(|c: Component| c@)
    }
}

/// The text of the message that says a component could not be read.
pub open spec fn parse_failure_message(input: Seq<char>) -> Seq<char> {
    "Failed to parse "@ + input + " as a component"@
}

/// A text that names no component.
#[derive(Clone, Debug)]
pub struct ParseComponentError(String);

impl ParseComponentError {
    /// Records the text that could not be read.
    pub fn new(input: &str) -> (e: ParseComponentError)
        ensures
            e.input() == input@,
    {
        ParseComponentError(input.to_owned())
    }

    /// The text that could not be read.
    pub closed spec fn input(&self) -> Seq<char> {
        self.0@
    }

    /// The message shown for this error.
    pub fn message(&self) -> (m: String)
        ensures
            m@ == parse_failure_message(self.input()),
    {
        let mut m = "Failed to parse ".to_owned();
        m.append(self.0.as_str());
        m.append(" as a component");
        m
    }
}

} // verus!
