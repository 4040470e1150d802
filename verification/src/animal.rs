//! The animals of the animal select menu.
use vstd::prelude::*;
use crate::components::{ActionRow, Component, MenuOption, SelectMenu};
use crate::text::{ascii_lowercase, push_char, to_ascii_lowercase, str_eq};

pub use crate::components::ParseComponentError;

verus! {

/// An animal a user can pick.
#[derive(Clone, Copy, Debug, PartialEq, Eq, Structural)]
pub enum Animal {
    Cat,
    Dog,
    Horse,
    Alpaca,
}

impl Animal {
    /// The name the animal is shown by.
    pub open spec fn name_of(self) -> Seq<char> {
        match self {
            Animal::Cat => "Cat"@,
            Animal::Dog => "Dog"@,
            Animal::Horse => "Horse"@,
            Animal::Alpaca => "Alpaca"@,
        }
    }

    /// The animal a text names, if any: its name in lowercase.
    pub open spec fn from_name(s: Seq<char>) -> Option<Animal> {
        if s == "cat"@ {
            Some(Animal::Cat)
        } else if s == "dog"@ {
            Some(Animal::Dog)
        } else if s == "horse"@ {
            Some(Animal::Horse)
        } else if s == "alpaca"@ {
            Some(Animal::Alpaca)
        } else {
            None
        }
    }

    /// The emoji of the animal.
    pub open spec fn emoji_of(self) -> char {
        match self {
            Animal::Cat => '\u{1F408}',
            Animal::Dog => '\u{1F415}',
            Animal::Horse => '\u{1F40E}',
            Animal::Alpaca => '\u{1F999}',
        }
    }

    /// The label of the animal's menu option: its emoji in backticks, a
    /// space, then its name.
    pub open spec fn option_label(self) -> Seq<char> {
        seq!['`', self.emoji_of(), '`', ' '] + self.name_of()
    }

    /// The animals of the menu, in the order they are offered.
    pub open spec fn menu_order() -> Seq<Animal> {
        seq![Animal::Cat, Animal::Dog, Animal::Horse, Animal::Alpaca]
    }

    /// The name of the animal, as its `Display` writes it.
    pub fn display(&self) -> (s: String)
        ensures
            s@ == self.name_of(),
    {
        match self {
            Animal::Cat => "Cat".to_owned(),
            Animal::Dog => "Dog".to_owned(),
            Animal::Horse => "Horse".to_owned(),
            Animal::Alpaca => "Alpaca".to_owned(),
        }
    }

    /// Reads an animal from the value its menu option sends back.
    pub fn parse(s: &str) -> (r: Result<Animal, ParseComponentError>)
        ensures
            match r {
                Ok(a) => Animal::from_name(s@) == Some(a),
                Err(e) => Animal::from_name(s@) is None && e.input() == s@,
            },
    {
        if str_eq(s, "cat") {
            Ok(Animal::Cat)
        } else if str_eq(s, "dog") {
            Ok(Animal::Dog)
        } else if str_eq(s, "horse") {
            Ok(Animal::Horse)
        } else if str_eq(s, "alpaca") {
            Ok(Animal::Alpaca)
        } else {
            Err(ParseComponentError::new(s))
        }
    }

    /// The emoji of the animal.
    pub fn emoji(&self) -> (c: char)
        ensures
            c == self.emoji_of(),
    {
        match self {
            Animal::Cat => '\u{1F408}',
            Animal::Dog => '\u{1F415}',
            Animal::Horse => '\u{1F40E}',
            Animal::Alpaca => '\u{1F999}',
        }
    }

    /// The option of the animal in the select menu: labelled with its emoji
    /// and name, sending back its name in lowercase.
    pub fn menu_option(&self) -> (o: MenuOption)
        ensures
            o@.label == self.option_label(),
            o@.value == ascii_lowercase(self.name_of()),
    {
        let name = self.display();
        let mut label = String::new();
        push_char(&mut label, '`');
        push_char(&mut label, self.emoji());
        push_char(&mut label, '`');
        push_char(&mut label, ' ');
        label.append(name.as_str());
        assert(label@ =~= self.option_label());
        let value = to_ascii_lowercase(name.as_str());
        MenuOption { label, value }
    }

    /// The select menu offering every animal.
    pub fn select_menu() -> (m: SelectMenu)
        ensures
            m@.custom_id == "animal_select"@,
            m@.placeholder == "No animal selected"@,
            m@.options.len() == 4,
            forall|i: int|
                0 <= i < 4 ==> {
                    &&& #[trigger] m@.options[i].label == Animal::menu_order()[i].option_label()
                    &&& m@.options[i].value == ascii_lowercase(Animal::menu_order()[i].name_of())
                },
    {
        let mut options: Vec<MenuOption> = Vec::new();
        options.push(Animal::Cat.menu_option());
        options.push(Animal::Dog.menu_option());
        options.push(Animal::Horse.menu_option());
        options.push(Animal::Alpaca.menu_option());
        SelectMenu {
            custom_id: "animal_select".to_owned(),
            placeholder: "No animal selected".to_owned(),
            options,
        }
    }

    /// The action row holding the animal select menu and nothing else.
    pub fn action_row() -> (ar: ActionRow)
        ensures
            ar.components@.len() == 1,
            ar.components@[0] matches Component::SelectMenu(m) && {
                &&& m@.custom_id == "animal_select"@
                &&& m@.placeholder == "No animal selected"@
                &&& m@.options.len() == 4
                &&& forall|i: int|
                    0 <= i < 4 ==> {
                        &&& #[trigger] m@.options[i].label == Animal::menu_order()[i].option_label()
                        &&& m@.options[i].value == ascii_lowercase(
                            Animal::menu_order()[i].name_of(),
                        )
                    }
            },
    {
        let mut components: Vec<Component> = Vec::new();
        components.push(Component::SelectMenu(Animal::select_menu()));
        ActionRow { components }
    }
}

impl std::str::FromStr for Animal {
    type Err = ParseComponentError;

    fn from_str(s: &str) -> (r: Result<Animal, ParseComponentError>)
        ensures
            match r {
                Ok(a) => Animal::from_name(s@) == Some(a),
                Err(e) => Animal::from_name(s@) is None && e.input() == s@,
            },
    {
        Animal::parse(s)
    }
}

/// Every animal's menu option sends back a value that reads as that same
/// animal.
pub proof fn lemma_option_value_reads_back(a: Animal)
    ensures
        Animal::from_name(ascii_lowercase(a.name_of())) == Some(a),
{
    reveal_strlit("Cat");
    reveal_strlit("Dog");
    reveal_strlit("Horse");
    reveal_strlit("Alpaca");
    reveal_strlit("cat");
    reveal_strlit("dog");
    reveal_strlit("horse");
    reveal_strlit("alpaca");
    let low = ascii_lowercase(a.name_of());
    match a {
        Animal::Cat => {
            assert(low =~= "cat"@);
        },
        Animal::Dog => {
            assert(low =~= "dog"@);
            assert(low[0] != "cat"@[0]);
        },
        Animal::Horse => {
            assert(low =~= "horse"@);
            assert(low.len() != "cat"@.len() && low.len() != "dog"@.len());
        },
        Animal::Alpaca => {
            assert(low =~= "alpaca"@);
            assert(low.len() != "cat"@.len() && low.len() != "dog"@.len());
            assert(low.len() != "horse"@.len());
        },
    }
}

} // verus!
