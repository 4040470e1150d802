//! The sounds of the sound buttons, one for each animal.
use vstd::prelude::*;
use crate::animal::Animal;
use crate::components::{ActionRow, Button, ButtonStyle, Component, ParseComponentError};
use crate::text::{ascii_lowercase, to_ascii_lowercase, str_eq};

verus! {

/// A sound an animal makes.
#[derive(Clone, Copy, Debug, PartialEq, Eq, Structural)]
pub enum Sound {
    Meow,
    Bark,
    Neigh,
    Moo,
}

impl Sound {
    /// The text the sound is shown by.
    pub open spec fn name_of(self) -> Seq<char> {
        match self {
            Sound::Meow => "meow!"@,
            Sound::Bark => "ruff ruff!"@,
            Sound::Neigh => "neighhh!"@,
            Sound::Moo => "moooo!"@,
        }
    }

    /// The sound a text names, if any.
    pub open spec fn from_name(s: Seq<char>) -> Option<Sound> {
        if s == "meow!"@ {
            Some(Sound::Meow)
        } else if s == "ruff ruff!"@ {
            Some(Sound::Bark)
        } else if s == "neighhh!"@ {
            Some(Sound::Neigh)
        } else if s == "moooo!"@ {
            Some(Sound::Moo)
        } else {
            None
        }
    }

    /// The animal that makes the sound.
    pub open spec fn animal_of(self) -> Animal {
        match self {
            Sound::Meow => Animal::Cat,
            Sound::Bark => Animal::Dog,
            Sound::Neigh => Animal::Horse,
            Sound::Moo => Animal::Alpaca,
        }
    }

    /// The sounds of the button row, in the order they are offered.
    pub open spec fn row_order() -> Seq<Sound> {
        seq![Sound::Meow, Sound::Bark, Sound::Neigh, Sound::Moo]
    }

    /// What the button of a sound holds: its text in lowercase as id, its
    /// text as label, the emoji of its animal, the primary style.
    pub open spec fn button_matches(self, b: crate::components::ButtonView) -> bool {
        &&& b.custom_id == ascii_lowercase(self.name_of())
        &&& b.label == self.name_of()
        &&& b.emoji == Some(self.animal_of().emoji_of())
        &&& b.style == ButtonStyle::Primary
    }

    /// The text of the sound, as its `Display` writes it.
    pub fn display(&self) -> (s: String)
        ensures
            s@ == self.name_of(),
    {
        match self {
            Sound::Meow => "meow!".to_owned(),
            Sound::Bark => "ruff ruff!".to_owned(),
            Sound::Neigh => "neighhh!".to_owned(),
            Sound::Moo => "moooo!".to_owned(),
        }
    }

    /// Reads a sound from its text.
    pub fn parse(s: &str) -> (r: Result<Sound, ParseComponentError>)
        ensures
            match r {
                Ok(snd) => Sound::from_name(s@) == Some(snd),
                Err(e) => Sound::from_name(s@) is None && e.input() == s@,
            },
    {
        if str_eq(s, "meow!") {
            Ok(Sound::Meow)
        } else if str_eq(s, "ruff ruff!") {
            Ok(Sound::Bark)
        } else if str_eq(s, "neighhh!") {
            Ok(Sound::Neigh)
        } else if str_eq(s, "moooo!") {
            Ok(Sound::Moo)
        } else {
            Err(ParseComponentError::new(s))
        }
    }

    /// The emoji of the sound: that of the animal that makes it.
    pub fn emoji(&self) -> (c: char)
        ensures
            c == self.animal_of().emoji_of(),
    {
        match self {
            Sound::Meow => Animal::Cat.emoji(),
            Sound::Bark => Animal::Dog.emoji(),
            Sound::Neigh => Animal::Horse.emoji(),
            Sound::Moo => Animal::Alpaca.emoji(),
        }
    }

    /// The button of the sound.
    pub fn button(&self) -> (b: Button)
        ensures
            self.button_matches(b@),
    {
        let label = self.display();
        let custom_id = to_ascii_lowercase(label.as_str());
        Button { custom_id, label, emoji: Some(self.emoji()), style: ButtonStyle::Primary }
    }

    /// The action row holding one button for each sound.
    pub fn action_row() -> (ar: ActionRow)
        ensures
            ar.components@.len() == 4,
            forall|i: int|
                0 <= i < 4 ==> (#[trigger] ar.components@[i] matches Component::Button(b)
                    && Sound::row_order()[i].button_matches(b@)),
    {
        let mut components: Vec<Component> = Vec::new();
        components.push(Component::Button(Sound::Meow.button()));
        components.push(Component::Button(Sound::Bark.button()));
        components.push(Component::Button(Sound::Neigh.button()));
        components.push(Component::Button(Sound::Moo.button()));
        ActionRow { components }
    }
}

impl std::str::FromStr for Sound {
    type Err = ParseComponentError;

    fn from_str(s: &str) -> (r: Result<Sound, ParseComponentError>)
        ensures
            match r {
                Ok(snd) => Sound::from_name(s@) == Some(snd),
                Err(e) => Sound::from_name(s@) is None && e.input() == s@,
            },
    {
        Sound::parse(s)
    }
}

/// A sound's text is already in lowercase, so the id of its button reads
/// back as that same sound.
pub proof fn lemma_button_id_reads_back(snd: Sound)
    ensures
        ascii_lowercase(snd.name_of()) == snd.name_of(),
        Sound::from_name(ascii_lowercase(snd.name_of())) == Some(snd),
{
    reveal_strlit("meow!");
    reveal_strlit("ruff ruff!");
    reveal_strlit("neighhh!");
    reveal_strlit("moooo!");
    let low = ascii_lowercase(snd.name_of());
    assert(low =~= snd.name_of());
    match snd {
        Sound::Meow => {},
        Sound::Bark => {
            assert(low.len() != "meow!"@.len());
        },
        Sound::Neigh => {
            assert(low.len() != "meow!"@.len() && low.len() != "ruff ruff!"@.len());
        },
        Sound::Moo => {
            assert(low.len() != "ruff ruff!"@.len() && low.len() != "neighhh!"@.len());
            assert(low[1] != "meow!"@[1]);
        },
    }
}

} // verus!
