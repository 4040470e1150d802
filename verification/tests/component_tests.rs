use kogan::animal::Animal;
use kogan::components::{ButtonStyle, Component, ParseComponentError};
use kogan::sounds::Sound;

#[test]
fn animal_names_and_emoji() {
    assert_eq!(Animal::Cat.display(), "Cat");
    assert_eq!(Animal::Alpaca.display(), "Alpaca");
    assert_eq!(Animal::Cat.emoji(), '🐈');
    assert_eq!(Animal::Dog.emoji(), '🐕');
    assert_eq!(Animal::Horse.emoji(), '🐎');
    assert_eq!(Animal::Alpaca.emoji(), '🦙');
}

#[test]
fn animal_parsing() {
    assert_eq!(Animal::parse("cat").unwrap(), Animal::Cat);
    assert_eq!("horse".parse::<Animal>().unwrap(), Animal::Horse);
    let err: ParseComponentError = Animal::parse("Cat").unwrap_err();
    assert_eq!(err.message(), "Failed to parse Cat as a component");
    assert!(Animal::parse("").is_err());
}

#[test]
fn animal_menu_options_read_back() {
    let menu = Animal::select_menu();
    assert_eq!(menu.custom_id, "animal_select");
    assert_eq!(menu.placeholder, "No animal selected");
    assert_eq!(menu.options.len(), 4);
    assert_eq!(menu.options[0].label, "`🐈` Cat");
    assert_eq!(menu.options[3].label, "`🦙` Alpaca");
    let order = [Animal::Cat, Animal::Dog, Animal::Horse, Animal::Alpaca];
    for (option, animal) in menu.options.iter().zip(order.iter()) {
        assert_eq!(Animal::parse(&option.value).unwrap(), *animal);
    }
    let row = Animal::action_row();
    assert_eq!(row.components.len(), 1);
    assert!(matches!(&row.components[0], Component::SelectMenu(m) if m.options.len() == 4));
}

#[test]
fn sound_names_emoji_and_parsing() {
    assert_eq!(Sound::Bark.display(), "ruff ruff!");
    assert_eq!(Sound::Moo.emoji(), Animal::Alpaca.emoji());
    assert_eq!(Sound::Meow.emoji(), '🐈');
    assert_eq!(Sound::parse("neighhh!").unwrap(), Sound::Neigh);
    assert_eq!("moooo!".parse::<Sound>().unwrap(), Sound::Moo);
    let err = Sound::parse("woof").unwrap_err();
    assert_eq!(err.message(), "Failed to parse woof as a component");
}

#[test]
fn sound_buttons_read_back() {
    let row = Sound::action_row();
    assert_eq!(row.components.len(), 4);
    let order = [Sound::Meow, Sound::Bark, Sound::Neigh, Sound::Moo];
    for (c, sound) in row.components.iter().zip(order.iter()) {
        match c {
            Component::Button(b) => {
                assert_eq!(b.style, ButtonStyle::Primary);
                assert_eq!(b.emoji, Some(sound.emoji()));
                assert_eq!(b.label, sound.display());
                assert_eq!(Sound::parse(&b.custom_id).unwrap(), *sound);
            }
            _ => panic!("expected a button"),
        }
    }
}
