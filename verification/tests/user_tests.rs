use kogan::favorite::{favorite_error_embed, favorite_update, favorites_embed};
use kogan::handler::{activity_text, human_names_of, pick_activity, GuildMember};
use kogan::users::User;

#[test]
fn new_user_keeps_its_parts() {
    let u = User::new("42".to_string(), vec!["Mushishi".to_string()]);
    assert_eq!(u.id, "42");
    assert_eq!(u.animes, vec!["Mushishi".to_string()]);
}

#[test]
fn favorite_appends_to_known_user() {
    let u = User::new("42".to_string(), vec!["Mushishi".to_string(), "Monster".to_string()]);
    let r = favorite_update(Some(u), "42".to_string(), "Frieren".to_string());
    assert_eq!(r.id, "42");
    assert_eq!(r.animes, vec!["Mushishi", "Monster", "Frieren"]);
}

#[test]
fn favorite_starts_a_list_for_new_user() {
    let r = favorite_update(None, "7".to_string(), "Frieren".to_string());
    assert_eq!(r.id, "7");
    assert_eq!(r.animes, vec!["Frieren"]);
    let e = favorite_error_embed();
    assert_eq!(e.title.as_deref(), Some("Error setting favorite"));
}

#[test]
fn favorites_list() {
    let u = User::new("1".to_string(), vec!["A".to_string(), "B".to_string()]);
    let e = favorites_embed(&Some(u));
    assert_eq!(e.title.as_deref(), Some("List of favorited animes"));
    assert_eq!(e.fields.len(), 1);
    assert_eq!(e.fields[0].name, "Titles");
    assert_eq!(e.fields[0].value, "A\nB");
    let none = favorites_embed(&None);
    assert_eq!(none.title.as_deref(), Some("Missing data"));
    assert_eq!(
        none.description.as_deref(),
        Some("Cannot find any animes in your favorited list.")
    );
}

fn member(name: &str, bot: bool) -> GuildMember {
    GuildMember { display_name: name.to_string(), bot }
}

#[test]
fn presence_picks_a_human() {
    let members = vec![member("Kōgan", true), member("Cameron", false), member("Mika", false)];
    assert_eq!(human_names_of(&members), vec!["Cameron", "Mika"]);
    for _ in 0..20 {
        let a = pick_activity(&members);
        assert!(a == "with Cameron 🔥" || a == "with Mika 🔥", "{}", a);
    }
    assert_eq!(pick_activity(&vec![member("Solo", false)]), "with Solo 🔥");
    assert_eq!(activity_text(None), "with no one 🥲");
    assert!(human_names_of(&vec![member("bot", true)]).is_empty());
}
