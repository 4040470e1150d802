use kogan::embed::Color;
use kogan::replies::{
    about_embed, announcement_messages, members_with_role, RoleMember, anime_channel_gate, announcement_channel, bot_rules_embed, cat_messages,
    channel_exists_embed, countdown_title, delay_message, has_announcements_channel,
    missing_anime_name_embed, no_anime_found_embed, track_channel_gate, tracking_channel,
    unknown_command_embed, ANNOUNCE_CATEGORY, TRACK_ROLE,
};

#[test]
fn anime_commands_only_run_in_the_anime_channel() {
    assert!(anime_channel_gate(&Some("anime".to_string())).is_none());
    let other = anime_channel_gate(&Some("general".to_string())).unwrap();
    assert_eq!(
        other.description.as_deref(),
        Some("This command must be used in the `anime` channel.")
    );
    assert_eq!(other.color, Some(Color::Red));
    let none = anime_channel_gate(&None).unwrap();
    assert_eq!(none.description.as_deref(), Some("This command must be used in a valid channel."));
}

#[test]
fn track_only_runs_in_announcements() {
    assert!(track_channel_gate(&Some("announcements".to_string())).is_none());
    assert_eq!(
        track_channel_gate(&Some("anime".to_string())).unwrap().description.as_deref(),
        Some("This command must be used in the `announcements` channel")
    );
    assert_eq!(
        track_channel_gate(&None).unwrap().description.as_deref(),
        Some("This command must be used in a server.")
    );
}

#[test]
fn notices() {
    assert_eq!(
        missing_anime_name_embed().description.as_deref(),
        Some("No anime name provided. Use command with `<anime name>` or check the help command for more information.")
    );
    assert_eq!(no_anime_found_embed().description.as_deref(), Some("No anime found."));
    assert_eq!(
        countdown_title("Shingeki no Kyojin", "Attack on Titan"),
        "Countdown for Shingeki no Kyojin (_Attack on Titan_)"
    );
    let u = unknown_command_embed("foo");
    assert_eq!(u.title.as_deref(), Some("Unkown command"));
    assert_eq!(
        u.description.as_deref(),
        Some("Command `foo` does not exist. Type `.help` for a list of available commands.")
    );
    assert_eq!(delay_message(), "Message delayed");
    assert_eq!(cat_messages(None), vec![":cat:"]);
    assert_eq!(cat_messages(Some("meow")), vec![":cat:", "args: meow"]);
}

#[test]
fn about_and_rules() {
    let rules = vec!["Be kind.".to_string(), "No spoilers.".to_string()];
    let a = about_embed(&rules);
    assert_eq!(a.title.as_deref(), Some("Server and Bot Rules"));
    assert_eq!(a.color, Some(Color::Orange));
    assert_eq!(a.fields.len(), 4);
    assert_eq!(a.fields[0].name, "Server Rule 1");
    assert_eq!(a.fields[0].value, "Be kind.");
    assert_eq!(a.fields[1].name, "Server Rule 2");
    assert_eq!(a.fields[1].value, "No spoilers.");
    assert_eq!(a.fields[2].name, "Rule 1");
    assert_eq!(a.fields[3].value, "Uhhh no other rules, enjoy the bot.");
    assert_eq!(a.footer.unwrap().text, "Created by Cameron Tredoux. Used on TLMBZ's server.");
    assert_eq!(about_embed(&vec![]).fields.len(), 2);
    let r = bot_rules_embed();
    assert_eq!(r.title.as_deref(), Some("Kōgan Bot Rules"));
    assert_eq!(r.color, Some(Color::Orange));
    assert_eq!(r.fields.len(), 2);
    assert_eq!(r.fields[1].value, "Uhhh no other rules, enjoy the bot.");
    assert_eq!(
        r.footer.unwrap().text,
        "Created by Cameron Tredoux. Used on TLMBZ's server."
    );
}

#[test]
fn announcement_channels() {
    assert!(has_announcements_channel(&vec!["general".to_string(), "announcements".to_string()]));
    assert!(!has_announcements_channel(&vec!["Announcements".to_string()]));
    assert!(!has_announcements_channel(&vec![]));
    let e = channel_exists_embed();
    assert_eq!(e.title.as_deref(), Some("Server creation failed!"));
    assert_eq!(e.description.as_deref(), Some("Server already exists."));
    let a = announcement_channel();
    assert_eq!(a.name, "Announcements");
    assert_eq!(a.topic, "Server announcements");
    assert_eq!(a.category, ANNOUNCE_CATEGORY);
    let t = tracking_channel();
    assert_eq!(t.name, "announcements");
    assert_eq!(t.topic, "Kōgan - Anime announcements and countdowns!");
    assert_eq!(t.position, Some(1));
    assert_eq!(t.read_only_role, Some(TRACK_ROLE));
}

#[test]
fn announcement_reaches_the_group() {
    let members = vec![
        RoleMember { user: 1, roles: vec![TRACK_ROLE] },
        RoleMember { user: 2, roles: vec![5] },
        RoleMember { user: 3, roles: vec![5, TRACK_ROLE] },
    ];
    let group = members_with_role(&members, TRACK_ROLE);
    assert_eq!(group, vec![1, 3]);
    let dms = announcement_messages(&group, "Season 2 airs today");
    assert_eq!(dms.len(), 2);
    assert_eq!(dms[0].user, 1);
    assert_eq!(dms[1].user, 3);
    assert_eq!(dms[1].content, "Season 2 airs today");
    assert!(announcement_messages(&vec![], "x").is_empty());
}
