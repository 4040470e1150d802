//! What the commands answer: the checks they make before doing anything,
//! the notices they send, and the channels they create.
use vstd::prelude::*;
use crate::embed::{field_view, Color, Embed, EmbedFooter, EmbedFooterView, EmbedView, empty_view};
use crate::anilist::{text_or, AiringSchedule, Media};
use crate::embed::EmbedFieldView;
use crate::text::{decimal, i64_to_decimal, signed_decimal, str_eq, texts, u64_to_decimal};

verus! {

/// A notice: a description in a coloured embed.
pub open spec fn notice_spec(description: Seq<char>, color: Color) -> EmbedView {
    EmbedView { description: Some(description), color: Some(color), ..empty_view() }
}

/// What an anime command answers before its work, given the name of the
/// channel it was used in: nothing in the `anime` channel, a notice in any
/// other channel, another where the channel has no name.
pub open spec fn anime_gate_spec(channel: Option<Seq<char>>) -> Option<EmbedView> {
    match channel {
        Some(name) => if name == "anime"@ {
            None
        } else {
            Some(notice_spec("This command must be used in the `anime` channel."@, Color::Red))
        },
        None => Some(notice_spec("This command must be used in a valid channel."@, Color::Red)),
    }
}

/// What the track command answers, given the name of the channel it was
/// used in.
pub open spec fn track_gate_spec(channel: Option<Seq<char>>) -> Option<EmbedView> {
    match channel {
        Some(name) => if name == "announcements"@ {
            None
        } else {
            Some(
                notice_spec(
                    "This command must be used in the `announcements` channel"@,
                    Color::Red,
                ),
            )
        },
        None => Some(notice_spec("This command must be used in a server."@, Color::Red)),
    }
}

/// The answer of an anime command before its work: `None` to go on, or the
/// notice to send instead.
pub fn anime_channel_gate(channel: &Option<String>) -> (r: Option<Embed>)
    ensures
        match r {
            Some(e) => anime_gate_spec(crate::embed::opt_text(*channel)) == Some(e@),
            None => anime_gate_spec(crate::embed::opt_text(*channel)) is None,
        },
{
    match channel {
        Some(name) => {
            if str_eq(name.as_str(), "anime") {
                None
            } else {
                Some(Embed::notice("This command must be used in the `anime` channel.", Color::Red))
            }
        },
        None => Some(Embed::notice("This command must be used in a valid channel.", Color::Red)),
    }
}

/// The answer of the track command: `None` in the announcements channel,
/// or the notice to send.
pub fn track_channel_gate(channel: &Option<String>) -> (r: Option<Embed>)
    ensures
        match r {
            Some(e) => track_gate_spec(crate::embed::opt_text(*channel)) == Some(e@),
            None => track_gate_spec(crate::embed::opt_text(*channel)) is None,
        },
{
    match channel {
        Some(name) => {
            if str_eq(name.as_str(), "announcements") {
                None
            } else {
                Some(
                    Embed::notice(
                        "This command must be used in the `announcements` channel",
                        Color::Red,
                    ),
                )
            }
        },
        None => Some(Embed::notice("This command must be used in a server.", Color::Red)),
    }
}

/// The notice sent when a command that needs an anime name got none.
pub fn missing_anime_name_embed() -> (e: Embed)
    ensures
        e@ == notice_spec(
            "No anime name provided. Use command with `<anime name>` or check the help command for more information."@,
            Color::Red,
        ),
{
    Embed::notice(
        "No anime name provided. Use command with `<anime name>` or check the help command for more information.",
        Color::Red,
    )
}

/// The notice sent when a search found nothing.
pub fn no_anime_found_embed() -> (e: Embed)
    ensures
        e@ == notice_spec("No anime found."@, Color::Red),
{
    Embed::notice("No anime found.", Color::Red)
}

/// The title of the countdown for an entry: its romaji title, then its
/// English title in italics.
pub fn countdown_title(romaji: &str, english: &str) -> (s: String)
    ensures
        s@ == "Countdown for "@ + romaji@ + " (_"@ + english@ + "_)"@,
{
    let mut s = "Countdown for ".to_owned();
    s.append(romaji);
    s.append(" (_");
    s.append(english);
    s.append("_)");
    s
}

/// A part of the next episode to air (0: its number, 1: the seconds left
/// until it airs, 2: the time it airs at), 0 where none is known.
pub open spec fn airing_or_zero(next: Option<AiringSchedule>, part: int) -> int {
    match next {
        Some(a) => if part == 0 {
            a.episode as int
        } else if part == 1 {
            a.timeUntilAiring as int
        } else {
            a.airingAt as int
        },
        None => 0,
    }
}

/// The countdown shown for an entry: its titles, the next episode's number
/// and the seconds left until it airs, then the time it airs at (each 0
/// where no next episode is known).
pub open spec fn countdown_embed_spec(m: Media) -> EmbedView {
    EmbedView {
        title: Some(
            "Countdown for "@ + text_or(m.title.romaji, "No title found"@) + " (_"@ + text_or(
                m.title.english,
                "No title found"@,
            ) + "_)"@,
        ),
        color: Some(Color::Gold),
        fields: seq![
            field_view(
                "Episode "@ + signed_decimal(airing_or_zero(m.nextAiringEpisode, 0))
                    + " Airs in: "@,
                signed_decimal(
                    airing_or_zero(m.nextAiringEpisode, 1),
                ),
                true,
            ),
            field_view(
                "Airing Time: "@,
                signed_decimal(airing_or_zero(m.nextAiringEpisode, 2)),
                false,
            ),
        ],
        ..empty_view()
    }
}

/// The countdown shown for an entry.
pub fn countdown_embed(media: &Media) -> (e: Embed)
    ensures
        e@ == countdown_embed_spec(*media),
{
    let title = countdown_title(media.title_romaji().as_str(), media.title_english().as_str());
    let mut e = Embed::empty();
    e.title = Some(title);
    e.color = Some(Color::Gold);
    let mut name = "Episode ".to_owned();
    let episode = i64_to_decimal(media.episode() as i64);
    name.append(episode.as_str());
    name.append(" Airs in: ");
    e.push_field(name.as_str(), i64_to_decimal(media.timeUntilAiring() as i64), true);
    e.push_field("Airing Time: ", i64_to_decimal(media.airingAt() as i64), false);
    assert(e@.fields =~= countdown_embed_spec(*media).fields);
    e
}

/// What the countdown command answers for the first entry a search found:
/// a notice where there is none, else the entry's countdown, with 0 for the
/// parts of a next episode that is not known.
pub fn countdown_reply(first: Option<&Media>) -> (e: Embed)
    ensures
        match first {
            Some(m) => e@ == countdown_embed_spec(*m),
            None => e@ == notice_spec("No anime found."@, Color::Red),
        },
{
    match first {
        Some(m) => countdown_embed(m),
        None => no_anime_found_embed(),
    }
}

/// The answer to a command that does not exist.
pub fn unknown_command_embed(command_name: &str) -> (e: Embed)
    ensures
        e@ == (EmbedView {
            title: Some("Unkown command"@),
            description: Some(
                "Command `"@ + command_name@
                    + "` does not exist. Type `.help` for a list of available commands."@,
            ),
            color: Some(Color::Red),
            ..empty_view()
        }),
{
    let mut d = "Command `".to_owned();
    d.append(command_name);
    d.append("` does not exist. Type `.help` for a list of available commands.");
    let mut e = Embed::notice(d.as_str(), Color::Red);
    e.title = Some("Unkown command".to_owned());
    e
}

/// The answer to a command used again too soon.
pub fn delay_message() -> (s: String)
    ensures
        s@ == "Message delayed"@,
{
    "Message delayed".to_owned()
}

/// The messages of the cat command: the cat, then the first argument where
/// one was given.
pub fn cat_messages(argument: Option<&str>) -> (v: Vec<String>)
    ensures
        argument is None ==> v@.len() == 1 && v@[0]@ == ":cat:"@,
        argument matches Some(a) ==> v@.len() == 2 && v@[0]@ == ":cat:"@ && v@[1]@ == "args: "@
            + a@,
{
    let mut v: Vec<String> = Vec::new();
    v.push(":cat:".to_owned());
    match argument {
        Some(a) => {
            let mut s = "args: ".to_owned();
            s.append(a);
            v.push(s);
        },
        None => {},
    }
    v
}

/// The bot's rules.
pub open spec fn bot_rules_spec() -> EmbedView {
    EmbedView {
        title: Some("K\u{14D}gan Bot Rules"@),
        description: Some("Rules pertaining to the bot usage"@),
        color: Some(Color::Orange),
        fields: seq![
            field_view(
                "Rule 1"@,
                "Do not spam bot commands. I will be forced to implement a rate limiter, and I do not want to do that. Spamming commands will cause the bot to be blacklisted by the Discord API, and could cost me money depending on the host I use."@,
                false,
            ),
            field_view("Rule 2"@, "Uhhh no other rules, enjoy the bot."@, false),
        ],
        footer: Some(
            EmbedFooterView {
                text: "Created by Cameron Tredoux. Used on TLMBZ's server."@,
                icon_url: None,
            },
        ),
        ..empty_view()
    }
}

/// The bot's rules, sent as a direct message.
pub fn bot_rules_embed() -> (e: Embed)
    ensures
        e@ == bot_rules_spec(),
{
    let mut e = Embed::empty();
    e.color = Some(Color::Orange);
    e.title = Some("K\u{14D}gan Bot Rules".to_owned());
    e.description = Some("Rules pertaining to the bot usage".to_owned());
    e.push_field(
        "Rule 1",
        "Do not spam bot commands. I will be forced to implement a rate limiter, and I do not want to do that. Spamming commands will cause the bot to be blacklisted by the Discord API, and could cost me money depending on the host I use.".to_owned(),
        false,
    );
    e.push_field("Rule 2", "Uhhh no other rules, enjoy the bot.".to_owned(), false);
    e.footer = Some(
        EmbedFooter {
            text: "Created by Cameron Tredoux. Used on TLMBZ's server.".to_owned(),
            icon_url: None,
        },
    );
    assert(e@.fields =~= bot_rules_spec().fields);
    e
}

/// The field of the server rule at position `i` (numbered from 1).
pub open spec fn server_rule_field(rules: Seq<Seq<char>>, i: int) -> EmbedFieldView {
    field_view("Server Rule "@ + decimal((i + 1) as nat), rules[i], false)
}

/// The rules the about command sends: every server rule in order, then the
/// bot's rules, under the bot's footer.
pub open spec fn about_spec(server_rules: Seq<Seq<char>>) -> EmbedView {
    EmbedView {
        title: Some("Server and Bot Rules"@),
        description: Some("The server's rules, then the rules pertaining to the bot usage"@),
        color: Some(Color::Orange),
        fields: Seq::new(server_rules.len(), |i: int| server_rule_field(server_rules, i))
            + bot_rules_spec().fields,
        footer: bot_rules_spec().footer,
        ..empty_view()
    }
}

/// The direct message of the about command: the server's rules, as given,
/// then the bot's rules.
pub fn about_embed(server_rules: &Vec<String>) -> (e: Embed)
    requires
        server_rules@.len() < u64::MAX,
    ensures
        e@ == about_spec(texts(server_rules@)),
{
    let mut e = Embed::empty();
    e.color = Some(Color::Orange);
    e.title = Some("Server and Bot Rules".to_owned());
    e.description = Some("The server's rules, then the rules pertaining to the bot usage".to_owned());
    let n = server_rules.len();
    let ghost rules = texts(server_rules@);
    let mut i: usize = 0;
    while i < n
        invariant
            n == server_rules@.len(),
            n < u64::MAX,
            rules == texts(server_rules@),
            i <= n,
            e@.fields =~= Seq::new(i as nat, |k: int| server_rule_field(rules, k)),
            e@.title == Some("Server and Bot Rules"@),
            e@.description == Some(
                "The server's rules, then the rules pertaining to the bot usage"@,
            ),
            e@.color == Some(Color::Orange),
            e@.author is None,
            e@.image is None,
            e@.attachment is None,
            e@.footer is None,
        decreases n - i,
    {
        let mut name = "Server Rule ".to_owned();
        let number = u64_to_decimal(i as u64 + 1);
        name.append(number.as_str());
        e.push_field(name.as_str(), server_rules[i].clone(), false);
        assert(e@.fields =~= Seq::new((i + 1) as nat, |k: int| server_rule_field(rules, k)));
        i = i + 1;
    }
    e.push_field(
        "Rule 1",
        "Do not spam bot commands. I will be forced to implement a rate limiter, and I do not want to do that. Spamming commands will cause the bot to be blacklisted by the Discord API, and could cost me money depending on the host I use.".to_owned(),
        false,
    );
    e.push_field("Rule 2", "Uhhh no other rules, enjoy the bot.".to_owned(), false);
    e.footer = Some(
        EmbedFooter {
            text: "Created by Cameron Tredoux. Used on TLMBZ's server.".to_owned(),
            icon_url: None,
        },
    );
    assert(e@.fields =~= about_spec(rules).fields);
    e
}

/// Whether one of the channel names is "announcements".
pub open spec fn lists_announcements(names: Seq<Seq<char>>) -> bool {
    exists|i: int| 0 <= i < names.len() && #[trigger] names[i] == "announcements"@
}

/// A list of channel names lists the announcements channel exactly when
/// some name in it, at any position, is "announcements".
pub proof fn lemma_announcements_at_any_position(names: Seq<Seq<char>>)
    ensures
        forall|i: int| 0 <= i < names.len() && names[i] == "announcements"@ ==> lists_announcements(names),
        !lists_announcements(names) ==> forall|i: int|
            0 <= i < names.len() ==> names[i] != "announcements"@,
        lists_announcements(names) ==> exists|i: int|
            0 <= i < names.len() && names[i] == "announcements"@,
{
    assert forall|i: int| 0 <= i < names.len() && names[i] == "announcements"@ implies lists_announcements(names) by {
        assert(names[i] == "announcements"@);
    }
}

/// Whether a guild already has a channel named "announcements".
pub fn has_announcements_channel(names: &Vec<String>) -> (b: bool)
    ensures
        b == lists_announcements(texts(names@)),
        forall|i: int| 0 <= i < names@.len() && names@[i]@ == "announcements"@ ==> b,
        !b ==> forall|i: int| 0 <= i < names@.len() ==> names@[i]@ != "announcements"@,
        b ==> exists|i: int| 0 <= i < names@.len() && names@[i]@ == "announcements"@,
{
    proof {
        lemma_announcements_at_any_position(texts(names@));
        assert forall|i: int| 0 <= i < names@.len() implies #[trigger] texts(names@)[i] == names@[i]@ by {}
    }
    let n = names.len();
    let mut i: usize = 0;
    while i < n
        invariant
            n == names@.len(),
            i <= n,
            forall|j: int| 0 <= j < i ==> (#[trigger] names@[j])@ != "announcements"@,
        decreases n - i,
    {
        if str_eq(names[i].as_str(), "announcements") {
            assert(texts(names@)[i as int] == "announcements"@);
            return true;
        }
        i = i + 1;
    }
    proof {
        assert forall|k: int| 0 <= k < texts(names@).len() implies #[trigger] texts(names@)[k]
            != "announcements"@ by {
            assert(names@[k]@ != "announcements"@);
        }
    }
    false
}

/// The notice sent when the announcements channel already exists.
pub fn channel_exists_embed() -> (e: Embed)
    ensures
        e@ == (EmbedView {
            title: Some("Server creation failed!"@),
            description: Some("Server already exists."@),
            color: Some(Color::Red),
            ..empty_view()
        }),
{
    let mut e = Embed::notice("Server already exists.", Color::Red);
    e.title = Some("Server creation failed!".to_owned());
    e
}

/// A direct message to one user.
#[derive(Clone, Debug)]
pub struct DirectMessage {
    pub user: u64,
    pub content: String,
}

/// A member of the guild: their user id and the ids of their roles.
#[derive(Clone, Debug)]
pub struct RoleMember {
    pub user: u64,
    pub roles: Vec<u64>,
}

/// The users of the members who hold the role, in order.
pub open spec fn holders(members: Seq<RoleMember>, role: u64) -> Seq<u64>
    decreases members.len(),
{
    if members.len() == 0 {
        Seq::empty()
    } else {
        let rest = holders(members.drop_last(), role);
        if members.last().roles@.contains(role) {
            rest.push(members.last().user)
        } else {
            rest
        }
    }
}

fn holds_role(roles: &Vec<u64>, role: u64) -> (b: bool)
    ensures
        b == roles@.contains(role),
{
    let n = roles.len();
    let mut i: usize = 0;
    while i < n
        invariant
            n == roles@.len(),
            i <= n,
            forall|k: int| 0 <= k < i ==> roles@[k] != role,
        decreases n - i,
    {
        if roles[i] == role {
            assert(roles@[i as int] == role);
            return true;
        }
        i = i + 1;
    }
    false
}

/// The group an announcement goes to: the users of the members who hold
/// the role.
pub fn members_with_role(members: &Vec<RoleMember>, role: u64) -> (group: Vec<u64>)
    ensures
        group@ == holders(members@, role),
{
    let n = members.len();
    let mut group: Vec<u64> = Vec::new();
    let mut i: usize = 0;
    while i < n
        invariant
            n == members@.len(),
            i <= n,
            group@ == holders(members@.take(i as int), role),
        decreases n - i,
    {
        assert(members@.take(i + 1).drop_last() =~= members@.take(i as int));
        if holds_role(&members[i].roles, role) {
            group.push(members[i].user);
        }
        i = i + 1;
    }
    assert(members@.take(n as int) =~= members@);
    group
}

/// The direct messages of an announcement: one to every member of the
/// group, in order, each holding the announcement.
pub fn announcement_messages(group: &Vec<u64>, message: &str) -> (r: Vec<DirectMessage>)
    ensures
        r@.len() == group@.len(),
        forall|i: int|
            0 <= i < group@.len() ==> (#[trigger] r@[i]).user == group@[i] && r@[i].content@
                == message@,
{
    let mut r: Vec<DirectMessage> = Vec::new();
    let n = group.len();
    let mut i: usize = 0;
    while i < n
        invariant
            n == group@.len(),
            i <= n,
            r@.len() == i,
            forall|k: int|
                0 <= k < i ==> (#[trigger] r@[k]).user == group@[k] && r@[k].content@ == message@,
        decreases n - i,
    {
        r.push(DirectMessage { user: group[i], content: message.to_owned() });
        i = i + 1;
    }
    r
}

/// A text channel to create: its name and topic, the category it goes in,
/// its position, and the role that may read it but not write in it.
#[derive(Clone, Debug)]
pub struct NewChannel {
    pub name: String,
    pub topic: String,
    pub category: u64,
    pub position: Option<u32>,
    pub read_only_role: Option<u64>,
}

/// The guild the announce command works in.
pub const ANNOUNCE_GUILD: u64 = 972981323130093648;

/// The category announcement channels go in.
pub const ANNOUNCE_CATEGORY: u64 = 972981323675361290;

/// The role that reads the tracking channel.
pub const TRACK_ROLE: u64 = 973450438353506354;

/// The channel the announce command creates.
pub fn announcement_channel() -> (c: NewChannel)
    ensures
        c.name@ == "Announcements"@,
        c.topic@ == "Server announcements"@,
        c.category == ANNOUNCE_CATEGORY,
        c.position is None,
        c.read_only_role is None,
{
    NewChannel {
        name: "Announcements".to_owned(),
        topic: "Server announcements".to_owned(),
        category: ANNOUNCE_CATEGORY,
        position: None,
        read_only_role: None,
    }
}

/// The channel the track announce command creates.
pub fn tracking_channel() -> (c: NewChannel)
    ensures
        c.name@ == "announcements"@,
        c.topic@ == "K\u{14D}gan - Anime announcements and countdowns!"@,
        c.category == ANNOUNCE_CATEGORY,
        c.position == Some(1u32),
        c.read_only_role == Some(TRACK_ROLE),
{
    NewChannel {
        name: "announcements".to_owned(),
        topic: "K\u{14D}gan - Anime announcements and countdowns!".to_owned(),
        category: ANNOUNCE_CATEGORY,
        position: Some(1),
        read_only_role: Some(TRACK_ROLE),
    }
}

/// Once the track command has created its channel, the guild lists it: the
/// next call finds the channel and creates no other.
pub proof fn lemma_tracking_channel_is_found(names: Seq<Seq<char>>, created: NewChannel)
    requires
        created.name@ == "announcements"@,
    ensures
        lists_announcements(names.push(created.name@)),
{
    let all = names.push(created.name@);
    assert(all[names.len() as int] == "announcements"@);
}

} // verus!
