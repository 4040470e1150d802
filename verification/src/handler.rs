//! The bot's presence: once ready, it shows itself playing with a member of
//! its guild picked at random.
use vstd::prelude::*;
use rand::seq::SliceRandom;
use crate::text::texts;

verus! {

/// The handler of the bot's gateway events.
pub struct Handler;

/// A member of the guild: the name shown for them and whether they are a
/// bot.
#[derive(Clone, Debug)]
pub struct GuildMember {
    pub display_name: String,
    pub bot: bool,
}

/// The names of the members who are not bots, in order.
pub open spec fn human_names(members: Seq<GuildMember>) -> Seq<Seq<char>>
    decreases members.len(),
{
    if members.len() == 0 {
        Seq::empty()
    } else {
        let rest = human_names(members.drop_last());
        if members.last().bot {
            rest
        } else {
            rest.push(members.last().display_name@)
        }
    }
}

/// What the bot is shown playing with a member.
pub open spec fn playing_with(name: Seq<char>) -> Seq<char> {
    "with "@ + name + " \u{1F525}"@
}

/// What the bot is shown playing when it finds no guild.
pub open spec fn playing_alone() -> Seq<char> {
    "with no one \u{1F972}"@
}

/// What the bot is shown playing: with a member, or with no one.
pub fn activity_text(member: Option<&str>) -> (s: String)
    ensures
        member matches Some(m) ==> s@ == playing_with(m@),
        member is None ==> s@ == playing_alone(),
{
    match member {
        Some(m) => {
            let mut s = "with ".to_owned();
            s.append(m);
            s.append(" \u{1F525}");
            s
        },
        None => "with no one \u{1F972}".to_owned(),
    }
}

/// Whether a member is not a bot.
pub open spec fn is_human(m: GuildMember) -> bool {
    !m.bot
}

/// The name shown for a member.
pub open spec fn name_of(m: GuildMember) -> Seq<char> {
    m.display_name@
}

/// The names picked from are exactly the names of the members who are not
/// bots, in the members' order: every bot is left out wherever it stands.
pub proof fn lemma_human_names_filter(members: Seq<GuildMember>)
    ensures
        human_names(members) == members.filter(|m: GuildMember| is_human(m)).map_values(
            |m: GuildMember| name_of(m),
        ),
    decreases members.len(),
{
    reveal(Seq::filter);
    if members.len() == 0 {
        assert(members.filter(|m: GuildMember| is_human(m)) =~= Seq::<GuildMember>::empty());
        assert(human_names(members) =~= members.filter(|m: GuildMember| is_human(m)).map_values(
            |m: GuildMember| name_of(m),
        ));
    } else {
        lemma_human_names_filter(members.drop_last());
        let rest = members.drop_last().filter(|m: GuildMember| is_human(m));
        if members.last().bot {
            assert(members.filter(|m: GuildMember| is_human(m)) == rest);
        } else {
            assert(members.filter(|m: GuildMember| is_human(m)) == rest.push(members.last()));
            assert(rest.push(members.last()).map_values(|m: GuildMember| name_of(m))
                =~= rest.map_values(|m: GuildMember| name_of(m)).push(members.last().display_name@));
        }
    }
}

/// Every picked name is that of a member who is not a bot, and every member
/// who is not a bot has their name among them.
pub proof fn lemma_human_names_members(members: Seq<GuildMember>)
    ensures
        forall|k: int|
            0 <= k < human_names(members).len() ==> exists|i: int|
                0 <= i < members.len() && !members[i].bot && members[i].display_name@
                    == #[trigger] human_names(members)[k],
        forall|i: int|
            0 <= i < members.len() && !(#[trigger] members[i]).bot ==> human_names(
                members,
            ).contains(members[i].display_name@),
    decreases members.len(),
{
    if members.len() > 0 {
        let init = members.drop_last();
        lemma_human_names_members(init);
        let names = human_names(members);
        let rest = human_names(init);
        assert forall|k: int| 0 <= k < names.len() implies exists|i: int|
            0 <= i < members.len() && !members[i].bot && members[i].display_name@
                == #[trigger] names[k] by {
            if k < rest.len() {
                let i = choose|i: int|
                    0 <= i < init.len() && !init[i].bot && init[i].display_name@ == rest[k];
                assert(members[i] == init[i]);
            } else {
                assert(members[members.len() - 1] == members.last());
            }
        }
        assert forall|i: int| 0 <= i < members.len() && !(#[trigger] members[i]).bot implies names.contains(
            members[i].display_name@,
        ) by {
            if i < init.len() {
                assert(init[i] == members[i]);
                assert(rest.contains(members[i].display_name@));
                let j = choose|j: int| 0 <= j < rest.len() && rest[j] == members[i].display_name@;
                if !members.last().bot {
                    assert(names[j] == rest[j]);
                }
            } else {
                assert(names[names.len() - 1] == members.last().display_name@);
            }
        }
    }
}

/// The names of the members who are not bots.
pub fn human_names_of(members: &Vec<GuildMember>) -> (names: Vec<String>)
    ensures
        texts(names@) == human_names(members@),
        texts(names@) == members@.filter(|m: GuildMember| is_human(m)).map_values(
            |m: GuildMember| name_of(m),
        ),
{
    proof {
        lemma_human_names_filter(members@);
    }
    let n = members.len();
    let mut names: Vec<String> = Vec::new();
    let mut i: usize = 0;
    while i < n
        invariant
            n == members@.len(),
            i <= n,
            texts(names@) == human_names(members@.take(i as int)),
        decreases n - i,
    {
        assert(members@.take(i + 1).drop_last() =~= members@.take(i as int));
        if !members[i].bot {
            let ghost before = names@;
            let name = members[i].display_name.clone();
            names.push(name);
            assert(texts(names@) =~= texts(before).push(members@[i as int].display_name@));
        }
        i = i + 1;
    }
    assert(members@.take(n as int) =~= members@);
    names
}

/// Picks one of the names at random with `SliceRandom::choose` and the
/// thread's generator: `None` for no names, else one of them. Which one is
/// left open.
#[verifier::external_body]
fn choose_name(names: &Vec<String>) -> (r: Option<&String>)
    ensures
        names@.len() == 0 <==> r is None,
        r matches Some(s) ==> exists|i: int| 0 <= i < names@.len() && names@[i] == *s,
{
    names.choose(&mut rand::thread_rng())
}

/// What the bot is shown playing: with one of the members who are not bots,
/// picked at random.
pub fn pick_activity(members: &Vec<GuildMember>) -> (s: String)
    requires
        human_names(members@).len() > 0,
    ensures
        exists|i: int|
            0 <= i < human_names(members@).len() && s@ == playing_with(
                #[trigger] human_names(members@)[i],
            ),
{
    let names = human_names_of(members);
    let chosen = choose_name(&names);
    let name = chosen.unwrap();
    let ghost i = choose|i: int| 0 <= i < names@.len() && names@[i] == *name;
    assert(texts(names@)[i] == name@);
    activity_text(Some(name.as_str()))
}

} // verus!
