//! Marking an anime as a favorite and listing a user's favorites.
use vstd::prelude::*;
use crate::embed::{field_view, Color, Embed, EmbedView, empty_view};
use crate::text::{join, join_strings, texts};
use crate::anilist::{text_or, Media};
use crate::replies::{no_anime_found_embed, notice_spec};
use crate::users::{UpsertUserReq, User};

verus! {

/// The favorites a user has after marking `title`: those they had, if they
/// were known, with `title` added at the end.
pub open spec fn favorites_after(existing: Option<User>, title: Seq<char>) -> Seq<Seq<char>> {
    match existing {
        Some(u) => texts(u.animes@).push(title),
        None => seq![title],
    }
}

/// The list shown for a user's favorites.
pub open spec fn favorites_embed_spec(user: Option<User>) -> EmbedView {
    match user {
        Some(u) => EmbedView {
            title: Some("List of favorited animes"@),
            fields: seq![field_view("Titles"@, join(texts(u.animes@), "\n"@), false)],
            ..empty_view()
        },
        None => EmbedView {
            title: Some("Missing data"@),
            description: Some("Cannot find any animes in your favorited list."@),
            ..empty_view()
        },
    }
}

/// Marking a favorite keeps every earlier favorite, in order, and adds the
/// new title once, at the end; a user not yet known gets a list of the new
/// title alone.
pub proof fn lemma_favorite_appends(existing: Option<User>, title: Seq<char>)
    ensures
        match existing {
            Some(u) => {
                &&& favorites_after(existing, title).len() == u.animes@.len() + 1
                &&& forall|i: int|
                    0 <= i < u.animes@.len() ==> favorites_after(existing, title)[i]
                        == u.animes@[i]@
                &&& favorites_after(existing, title)[u.animes@.len() as int] == title
            },
            None => favorites_after(existing, title).len() == 1 && favorites_after(
                existing,
                title,
            )[0] == title,
        },
{
}

/// The request that records `title` as a favorite of the user with id
/// `author_id`, given what is known of that user.
pub fn favorite_update(existing: Option<User>, author_id: String, title: String) -> (r:
    UpsertUserReq)
    ensures
        r.id == author_id,
        texts(r.animes@) == favorites_after(existing, title@),
        match existing {
            Some(u) => {
                &&& r.animes@.len() == u.animes@.len() + 1
                &&& forall|i: int| 0 <= i < u.animes@.len() ==> r.animes@[i]@ == u.animes@[i]@
                &&& r.animes@[u.animes@.len() as int]@ == title@
            },
            None => r.animes@.len() == 1 && r.animes@[0]@ == title@,
        },
{
    proof {
        lemma_favorite_appends(existing, title@);
    }
    match existing {
        Some(user) => {
            let mut animes = user.animes.clone();
            animes.push(title);
            proof {
                assert(animes@ == user.animes@.push(animes@.last()));
                assert(texts(animes@) =~= texts(user.animes@).push(animes@.last()@));
            }
            UpsertUserReq { id: author_id, animes }
        },
        None => {
            let ghost t = title@;
            let mut animes: Vec<String> = Vec::new();
            animes.push(title);
            assert(texts(animes@) =~= seq![t]);
            UpsertUserReq { id: author_id, animes }
        },
    }
}

/// The reply when the user's favorites could not be read.
pub open spec fn favorite_error_spec() -> EmbedView {
    EmbedView {
        color: Some(Color::Red),
        title: Some("Error setting favorite"@),
        description: Some("There was an error on the backend setting your favorite anime. Please try again or contact a server admin."@),
        ..empty_view()
    }
}

/// What the favorite command does once it has searched: answer with a
/// notice, or record the favorites.
#[derive(Debug)]
pub enum FavoriteAction {
    Reply(Embed),
    Upsert(UpsertUserReq),
}

/// What the favorite command does, given the first entry its search found
/// and what the store knows of the user (`Err` where it could not be read):
/// with no entry, a notice; with the user read, the request recording the
/// entry's English title as their newest favorite; else a notice of the
/// error.
pub fn favorite_action(first: Option<&Media>, author_id: String, user: Result<Option<User>, ()>) -> (r:
    FavoriteAction)
    ensures
        match first {
            None => r matches FavoriteAction::Reply(e) && e@ == notice_spec(
                "No anime found."@,
                Color::Red,
            ),
            Some(m) => match user {
                Ok(u) => r matches FavoriteAction::Upsert(req) && req.id == author_id && texts(
                    req.animes@,
                ) == favorites_after(u, text_or(m.title.english, "No title found"@)),
                Err(_) => r matches FavoriteAction::Reply(e) && e@ == favorite_error_spec(),
            },
        },
{
    match first {
        None => FavoriteAction::Reply(no_anime_found_embed()),
        Some(m) => match user {
            Ok(u) => FavoriteAction::Upsert(favorite_update(u, author_id, m.title_english())),
            Err(_) => FavoriteAction::Reply(favorite_error_embed()),
        },
    }
}

/// The reply when the user's favorites could not be read.
pub fn favorite_error_embed() -> (e: Embed)
    ensures
        e@ == favorite_error_spec(),
{
    let mut e = Embed::empty();
    e.color = Some(Color::Red);
    e.title = Some("Error setting favorite".to_owned());
    e.description = Some("There was an error on the backend setting your favorite anime. Please try again or contact a server admin.".to_owned());
    e
}

/// The list of a user's favorites, one per line, or a notice where the user
/// is not known.
pub fn favorites_embed(user: &Option<User>) -> (e: Embed)
    ensures
        e@ == favorites_embed_spec(*user),
{
    let mut e = Embed::empty();
    match user {
        Some(u) => {
            e.title = Some("List of favorited animes".to_owned());
            let titles = join_strings(&u.animes, "\n");
            e.push_field("Titles", titles, false);
            assert(e@.fields =~= favorites_embed_spec(*user).fields);
        },
        None => {
            e.title = Some("Missing data".to_owned());
            e.description = Some("Cannot find any animes in your favorited list.".to_owned());
        },
    }
    e
}

} // verus!
