//! Asking for recommendations based on a user's favorites.
use vstd::prelude::*;
use crate::embed::{field_view, Color, Embed, EmbedView, empty_view};
use crate::openai::{chat_request, chat_request_of, OAIRequest, OAIRequestView};
use crate::text::{join, join_strings, texts};
use crate::users::User;

verus! {

/// At most the first ten favorites.
pub open spec fn first_ten(animes: Seq<Seq<char>>) -> Seq<Seq<char>> {
    if animes.len() <= 10 {
        animes
    } else {
        animes.take(10)
    }
}

/// The question put to the model.
pub open spec fn recommend_prompt(animes: Seq<Seq<char>>) -> Seq<char> {
    "What are the top 10 anime you would recommend if I watch \""@ + join(first_ten(animes), ", "@)
        + "\"?"@
}

/// The instruction that comes before the question.
pub open spec fn recommend_preamble() -> Seq<char> {
    "Answer the following question accurately, but only provide an ordered list without any introductory paragraph. The answer should simply be a list of responses."@
}

/// The system message.
pub open spec fn recommend_system() -> Seq<char> {
    "You are ChatGPT, a large language model trained by OpenAI, based on the GPT-3.5 architecture. You are also an assistant that provides recommendations on anime to watch according to a user's list of anime they already enjoy watching."@
}

/// The request for recommendations.
pub open spec fn recommend_request_spec(animes: Seq<Seq<char>>) -> OAIRequestView {
    chat_request(
        recommend_preamble() + " "@ + recommend_prompt(animes),
        recommend_system(),
        "List of anime I enjoy: "@ + join(first_ten(animes), ", "@),
    )
}

/// Copies at most the first ten titles.
pub fn take_ten(animes: &Vec<String>) -> (r: Vec<String>)
    ensures
        texts(r@) == first_ten(texts(animes@)),
{
    let n = if animes.len() < 10 {
        animes.len()
    } else {
        10
    };
    let mut r: Vec<String> = Vec::new();
    let mut i: usize = 0;
    while i < n
        invariant
            n <= animes@.len(),
            n == animes@.len() || n == 10,
            i <= n,
            texts(r@) == texts(animes@).take(i as int),
        decreases n - i,
    {
        let c = animes[i].clone();
        let ghost before = r@;
        r.push(c);
        assert(r@ == before.push(animes@[i as int]));
        assert(texts(r@) =~= texts(before).push(animes@[i as int]@));
        assert(texts(animes@).take(i + 1) =~= texts(animes@).take(i as int).push(
            texts(animes@)[i as int],
        ));
        i = i + 1;
    }
    assert(n == animes@.len() ==> texts(animes@).take(n as int) =~= texts(animes@));
    r
}

/// The question put to the model about a user's favorites.
pub fn prompt(animes: &Vec<String>) -> (s: String)
    ensures
        s@ == recommend_prompt(texts(animes@)),
{
    let ten = take_ten(animes);
    let listed = join_strings(&ten, ", ");
    let mut s = "What are the top 10 anime you would recommend if I watch \"".to_owned();
    s.append(listed.as_str());
    s.append("\"?");
    s
}

/// The request for recommendations based on a user's favorites.
pub fn recommend_request(animes: &Vec<String>) -> (r: OAIRequest)
    ensures
        r@ == recommend_request_spec(texts(animes@)),
{
    let p = prompt(animes);
    let mut user = "Answer the following question accurately, but only provide an ordered list without any introductory paragraph. The answer should simply be a list of responses.".to_owned();
    user.append(" ");
    user.append(p.as_str());
    let ten = take_ten(animes);
    let listed = join_strings(&ten, ", ");
    let mut assistant = "List of anime I enjoy: ".to_owned();
    assistant.append(listed.as_str());
    chat_request_of(
        user,
        "You are ChatGPT, a large language model trained by OpenAI, based on the GPT-3.5 architecture. You are also an assistant that provides recommendations on anime to watch according to a user's list of anime they already enjoy watching.".to_owned(),
        assistant,
    )
}

/// The reply showing the question and the model's answer.
pub fn recommend_embed(prompt: String, response: String) -> (e: Embed)
    ensures
        e@ == (EmbedView {
            color: Some(Color::Red),
            title: Some("Recommendations"@),
            fields: seq![
                field_view("Prompt"@, prompt@, false),
                field_view("Response"@, response@, false),
            ],
            ..empty_view()
        }),
{
    let ghost p = prompt@;
    let ghost q = response@;
    let mut e = Embed::empty();
    e.color = Some(Color::Red);
    e.title = Some("Recommendations".to_owned());
    e.push_field("Prompt", prompt, false);
    e.push_field("Response", response, false);
    assert(e@.fields =~= seq![field_view("Prompt"@, p, false), field_view("Response"@, q, false)]);
    e
}

/// The reply when the user's favorites could not be read.
pub open spec fn missing_user_spec() -> EmbedView {
    EmbedView {
        color: Some(Color::Red),
        title: Some("No user found in database"@),
        description: Some("Have you set any favorite animes yet? Do this first before trying to recommend anime to watch."@),
        ..empty_view()
    }
}

/// What the recommend command does once it has asked the store for the
/// user: ask the model (keeping the question to show with its answer), do
/// nothing, or answer with a notice.
#[derive(Debug)]
pub enum RecommendAction {
    Ask(String, OAIRequest),
    Nothing,
    Reply(Embed),
}

/// What the recommend command does, given what the store knows of the user
/// (`Err` where it could not be read): for a known user, ask about their
/// favorites; for an unknown one, nothing; on an error, a notice.
pub fn recommend_action(user: Result<Option<User>, ()>) -> (r: RecommendAction)
    ensures
        match user {
            Ok(Some(u)) => r matches RecommendAction::Ask(p, req) && p@ == recommend_prompt(
                texts(u.animes@),
            ) && req@ == recommend_request_spec(texts(u.animes@)),
            Ok(None) => r is Nothing,
            Err(_) => r matches RecommendAction::Reply(e) && e@ == missing_user_spec(),
        },
{
    match user {
        Ok(Some(u)) => RecommendAction::Ask(prompt(&u.animes), recommend_request(&u.animes)),
        Ok(None) => RecommendAction::Nothing,
        Err(_) => RecommendAction::Reply(missing_user_embed()),
    }
}

/// The reply when the user's favorites could not be read.
pub fn missing_user_embed() -> (e: Embed)
    ensures
        e@ == missing_user_spec(),
{
    let mut e = Embed::empty();
    e.color = Some(Color::Red);
    e.title = Some("No user found in database".to_owned());
    e.description = Some("Have you set any favorite animes yet? Do this first before trying to recommend anime to watch.".to_owned());
    e
}

} // verus!
