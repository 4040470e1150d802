//! Translating a sentence: the words used, the request sent and the reply
//! shown.
use vstd::prelude::*;
use crate::embed::{field_view, Embed, EmbedView, empty_view};
use crate::openai::{chat_request, chat_request_of, OAIRequest, OAIRequestView};
use crate::text::{char_to_uppercase, to_lowercase, unicode_lowercase, unicode_uppercase};

verus! {

/// A lowercased word with its first character uppercased.
pub open spec fn capitalized(lowered: Seq<char>) -> Seq<char> {
    if lowered.len() == 0 {
        Seq::empty()
    } else {
        unicode_uppercase(lowered[0]) + lowered.drop_first()
    }
}

/// The word lowercased, then its first character uppercased.
pub open spec fn capitalize_spec(word: Seq<char>) -> Seq<char> {
    capitalized(unicode_lowercase(word))
}

/// The question put to the model.
pub open spec fn translate_prompt(from: Seq<char>, to: Seq<char>, sentence: Seq<char>) -> Seq<char> {
    "Translate the following sentence from the language "@ + from + " to "@ + to + ": \""@
        + sentence + "\""@
}

/// The instruction that comes before the question.
pub open spec fn translate_preamble() -> Seq<char> {
    "Translate the following message accurately, but only provide a translation without any additional explanation."@
}

/// The system message.
pub open spec fn translate_system() -> Seq<char> {
    "You are ChatGPT, a large language model trained by OpenAI, based on the GPT-3.5 architecture."@
}

/// The assistant message.
pub open spec fn translate_assistant() -> Seq<char> {
    "You will perform the duty of a translator from one language to another."@
}

/// The request for a translation.
pub open spec fn translate_request_spec(from: Seq<char>, to: Seq<char>, sentence: Seq<char>) -> OAIRequestView {
    chat_request(
        translate_preamble() + " "@ + translate_prompt(from, to, sentence),
        translate_system(),
        translate_assistant(),
    )
}

/// The reply shown for a translation.
pub open spec fn translate_embed_spec(
    from: Seq<char>,
    to: Seq<char>,
    sentence: Seq<char>,
    translation: Seq<char>,
) -> EmbedView {
    EmbedView {
        title: Some(
            "Translating"@ + " from "@ + capitalize_spec(from) + " to "@ + capitalize_spec(to),
        ),
        fields: seq![
            field_view("Original"@, sentence, false),
            field_view("Translation"@, translation, false),
        ],
        ..empty_view()
    }
}

/// Uppercases the first character of a word that has been lowercased.
pub fn capitalize_lowered(lowered: &str) -> (s: String)
    ensures
        s@ == capitalized(lowered@),
{
    let n = lowered.unicode_len();
    if n == 0 {
        String::new()
    } else {
        let mut s = char_to_uppercase(lowered.get_char(0));
        let rest = lowered.substring_char(1, n);
        s.append(rest);
        assert(rest@ =~= lowered@.drop_first());
        s
    }
}

/// Lowercases a word, then uppercases its first character.
pub fn capitalize(word: String) -> (s: String)
    ensures
        s@ == capitalize_spec(word@),
{
    let lowered = to_lowercase(word.as_str());
    capitalize_lowered(lowered.as_str())
}

/// The question put to the model.
pub fn prompt(from: &str, to: &str, sentence: &str) -> (s: String)
    ensures
        s@ == translate_prompt(from@, to@, sentence@),
{
    let mut s = "Translate the following sentence from the language ".to_owned();
    s.append(from);
    s.append(" to ");
    s.append(to);
    s.append(": \"");
    s.append(sentence);
    s.append("\"");
    s
}

/// The request for translating `sentence` from one language to another.
pub fn translate_request(from: &str, to: &str, sentence: &str) -> (r: OAIRequest)
    ensures
        r@ == translate_request_spec(from@, to@, sentence@),
{
    let mut user = "Translate the following message accurately, but only provide a translation without any additional explanation.".to_owned();
    user.append(" ");
    let p = prompt(from, to, sentence);
    user.append(p.as_str());
    chat_request_of(
        user,
        "You are ChatGPT, a large language model trained by OpenAI, based on the GPT-3.5 architecture.".to_owned(),
        "You will perform the duty of a translator from one language to another.".to_owned(),
    )
}

/// The reply shown for a translation: the languages, capitalized, in the
/// title, then the sentence and its translation.
pub fn translate_embed(from: String, to: String, sentence: &str, translation: String) -> (e: Embed)
    ensures
        e@ == translate_embed_spec(from@, to@, sentence@, translation@),
{
    let ghost from_text = from@;
    let ghost to_text = to@;
    let from_cap = capitalize(from);
    let to_cap = capitalize(to);
    let mut title = "Translating".to_owned();
    title.append(" from ");
    title.append(from_cap.as_str());
    title.append(" to ");
    title.append(to_cap.as_str());
    let mut e = Embed::empty();
    e.title = Some(title);
    e.push_field("Original", sentence.to_owned(), false);
    let ghost translation_text = translation@;
    e.push_field("Translation", translation, false);
    assert(e@.fields =~= translate_embed_spec(from_text, to_text, sentence@, translation_text).fields);
    e
}

} // verus!
