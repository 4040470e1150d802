//! Walking through the page of trending anime with the previous and next
//! buttons.
use vstd::prelude::*;
use crate::components::{ActionRow, Button, ButtonStyle, ButtonView, Component};
use crate::anilist::{date_text, ranking_readable, text_or, Media};
use crate::embed::{
    field_view, Color, Embed, EmbedAuthor, EmbedAuthorView, EmbedFooter, EmbedFooterView,
    EmbedView, empty_view,
};
use crate::text::{decimal, join, str_eq, texts, u64_to_decimal};

verus! {

/// The index shown after the button with id `id` is pressed while entry
/// `index` of a page of `len` entries is shown; `None` for a press the page
/// ignores. "next" moves forward and wraps to the first entry past the end;
/// "previous" moves back and wraps to the last entry before the first.
pub open spec fn step(index: int, len: int, id: Seq<char>) -> Option<int> {
    if id == "next"@ {
        Some(next_index(index, len))
    } else if id == "previous"@ {
        Some(previous_index(index, len))
    } else {
        None
    }
}

/// The index after "next".
pub open spec fn next_index(index: int, len: int) -> int {
    if index + 1 >= len {
        0
    } else {
        index + 1
    }
}

/// The index after "previous".
pub open spec fn previous_index(index: int, len: int) -> int {
    if index == 0 {
        len - 1
    } else {
        index - 1
    }
}

/// The index after pressing "next" `k` times.
pub open spec fn next_times(index: int, len: int, k: nat) -> int
    decreases k,
{
    if k == 0 {
        index
    } else {
        next_index(next_times(index, len, (k - 1) as nat), len)
    }
}

/// How long, in seconds, the trending page waits for button presses.
pub const SELECTION_TIMEOUT_SECS: u64 = 120;

/// Computes the entry to show after a button press, or `None` when the
/// press is to be ignored. On a page where the shown entry is on the page,
/// "next" shows entry `(index + 1) % len` and "previous" entry
/// `(index + len - 1) % len`.
pub fn navigate(index: usize, len: usize, custom_id: &str) -> (r: Option<usize>)
    requires
        custom_id@ == "next"@ ==> index < usize::MAX,
        custom_id@ == "previous"@ && index == 0 ==> len > 0,
    ensures
        match r {
            Some(i) => step(index as int, len as int, custom_id@) == Some(i as int),
            None => step(index as int, len as int, custom_id@) is None,
        },
        index < len && custom_id@ == "next"@ ==> r == Some(((index + 1) % (len as int)) as usize),
        index < len && custom_id@ == "previous"@ ==> r == Some(
            ((index + len - 1) % (len as int)) as usize,
        ),
{
    proof {
        if index < len {
            lemma_trending_wraps(index as int, len as int, custom_id@);
        }
    }
    if str_eq(custom_id, "next") {
        let i = index + 1;
        if i >= len {
            Some(0)
        } else {
            Some(i)
        }
    } else if str_eq(custom_id, "previous") {
        if index == 0 {
            Some(len - 1)
        } else {
            Some(index - 1)
        }
    } else {
        None
    }
}

/// The "Next" button.
pub fn next() -> (b: Button)
    ensures
        b@ == (ButtonView {
            custom_id: "next"@,
            label: "Next"@,
            emoji: None,
            style: ButtonStyle::Success,
        }),
{
    Button {
        custom_id: "next".to_owned(),
        label: "Next".to_owned(),
        emoji: None,
        style: ButtonStyle::Success,
    }
}

/// The "Previous" button.
pub fn previous() -> (b: Button)
    ensures
        b@ == (ButtonView {
            custom_id: "previous"@,
            label: "Previous"@,
            emoji: None,
            style: ButtonStyle::Success,
        }),
{
    Button {
        custom_id: "previous".to_owned(),
        label: "Previous".to_owned(),
        emoji: None,
        style: ButtonStyle::Success,
    }
}

/// The row holding the "Previous" button, then the "Next" button.
pub fn action_row() -> (ar: ActionRow)
    ensures
        ar.components@.len() == 2,
        ar.components@[0] matches Component::Button(b) && b@.custom_id == "previous"@
            && b@.label == "Previous"@ && b@.emoji is None && b@.style == ButtonStyle::Success,
        ar.components@[1] matches Component::Button(b) && b@.custom_id == "next"@ && b@.label
            == "Next"@ && b@.emoji is None && b@.style == ButtonStyle::Success,
{
    let mut components: Vec<Component> = Vec::new();
    components.push(Component::Button(previous()));
    components.push(Component::Button(next()));
    ActionRow { components }
}

/// The ids of the two buttons differ, and no other id moves the page.
pub proof fn lemma_button_ids_differ()
    ensures
        "next"@ != "previous"@,
        step(0, 1, "next"@) == Some(0int),
        step(0, 1, "previous"@) == Some(0int),
{
    reveal_strlit("next");
    reveal_strlit("previous");
    assert("next"@.len() != "previous"@.len());
}

/// On a page of `n` entries showing entry `i`: "next" shows entry
/// `(i + 1) % n`, "previous" entry `(i + n - 1) % n`, any other press
/// changes nothing, and the shown entry stays on the page.
pub proof fn lemma_trending_wraps(i: int, n: int, c: Seq<char>)
    requires
        0 <= i < n,
    ensures
        c == "next"@ ==> step(i, n, c) == Some((i + 1) % n),
        c == "previous"@ ==> step(i, n, c) == Some((i + n - 1) % n),
        c != "next"@ && c != "previous"@ ==> step(i, n, c) is None,
        step(i, n, c) matches Some(j) ==> 0 <= j < n,
{
    lemma_button_ids_differ();
    if i + 1 < n {
        vstd::arithmetic::div_mod::lemma_small_mod((i + 1) as nat, n as nat);
    } else {
        vstd::arithmetic::div_mod::lemma_mod_self_0(n);
    }
    if i == 0 {
        vstd::arithmetic::div_mod::lemma_small_mod((n - 1) as nat, n as nat);
    } else {
        vstd::arithmetic::div_mod::lemma_mod_add_multiples_vanish(i - 1, n);
        vstd::arithmetic::div_mod::lemma_small_mod((i - 1) as nat, n as nat);
        assert(n + (i - 1) == i + n - 1);
    }
}

/// On a non-empty page, a press keeps the shown entry on the page.
pub proof fn lemma_step_stays_on_page(index: int, len: int, id: Seq<char>)
    requires
        0 <= index < len,
    ensures
        step(index, len, id) matches Some(j) ==> 0 <= j < len,
{
}

/// "previous" undoes "next", and "next" undoes "previous".
pub proof fn lemma_previous_undoes_next(index: int, len: int)
    requires
        0 <= index < len,
    ensures
        previous_index(next_index(index, len), len) == index,
        next_index(previous_index(index, len), len) == index,
{
}

/// Pressing "next" `k` times from entry `index` shows entry
/// `(index + k) % len`: after `len` presses the page is back where it began.
pub proof fn lemma_next_times(index: int, len: int, k: nat)
    requires
        0 <= index < len,
    ensures
        next_times(index, len, k) == (index + k) % len,
        0 <= next_times(index, len, k) < len,
    decreases k,
{
    if k == 0 {
        vstd::arithmetic::div_mod::lemma_small_mod(index as nat, len as nat);
    } else {
        lemma_next_times(index, len, (k - 1) as nat);
        let j = next_times(index, len, (k - 1) as nat);
        assert(j == (index + k - 1) % len);
        vstd::arithmetic::div_mod::lemma_add_mod_noop(index + k - 1, 1, len);
        if len == 1 {
            assert((index + k) % 1 == 0) by (nonlinear_arith);
        } else {
            vstd::arithmetic::div_mod::lemma_small_mod(1, len as nat);
            if j + 1 < len {
                vstd::arithmetic::div_mod::lemma_small_mod((j + 1) as nat, len as nat);
            } else {
                vstd::arithmetic::div_mod::lemma_mod_self_0(len);
            }
        }
    }
}

/// After as many presses of "next" as the page has entries, the page shows
/// the entry it began with.
pub proof fn lemma_full_cycle(index: int, len: int)
    requires
        0 <= index < len,
    ensures
        next_times(index, len, len as nat) == index,
{
    lemma_next_times(index, len, len as nat);
    vstd::arithmetic::div_mod::lemma_add_mod_noop(index, len, len);
    vstd::arithmetic::div_mod::lemma_mod_self_0(len);
    vstd::arithmetic::div_mod::lemma_small_mod(index as nat, len as nat);
}

/// The text that comes with the first trending message.
pub open spec fn intro_content_spec() -> Seq<char> {
    "_List will dissapear after **one** minute!_"@
}

/// The first trending message.
pub open spec fn intro_embed_spec() -> EmbedView {
    EmbedView {
        title: Some("Top trending anime of the week."@),
        description: Some(
            "This is a list of the top trending anime. Click next or previous to cycle through your options!"@,
        ),
        color: Some(Color::Gold),
        footer: Some(
            EmbedFooterView { text: "List is from AniList, updated weekly."@, icon_url: None },
        ),
        ..empty_view()
    }
}

/// The page of an entry on MyAnimeList.
pub open spec fn mal_url(id: u32) -> Seq<char> {
    "https://myanimelist.net/anime/"@ + decimal(id as nat)
}

/// The message shown for an entry; `score` is the text of its average
/// score.
pub open spec fn media_embed_spec(m: Media, score: Seq<char>) -> EmbedView {
    EmbedView {
        title: Some(
            text_or(m.title.romaji, "No title found"@) + " (_"@ + text_or(
                m.title.english,
                "No title found"@,
            ) + "_)"@,
        ),
        description: Some(m.description_text()),
        color: Some(Color::Gold),
        author: Some(
            EmbedAuthorView {
                name: "\u{276F}\u{276F} Link to MyAnimeList"@,
                url: mal_url(m.idMal),
                icon_url: "https://upload.wikimedia.org/wikipedia/commons/7/7a/MyAnimeList_Logo.png"@,
            },
        ),
        image: Some(text_or(m.coverImage.large, "No image found"@)),
        attachment: None,
        fields: seq![
            field_view("Rating"@, score + "%"@, true),
            field_view(
                "Episode Count"@,
                decimal(m.episodes.unwrap_or(0) as nat) + " episodes"@,
                true,
            ),
            field_view(
                "Episode Duration"@,
                decimal(m.duration.unwrap_or(0) as nat) + " minutes"@,
                true,
            ),
            field_view(
                "Start Date"@,
                date_text(
                    m.startDate.year,
                    m.startDate.month,
                    m.startDate.day,
                    "No start date provided."@,
                ),
                true,
            ),
            field_view(
                "End Date"@,
                date_text(m.endDate.year, m.endDate.month, m.endDate.day, "No end date provided."@),
                true,
            ),
            field_view("Status"@, text_or(m.status, "No status provided."@), true),
            field_view(
                "Season"@,
                text_or(m.season, "No season provided."@) + " "@ + decimal(
                    m.seasonYear.unwrap_or(0) as nat,
                ),
                true,
            ),
            field_view("Rankings"@, m.rated_text(), true),
            field_view("Popularity"@, m.popular_text(), true),
            field_view("Genre"@, join(texts(m.genres@), ", "@), true),
            field_view("Format"@, text_or(m.format, "No format provided."@), true),
        ],
        footer: Some(
            EmbedFooterView {
                text: "Powered by AniList.co"@,
                icon_url: Some("https://anilist.co/img/icons/android-chrome-512x512.png"@),
            },
        ),
    }
}

/// The text that comes with the first trending message.
pub fn intro_content() -> (s: String)
    ensures
        s@ == intro_content_spec(),
{
    "_List will dissapear after **one** minute!_".to_owned()
}

/// The first trending message.
pub fn intro_embed() -> (e: Embed)
    ensures
        e@ == intro_embed_spec(),
{
    let mut e = Embed::empty();
    e.title = Some("Top trending anime of the week.".to_owned());
    e.description = Some(
        "This is a list of the top trending anime. Click next or previous to cycle through your options!".to_owned(),
    );
    e.color = Some(Color::Gold);
    e.footer = Some(
        EmbedFooter { text: "List is from AniList, updated weekly.".to_owned(), icon_url: None },
    );
    e
}

/// The message sent when nobody pressed a button in time.
pub fn timeout_embed() -> (e: Embed)
    ensures
        e@ == (EmbedView {
            description: Some("_Selection timed out!_"@),
            color: Some(Color::Red),
            ..empty_view()
        }),
{
    Embed::notice("_Selection timed out!_", Color::Red)
}

fn number_with(n: u32, suffix: &str) -> (s: String)
    ensures
        s@ == decimal(n as nat) + suffix@,
{
    let mut s = u64_to_decimal(n as u64);
    s.append(suffix);
    s
}

/// One press on the trending page: the entry to show next and the message
/// that shows it, or `None` for a press the page ignores. `scores` holds the
/// text of each entry's average score.
pub fn trending_step(media: &Vec<Media>, scores: &Vec<String>, index: usize, custom_id: &str) -> (r:
    Option<(usize, Embed)>)
    requires
        scores@.len() == media@.len(),
        custom_id@ == "next"@ ==> index < usize::MAX,
        step(index as int, media@.len() as int, custom_id@) matches Some(j) ==> 0 <= j
            < media@.len() && ranking_readable(media@[j].rankings@, "RATED"@) && ranking_readable(
            media@[j].rankings@,
            "POPULAR"@,
        ),
    ensures
        match r {
            None => step(index as int, media@.len() as int, custom_id@) is None,
            Some((j, e)) => step(index as int, media@.len() as int, custom_id@) == Some(j as int)
                && e@ == media_embed_spec(media@[j as int], scores@[j as int]@),
        },
{
    match navigate(index, media.len(), custom_id) {
        Some(j) => Some((j, media_embed(&media[j], scores[j].as_str()))),
        None => None,
    }
}

/// The message shown for an entry of the trending page; `score` is the
/// text of its average score.
pub fn media_embed(media: &Media, score: &str) -> (e: Embed)
    requires
        ranking_readable(media.rankings@, "RATED"@),
        ranking_readable(media.rankings@, "POPULAR"@),
    ensures
        e@ == media_embed_spec(*media, score@),
{
    let mut title = media.title_romaji();
    title.append(" (_");
    let english = media.title_english();
    title.append(english.as_str());
    title.append("_)");
    let mut url = "https://myanimelist.net/anime/".to_owned();
    let id = u64_to_decimal(media.id() as u64);
    url.append(id.as_str());
    let mut e = Embed::empty();
    e.color = Some(Color::Gold);
    e.title = Some(title);
    e.author = Some(
        EmbedAuthor {
            name: "\u{276F}\u{276F} Link to MyAnimeList".to_owned(),
            url,
            icon_url: "https://upload.wikimedia.org/wikipedia/commons/7/7a/MyAnimeList_Logo.png".to_owned(),
        },
    );
    e.description = Some(media.description());
    e.image = Some(media.cover_image());
    let mut rating = score.to_owned();
    rating.append("%");
    e.push_field("Rating", rating, true);
    e.push_field("Episode Count", number_with(*media.episodes(), " episodes"), true);
    e.push_field("Episode Duration", number_with(*media.duration(), " minutes"), true);
    e.push_field("Start Date", media.start_date(), true);
    e.push_field("End Date", media.end_date(), true);
    e.push_field("Status", media.status(), true);
    let mut season = media.season();
    season.append(" ");
    let year = u64_to_decimal(*media.season_year() as u64);
    season.append(year.as_str());
    e.push_field("Season", season, true);
    e.push_field("Rankings", media.rankings(), true);
    e.push_field("Popularity", media.popularity(), true);
    e.push_field("Genre", media.genres(), true);
    e.push_field("Format", media.format(), true);
    e.footer = Some(
        EmbedFooter {
            text: "Powered by AniList.co".to_owned(),
            icon_url: Some("https://anilist.co/img/icons/android-chrome-512x512.png".to_owned()),
        },
    );
    assert(e@.fields =~= media_embed_spec(*media, score@).fields);
    e
}

} // verus!
