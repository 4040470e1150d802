//! A Kitsu search result and the reply the bot shows for its first entry.
use vstd::prelude::*;
use crate::embed::{field_view, Color, Embed, EmbedFooter, EmbedFooterView, EmbedView};
use crate::json::Json;
use crate::text::{i64_to_decimal, signed_decimal};

verus! {

/// A Kitsu search result.
#[derive(Debug)]
pub struct Anime {
    /// List of all anime datum
    pub data: Vec<Datum>,
}

/// One entry of a search result.
#[derive(Debug)]
pub struct Datum {
    /// Details for the current anime datum
    pub attributes: Attributes,
}

/// What Kitsu knows of an anime.
#[derive(Debug)]
pub struct Attributes {
    /// Synopsis of the anime series
    pub synopsis: Option<String>,
    /// List of titles for the anime (e.g. English, Japanese, etc.)
    pub titles: Titles,
    /// The canonical title of the anime as it appears on the site
    pub canonical_title: Option<String>,
    /// The abbreviated and alternative titles of the anime
    pub abbreviated_titles: Vec<String>,
    /// The average user score of the anime (out of 100)
    pub average_rating: Option<String>,
    /// Average rating frequency of the anime for each rating value
    pub rating_frequencies: Vec<(String, String)>,
    /// Release date
    pub start_date: Option<String>,
    /// End date
    pub end_date: Option<String>,
    /// The next episode release date of the anime
    pub next_release: Option<Json>,
    /// Rank of the anime's popularity compared to other anime
    pub popularity_rank: Option<i64>,
    /// Rank of the anime's score using the average rating compared to other anime
    pub rating_rank: Option<i64>,
    /// Age rating (e.g. 'R', 'PG-13', 'G', etc.)
    pub age_rating: Option<String>,
    /// Age rating guide (e.g. 17+ (violence & profanity))
    pub age_rating_guide: Option<String>,
    /// Subtype (e.g. movie, special, OVA, etc.)
    pub subtype: Option<String>,
    /// Current status (e.g. finished, current, tba, etc.)
    pub status: Option<String>,
    /// Poster image url
    pub poster_image: Option<PosterImage>,
    /// Total episode count
    pub episode_count: Option<i64>,
    /// Episode length in minutes
    pub episode_length: Option<i64>,
    /// Total length of all episodes
    pub total_length: Option<i64>,
    /// If the anime is nsfw
    pub nsfw: Option<bool>,
}

/// The poster images of an anime.
#[derive(Clone, Debug)]
pub struct PosterImage {
    /// The url of the smallest image
    pub tiny: Option<String>,
    /// The url of the largest image
    pub large: Option<String>,
    /// The url of the medium image
    pub small: Option<String>,
    /// The url of the original image
    pub original: Option<String>,
}

/// The titles of an anime.
#[derive(Clone, Debug)]
pub struct Titles {
    /// The english title for the anime
    pub en: Option<String>,
    /// The rōmaji title for the anime
    pub en_jp: Option<String>,
    /// The japanese title for the anime
    pub ja_jp: Option<String>,
}

/// The address of a Kitsu search for the single best match of a name.
pub open spec fn search_url_spec(name: Seq<char>) -> Seq<char> {
    "https://kitsu.io/api/edge/anime?filter[text]="@ + name + "&page[limit]=1"@
}

/// Builds the address of a Kitsu search for the single best match of a name.
pub fn search_url(name: &str) -> (s: String)
    ensures
        s@ == search_url_spec(name@),
{
    let mut s = "https://kitsu.io/api/edge/anime?filter[text]=".to_owned();
    s.append(name);
    s.append("&page[limit]=1");
    s
}

/// Every attribute the reply shows is there.
pub open spec fn info_readable(a: Attributes) -> bool {
    &&& a.canonical_title is Some
    &&& a.synopsis is Some
    &&& a.poster_image matches Some(p) && p.large is Some
    &&& a.average_rating is Some
    &&& a.episode_count is Some
    &&& a.episode_length is Some
    &&& a.start_date is Some
    &&& a.end_date is Some
    &&& a.status is Some
    &&& a.age_rating_guide is Some
}

/// The reply shown for an anime.
pub open spec fn info_embed_spec(a: Attributes) -> EmbedView {
    let poster = a.poster_image.unwrap().large.unwrap()@;
    EmbedView {
        title: Some("Info for "@ + a.canonical_title.unwrap()@),
        description: Some(a.synopsis.unwrap()@),
        color: Some(Color::DarkGreen),
        author: None,
        image: Some(poster),
        attachment: Some(poster),
        fields: seq![
            field_view("Rating"@, a.average_rating.unwrap()@, true),
            field_view(
                "Episode Count"@,
                signed_decimal(a.episode_count.unwrap() as int) + " episodes"@,
                true,
            ),
            field_view(
                "Episode Length"@,
                signed_decimal(a.episode_length.unwrap() as int) + " minutes"@,
                true,
            ),
            field_view("Start Date"@, a.start_date.unwrap()@, true),
            field_view("End Date"@, a.end_date.unwrap()@, true),
            field_view("Status"@, a.status.unwrap()@, true),
            field_view("Age Rating Guide"@, a.age_rating_guide.unwrap()@, false),
        ],
        footer: Some(EmbedFooterView { text: "Powered by Kitsu.io"@, icon_url: None }),
    }
}

/// The reply for an anime shows, in order: its rating, its episode count
/// with " episodes", the length of one episode with " minutes", its start
/// and end dates, its status (all inline), then its age rating guide on a
/// line of its own; titled "Info for" its canonical title, described by its
/// synopsis, with its large poster as image and attachment.
pub proof fn lemma_info_embed_shows(a: Attributes)
    requires
        info_readable(a),
    ensures
        ({
            let e = info_embed_spec(a);
            &&& e.title == Some("Info for "@ + a.canonical_title.unwrap()@)
            &&& e.description == Some(a.synopsis.unwrap()@)
            &&& e.image == Some(a.poster_image.unwrap().large.unwrap()@)
            &&& e.attachment == Some(a.poster_image.unwrap().large.unwrap()@)
            &&& e.color == Some(Color::DarkGreen)
            &&& e.fields.len() == 7
            &&& e.fields[0].name == "Rating"@ && e.fields[0].value == a.average_rating.unwrap()@
            &&& e.fields[1].name == "Episode Count"@ && e.fields[1].value == signed_decimal(
                a.episode_count.unwrap() as int,
            ) + " episodes"@
            &&& e.fields[2].name == "Episode Length"@ && e.fields[2].value == signed_decimal(
                a.episode_length.unwrap() as int,
            ) + " minutes"@
            &&& e.fields[3].name == "Start Date"@ && e.fields[3].value == a.start_date.unwrap()@
            &&& e.fields[4].name == "End Date"@ && e.fields[4].value == a.end_date.unwrap()@
            &&& e.fields[5].name == "Status"@ && e.fields[5].value == a.status.unwrap()@
            &&& e.fields[6].name == "Age Rating Guide"@ && e.fields[6].value
                == a.age_rating_guide.unwrap()@
            &&& forall|i: int| 0 <= i < 6 ==> #[trigger] e.fields[i].inline
            &&& !e.fields[6].inline
        }),
{
}

/// Two anime that agree on every attribute the reply shows get the same
/// reply: what it leaves out (such as the total length, the titles or the
/// ranks) changes nothing in it.
pub proof fn lemma_info_embed_ignores_unshown(a: Attributes, b: Attributes)
    requires
        info_readable(a),
        info_readable(b),
        a.canonical_title.unwrap()@ == b.canonical_title.unwrap()@,
        a.synopsis.unwrap()@ == b.synopsis.unwrap()@,
        a.poster_image.unwrap().large.unwrap()@ == b.poster_image.unwrap().large.unwrap()@,
        a.average_rating.unwrap()@ == b.average_rating.unwrap()@,
        a.episode_count == b.episode_count,
        a.episode_length == b.episode_length,
        a.start_date.unwrap()@ == b.start_date.unwrap()@,
        a.end_date.unwrap()@ == b.end_date.unwrap()@,
        a.status.unwrap()@ == b.status.unwrap()@,
        a.age_rating_guide.unwrap()@ == b.age_rating_guide.unwrap()@,
    ensures
        info_embed_spec(a) == info_embed_spec(b),
{
    lemma_info_embed_shows(a);
    lemma_info_embed_shows(b);
    assert(info_embed_spec(a).fields =~= info_embed_spec(b).fields);
}

fn with_suffix(n: i64, suffix: &str) -> (s: String)
    ensures
        s@ == signed_decimal(n as int) + suffix@,
{
    let mut s = i64_to_decimal(n);
    s.append(suffix);
    s
}

impl Anime {
    /// Whether the search found an entry whose every shown attribute is
    /// there.
    pub fn is_info_readable(&self) -> (b: bool)
        ensures
            b == (self.data@.len() > 0 && info_readable(self.data@[0].attributes)),
    {
        if self.data.len() == 0 {
            return false;
        }
        let a = &self.data[0].attributes;
        let poster_ok = match &a.poster_image {
            Some(p) => p.large.is_some(),
            None => false,
        };
        a.canonical_title.is_some() && a.synopsis.is_some() && poster_ok
            && a.average_rating.is_some() && a.episode_count.is_some()
            && a.episode_length.is_some() && a.start_date.is_some() && a.end_date.is_some()
            && a.status.is_some() && a.age_rating_guide.is_some()
    }

    /// The reply shown for the first entry of a search result.
    pub fn info_embed(&self) -> (e: Embed)
        requires
            self.data@.len() > 0,
            info_readable(self.data@[0].attributes),
        ensures
            e@ == info_embed_spec(self.data@[0].attributes),
    {
        let a = &self.data[0].attributes;
        let poster = a.poster_image.as_ref().unwrap().large.as_ref().unwrap();
        let mut title = "Info for ".to_owned();
        title.append(a.canonical_title.as_ref().unwrap().as_str());
        let mut e = Embed::empty();
        e.color = Some(Color::DarkGreen);
        e.title = Some(title);
        e.description = Some(a.synopsis.as_ref().unwrap().clone());
        e.attachment = Some(poster.clone());
        e.image = Some(poster.clone());
        e.push_field("Rating", a.average_rating.as_ref().unwrap().clone(), true);
        e.push_field("Episode Count", with_suffix(a.episode_count.unwrap(), " episodes"), true);
        e.push_field("Episode Length", with_suffix(a.episode_length.unwrap(), " minutes"), true);
        e.push_field("Start Date", a.start_date.as_ref().unwrap().clone(), true);
        e.push_field("End Date", a.end_date.as_ref().unwrap().clone(), true);
        e.push_field("Status", a.status.as_ref().unwrap().clone(), true);
        e.push_field("Age Rating Guide", a.age_rating_guide.as_ref().unwrap().clone(), false);
        e.footer = Some(EmbedFooter { text: "Powered by Kitsu.io".to_owned(), icon_url: None });
        assert(e@.fields =~= info_embed_spec(self.data@[0].attributes).fields);
        e
    }
}

} // verus!
