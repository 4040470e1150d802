//! An AniList media entry and the text the bot shows for each of its
//! attributes.
use vstd::prelude::*;
use crate::embed::opt_text;
use crate::text::{decimal, i64_to_decimal, join, join_strings, signed_decimal, str_eq, texts, u64_to_decimal};

verus! {

/// The query for a page of media, sorted as asked.
pub struct TrendingQuery;

/// How the page of media is sorted.
#[derive(Clone, Copy, Debug, PartialEq, Eq, Structural)]
pub enum MediaSort {
    POPULARITY_DESC,
    TRENDING_DESC,
}

/// The variables of the page query: how many entries, what to search for,
/// and the order.
#[derive(Clone, Debug)]
pub struct Variables {
    pub amt: Option<i64>,
    pub search: Option<String>,
    pub sort: Option<Vec<Option<MediaSort>>>,
}

impl TrendingQuery {
    /// The variables that look up the single most popular entry matching a
    /// name.
    pub fn search(name: &str) -> (v: Variables)
        ensures
            v.amt == Some(1i64),
            opt_text(v.search) == Some(name@),
            v.sort matches Some(s) && s@ == seq![Some(MediaSort::POPULARITY_DESC)],
    {
        let mut sort: Vec<Option<MediaSort>> = Vec::new();
        sort.push(Some(MediaSort::POPULARITY_DESC));
        assert(sort@ =~= seq![Some(MediaSort::POPULARITY_DESC)]);
        Variables { amt: Some(1), search: Some(name.to_owned()), sort: Some(sort) }
    }

    /// The variables that ask for the ten entries trending most.
    pub fn trending() -> (v: Variables)
        ensures
            v.amt == Some(10i64),
            v.search is None,
            v.sort matches Some(s) && s@ == seq![Some(MediaSort::TRENDING_DESC)],
    {
        let mut sort: Vec<Option<MediaSort>> = Vec::new();
        sort.push(Some(MediaSort::TRENDING_DESC));
        assert(sort@ =~= seq![Some(MediaSort::TRENDING_DESC)]);
        Variables { amt: Some(10), search: None, sort: Some(sort) }
    }
}

/// A page of media entries.
#[derive(Clone, Debug)]
pub struct Page {
    pub media: Vec<Media>,
}

/// One ranking of an entry, such as "#3 highest rated all time".
#[derive(Clone, Debug)]
pub struct Ranking {
    pub rank: Option<u32>,
    pub kind: Option<String>,
    pub allTime: Option<bool>,
    pub context: Option<String>,
}

/// The titles of an entry.
#[derive(Clone, Debug)]
pub struct Title {
    pub romaji: Option<String>,
    pub english: Option<String>,
    pub native: Option<String>,
}

/// The cover images of an entry.
#[derive(Clone, Debug)]
pub struct CoverImage {
    pub medium: Option<String>,
    pub large: Option<String>,
}

/// The day an entry began airing, as far as it is known.
#[derive(Clone, Debug)]
pub struct StartDate {
    pub year: Option<i32>,
    pub month: Option<i32>,
    pub day: Option<i32>,
}

/// The day an entry stopped airing, as far as it is known.
#[derive(Clone, Debug)]
pub struct EndDate {
    pub year: Option<i32>,
    pub month: Option<i32>,
    pub day: Option<i32>,
}

/// An AniList media entry. Its average score, a float, is kept by the
/// caller and handed in as text where it is shown.
#[derive(Clone, Debug)]
pub struct Media {
    pub idMal: u32,
    pub title: Title,
    pub description: Option<String>,
    pub coverImage: CoverImage,
    pub format: Option<String>,
    pub status: Option<String>,
    pub startDate: StartDate,
    pub endDate: EndDate,
    pub genres: Vec<String>,
    pub episodes: Option<u32>,
    pub duration: Option<u32>,
    pub seasonYear: Option<u32>,
    pub season: Option<String>,
    pub rankings: Vec<Ranking>,
    pub nextAiringEpisode: Option<AiringSchedule>,
}

/// The next episode of an entry to air: its number, the seconds left until
/// it airs, and the time it airs at.
#[derive(Clone, Copy, Debug, PartialEq, Eq, Structural)]
pub struct AiringSchedule {
    pub episode: i32,
    pub timeUntilAiring: i32,
    pub airingAt: i32,
}

/// The text of an optional string, or `default` where there is none.
pub open spec fn text_or(o: Option<String>, default: Seq<char>) -> Seq<char> {
    match o {
        Some(s) => s@,
        None => default,
    }
}

/// A date as `year-month-day`, each in decimal, or `missing` unless all
/// three parts are known.
pub open spec fn date_text(
    year: Option<i32>,
    month: Option<i32>,
    day: Option<i32>,
    missing: Seq<char>,
) -> Seq<char> {
    match (year, month, day) {
        (Some(y), Some(m), Some(d)) => signed_decimal(y as int) + "-"@ + signed_decimal(m as int)
            + "-"@ + signed_decimal(d as int),
        _ => missing,
    }
}

/// Whether a ranking is of the given kind.
pub open spec fn kind_is(r: Ranking, kind: Seq<char>) -> bool {
    r.kind matches Some(k) && k@ == kind
}

/// Entry `i` is the first ranking of the given kind, and every ranking
/// before it has a kind.
pub open spec fn is_first_of_kind(rs: Seq<Ranking>, kind: Seq<char>, i: int) -> bool {
    &&& 0 <= i < rs.len()
    &&& kind_is(rs[i], kind)
    &&& forall|j: int| 0 <= j < i ==> (#[trigger] rs[j]).kind is Some && !kind_is(rs[j], kind)
}

/// The rankings can be read for a kind: a first ranking of that kind is
/// found with every ranking before it having a kind, and it has both a rank
/// and a context.
pub open spec fn ranking_readable(rs: Seq<Ranking>, kind: Seq<char>) -> bool {
    exists|i: int|
        #[trigger] is_first_of_kind(rs, kind, i) && rs[i].rank is Some && rs[i].context is Some
}

/// A ranking as `#rank context`.
pub open spec fn ranking_text(r: Ranking) -> Seq<char> {
    "#"@ + decimal(r.rank.unwrap() as nat) + " "@ + r.context.unwrap()@
}

/// What the HTML sanitizer with its default rules (every tag removed) makes
/// of a text: the cleaned text, or `None` where it fails.
pub uninterp spec fn sanitized_by_default_rules(input: Seq<char>) -> Option<Seq<char>>;

/// Sanitizes HTML with `sanitize_html::sanitize_str` and the predefined
/// `DEFAULT` rules, which remove every tag. The contract names the result
/// and says no more of the HTML cleaning; an error becomes `None`.
#[verifier::external_body]
fn sanitize_default(input: &str) -> (r: Option<String>)
    ensures
        opt_text(r) == sanitized_by_default_rules(input@),
{
    sanitize_html::sanitize_str(&sanitize_html::rules::predefined::DEFAULT, input).ok()
}

/// The description shown for a sanitizer's outcome: the cleaned text, or a
/// notice where cleaning failed.
pub fn description_or_default(sanitized: Option<String>) -> (s: String)
    ensures
        s@ == text_or(sanitized, "No description provided."@),
{
    match sanitized {
        Some(d) => d,
        None => "No description provided.".to_owned(),
    }
}

fn text_or_default(o: &Option<String>, default: &str) -> (s: String)
    ensures
        s@ == text_or(*o, default@),
{
    match o {
        Some(t) => t.clone(),
        None => default.to_owned(),
    }
}

fn date_or_default(year: Option<i32>, month: Option<i32>, day: Option<i32>, missing: &str) -> (s:
    String)
    ensures
        s@ == date_text(year, month, day, missing@),
{
    match (year, month, day) {
        (Some(y), Some(m), Some(d)) => {
            let mut s = i64_to_decimal(y as i64);
            s.append("-");
            let ms = i64_to_decimal(m as i64);
            s.append(ms.as_str());
            s.append("-");
            let ds = i64_to_decimal(d as i64);
            s.append(ds.as_str());
            s
        },
        _ => missing.to_owned(),
    }
}

/// Finds the first ranking of a kind and writes it as `#rank context`.
fn ranking_of_kind(rs: &Vec<Ranking>, kind: &str) -> (s: String)
    requires
        ranking_readable(rs@, kind@),
    ensures
        forall|i: int| is_first_of_kind(rs@, kind@, i) ==> s@ == ranking_text(rs@[i]),
{
    let ghost i0 = choose|i: int|
        #[trigger] is_first_of_kind(rs@, kind@, i) && rs@[i].rank is Some && rs@[i].context
            is Some;
    let n = rs.len();
    let mut i: usize = 0;
    while i < n
        invariant
            n == rs@.len(),
            is_first_of_kind(rs@, kind@, i0),
            rs@[i0].rank is Some,
            rs@[i0].context is Some,
            i <= i0,
            forall|j: int| 0 <= j < i ==> (#[trigger] rs@[j]).kind is Some && !kind_is(rs@[j], kind@),
        decreases n - i,
    {
        let r = &rs[i];
        let k = r.kind.as_ref().unwrap();
        if str_eq(k.as_str(), kind) {
            assert(i as int == i0);
            let rank = r.rank.unwrap();
            let context = r.context.as_ref().unwrap();
            let mut s = "#".to_owned();
            let digits = u64_to_decimal(rank as u64);
            s.append(digits.as_str());
            s.append(" ");
            s.append(context.as_str());
            proof {
                assert forall|j: int| is_first_of_kind(rs@, kind@, j) implies j == i as int by {
                    if j < i {
                    } else if j > i {
                        assert(kind_is(rs@[i as int], kind@));
                    }
                }
            }
            return s;
        }
        i = i + 1;
    }
    proof {
        assert(false);
    }
    String::new()
}

/// Whether the rankings can be read for a kind: a first ranking of that
/// kind is found, every ranking before it has a kind, and it has both a rank
/// and a context.
pub fn can_read_ranking(rs: &Vec<Ranking>, kind: &str) -> (b: bool)
    ensures
        b == ranking_readable(rs@, kind@),
{
    let n = rs.len();
    let mut i: usize = 0;
    while i < n
        invariant
            n == rs@.len(),
            i <= n,
            forall|j: int| 0 <= j < i ==> (#[trigger] rs@[j]).kind is Some && !kind_is(rs@[j], kind@),
        decreases n - i,
    {
        match &rs[i].kind {
            None => {
                proof {
                    assert forall|k: int| !is_first_of_kind(rs@, kind@, k) by {
                        if is_first_of_kind(rs@, kind@, k) {
                            if k > i {
                                assert(rs@[i as int].kind is Some);
                            }
                        }
                    }
                }
                return false;
            },
            Some(k) => {
                if str_eq(k.as_str(), kind) {
                    assert(is_first_of_kind(rs@, kind@, i as int));
                    let b = rs[i].rank.is_some() && rs[i].context.is_some();
                    proof {
                        assert forall|k: int| is_first_of_kind(rs@, kind@, k) implies k == i by {
                            if k > i {
                                assert(kind_is(rs@[i as int], kind@));
                            }
                        }
                    }
                    return b;
                }
            },
        }
        i = i + 1;
    }
    proof {
        assert forall|k: int| !is_first_of_kind(rs@, kind@, k) by {
            if is_first_of_kind(rs@, kind@, k) {
                assert(!kind_is(rs@[k], kind@));
            }
        }
    }
    false
}

impl Media {
    /// The text of the entry's rated ranking.
    pub open spec fn rated_text(&self) -> Seq<char> {
        ranking_text(self.rankings@[choose|i: int| is_first_of_kind(self.rankings@, "RATED"@, i)])
    }

    /// The text of the entry's popularity ranking.
    pub open spec fn popular_text(&self) -> Seq<char> {
        ranking_text(
            self.rankings@[choose|i: int| is_first_of_kind(self.rankings@, "POPULAR"@, i)],
        )
    }

    /// The description shown for the entry.
    pub open spec fn description_text(&self) -> Seq<char> {
        match self.description {
            Some(d) => match sanitized_by_default_rules(d@) {
                Some(clean) => clean,
                None => "No description provided."@,
            },
            None => "No description provided."@,
        }
    }

    /// The MyAnimeList id of the entry.
    pub fn id(&self) -> (id: u32)
        ensures
            id == self.idMal,
    {
        self.idMal
    }

    /// The entry's first ranking of kind "RATED", as `#rank context`.
    pub fn rankings(&self) -> (s: String)
        requires
            ranking_readable(self.rankings@, "RATED"@),
        ensures
            forall|i: int|
                is_first_of_kind(self.rankings@, "RATED"@, i) ==> s@ == ranking_text(
                    self.rankings@[i],
                ),
            s@ == self.rated_text(),
    {
        ranking_of_kind(&self.rankings, "RATED")
    }

    /// The entry's first ranking of kind "POPULAR", as `#rank context`.
    pub fn popularity(&self) -> (s: String)
        requires
            ranking_readable(self.rankings@, "POPULAR"@),
        ensures
            forall|i: int|
                is_first_of_kind(self.rankings@, "POPULAR"@, i) ==> s@ == ranking_text(
                    self.rankings@[i],
                ),
            s@ == self.popular_text(),
    {
        ranking_of_kind(&self.rankings, "POPULAR")
    }

    /// The English title, or a notice.
    pub fn title_english(&self) -> (s: String)
        ensures
            s@ == text_or(self.title.english, "No title found"@),
    {
        text_or_default(&self.title.english, "No title found")
    }

    /// The romaji title, or a notice.
    pub fn title_romaji(&self) -> (s: String)
        ensures
            s@ == text_or(self.title.romaji, "No title found"@),
    {
        text_or_default(&self.title.romaji, "No title found")
    }

    /// The description with every HTML tag removed, or a notice where there
    /// is none or it cannot be cleaned.
    pub fn description(&self) -> (s: String)
        ensures
            s@ == self.description_text(),
    {
        match &self.description {
            Some(d) => description_or_default(sanitize_default(d.as_str())),
            None => "No description provided.".to_owned(),
        }
    }

    /// The large cover image, or a notice.
    pub fn cover_image(&self) -> (s: String)
        ensures
            s@ == text_or(self.coverImage.large, "No image found"@),
    {
        text_or_default(&self.coverImage.large, "No image found")
    }

    /// The format, or a notice.
    pub fn format(&self) -> (s: String)
        ensures
            s@ == text_or(self.format, "No format provided."@),
    {
        text_or_default(&self.format, "No format provided.")
    }

    /// The airing status, or a notice.
    pub fn status(&self) -> (s: String)
        ensures
            s@ == text_or(self.status, "No status provided."@),
    {
        text_or_default(&self.status, "No status provided.")
    }

    /// The start date as `year-month-day`, or a notice.
    pub fn start_date(&self) -> (s: String)
        ensures
            s@ == date_text(
                self.startDate.year,
                self.startDate.month,
                self.startDate.day,
                "No start date provided."@,
            ),
    {
        date_or_default(
            self.startDate.year,
            self.startDate.month,
            self.startDate.day,
            "No start date provided.",
        )
    }

    /// The end date as `year-month-day`, or a notice.
    pub fn end_date(&self) -> (s: String)
        ensures
            s@ == date_text(
                self.endDate.year,
                self.endDate.month,
                self.endDate.day,
                "No end date provided."@,
            ),
    {
        date_or_default(
            self.endDate.year,
            self.endDate.month,
            self.endDate.day,
            "No end date provided.",
        )
    }

    /// The genres, separated by commas.
    pub fn genres(&self) -> (s: String)
        ensures
            s@ == join(texts(self.genres@), ", "@),
    {
        join_strings(&self.genres, ", ")
    }

    /// The number of episodes, 0 where unknown.
    pub fn episodes(&self) -> (n: &u32)
        ensures
            *n == self.episodes.unwrap_or(0),
    {
        match &self.episodes {
            Some(e) => e,
            None => &0,
        }
    }

    /// The length of an episode in minutes, 0 where unknown.
    pub fn duration(&self) -> (n: &u32)
        ensures
            *n == self.duration.unwrap_or(0),
    {
        match &self.duration {
            Some(d) => d,
            None => &0,
        }
    }

    /// The year of the season, 0 where unknown.
    pub fn season_year(&self) -> (n: &u32)
        ensures
            *n == self.seasonYear.unwrap_or(0),
    {
        match &self.seasonYear {
            Some(y) => y,
            None => &0,
        }
    }

    /// The number of the next episode to air, 0 where none is known.
    pub fn episode(&self) -> (n: i32)
        ensures
            n == match self.nextAiringEpisode {
                Some(a) => a.episode,
                None => 0,
            },
    {
        match &self.nextAiringEpisode {
            Some(a) => a.episode,
            None => 0,
        }
    }

    /// The seconds left until the next episode airs, 0 where none is known.
    pub fn timeUntilAiring(&self) -> (n: i32)
        ensures
            n == match self.nextAiringEpisode {
                Some(a) => a.timeUntilAiring,
                None => 0,
            },
    {
        match &self.nextAiringEpisode {
            Some(a) => a.timeUntilAiring,
            None => 0,
        }
    }

    /// The time the next episode airs at, 0 where none is known.
    pub fn airingAt(&self) -> (n: i32)
        ensures
            n == match self.nextAiringEpisode {
                Some(a) => a.airingAt,
                None => 0,
            },
    {
        match &self.nextAiringEpisode {
            Some(a) => a.airingAt,
            None => 0,
        }
    }

    /// The season, or a notice.
    pub fn season(&self) -> (s: String)
        ensures
            s@ == text_or(self.season, "No season provided."@),
    {
        text_or_default(&self.season, "No season provided.")
    }
}

} // verus!
