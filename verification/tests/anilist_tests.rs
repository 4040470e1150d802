use kogan::anilist::{
    AiringSchedule,
    description_or_default, CoverImage, EndDate, Media, MediaSort, Ranking, StartDate, Title,
    TrendingQuery,
};
use kogan::embed::Color;
use kogan::trending::{intro_content, intro_embed, media_embed, timeout_embed, trending_step, SELECTION_TIMEOUT_SECS};
use kogan::replies::countdown_reply;
use kogan::favorite::{favorite_action, FavoriteAction};
use kogan::users::User;

fn ranking(rank: Option<u32>, kind: Option<&str>, context: Option<&str>) -> Ranking {
    Ranking {
        rank,
        kind: kind.map(|k| k.to_string()),
        allTime: Some(true),
        context: context.map(|c| c.to_string()),
    }
}

fn sample() -> Media {
    Media {
        idMal: 16498,
        title: Title {
            romaji: Some("Shingeki no Kyojin".to_string()),
            english: Some("Attack on Titan".to_string()),
            native: None,
        },
        description: Some("<b>Several</b> hundred years ago<br>".to_string()),
        coverImage: CoverImage { medium: None, large: Some("https://img/large.jpg".to_string()) },
        format: Some("TV".to_string()),
        status: Some("FINISHED".to_string()),
        startDate: StartDate { year: Some(2013), month: Some(4), day: Some(7) },
        endDate: EndDate { year: Some(2013), month: None, day: Some(28) },
        genres: vec!["Action".to_string(), "Drama".to_string()],
        episodes: Some(25),
        duration: None,
        seasonYear: Some(2013),
        season: Some("SPRING".to_string()),
        rankings: vec![
            ranking(Some(12), Some("POPULAR"), Some("most popular all time")),
            ranking(Some(88), Some("RATED"), Some("highest rated all time")),
            ranking(Some(1), Some("RATED"), Some("highest rated 2013")),
        ],
        nextAiringEpisode: Some(AiringSchedule { episode: 12, timeUntilAiring: 3600, airingAt: 1700000000 }),
    }
}

#[test]
fn titles_and_defaults() {
    let m = sample();
    assert_eq!(m.id(), 16498);
    assert_eq!(m.title_english(), "Attack on Titan");
    assert_eq!(m.title_romaji(), "Shingeki no Kyojin");
    let mut bare = sample();
    bare.title.english = None;
    bare.title.romaji = None;
    bare.coverImage.large = None;
    bare.format = None;
    bare.status = None;
    bare.season = None;
    assert_eq!(bare.title_english(), "No title found");
    assert_eq!(bare.title_romaji(), "No title found");
    assert_eq!(bare.cover_image(), "No image found");
    assert_eq!(bare.format(), "No format provided.");
    assert_eq!(bare.status(), "No status provided.");
    assert_eq!(bare.season(), "No season provided.");
}

#[test]
fn dates_need_all_three_parts() {
    let m = sample();
    assert_eq!(m.start_date(), "2013-4-7");
    assert_eq!(m.end_date(), "No end date provided.");
    let mut b = sample();
    b.startDate.day = None;
    assert_eq!(b.start_date(), "No start date provided.");
    b.endDate.month = Some(-1);
    assert_eq!(b.end_date(), "2013--1-28");
}

#[test]
fn counts_default_to_zero() {
    let m = sample();
    assert_eq!(*m.episodes(), 25);
    assert_eq!(*m.duration(), 0);
    assert_eq!(*m.season_year(), 2013);
    assert_eq!(m.genres(), "Action, Drama");
    assert_eq!(m.cover_image(), "https://img/large.jpg");
}

#[test]
fn rankings_take_the_first_of_their_kind() {
    let m = sample();
    assert_eq!(m.rankings(), "#88 highest rated all time");
    assert_eq!(m.popularity(), "#12 most popular all time");
}

#[test]
fn description_is_sanitized() {
    let m = sample();
    assert_eq!(m.description(), "Several hundred years ago ");
    let mut b = sample();
    b.description = None;
    assert_eq!(b.description(), "No description provided.");
    assert_eq!(description_or_default(None), "No description provided.");
    assert_eq!(description_or_default(Some("clean".to_string())), "clean");
}

#[test]
fn query_variables() {
    let v = TrendingQuery::search("aot season 4");
    assert_eq!(v.amt, Some(1));
    assert_eq!(v.search.as_deref(), Some("aot season 4"));
    assert_eq!(v.sort, Some(vec![Some(MediaSort::POPULARITY_DESC)]));
    let t = TrendingQuery::trending();
    assert_eq!(t.amt, Some(10));
    assert_eq!(t.search, None);
    assert_eq!(t.sort, Some(vec![Some(MediaSort::TRENDING_DESC)]));
}

#[test]
fn trending_media_message() {
    let m = sample();
    let e = media_embed(&m, "84.5");
    assert_eq!(e.title.as_deref(), Some("Shingeki no Kyojin (_Attack on Titan_)"));
    assert_eq!(e.color, Some(Color::Gold));
    let author = e.author.clone().unwrap();
    assert_eq!(author.url, "https://myanimelist.net/anime/16498");
    assert_eq!(author.name, "❯❯ Link to MyAnimeList");
    assert_eq!(e.description.as_deref(), Some("Several hundred years ago "));
    assert_eq!(e.image.as_deref(), Some("https://img/large.jpg"));
    let fields: Vec<(String, String, bool)> =
        e.fields.iter().map(|f| (f.name.clone(), f.value.clone(), f.inline)).collect();
    let expected = vec![
        ("Rating", "84.5%"),
        ("Episode Count", "25 episodes"),
        ("Episode Duration", "0 minutes"),
        ("Start Date", "2013-4-7"),
        ("End Date", "No end date provided."),
        ("Status", "FINISHED"),
        ("Season", "SPRING 2013"),
        ("Rankings", "#88 highest rated all time"),
        ("Popularity", "#12 most popular all time"),
        ("Genre", "Action, Drama"),
        ("Format", "TV"),
    ];
    assert_eq!(fields.len(), expected.len());
    for (f, (n, v)) in fields.iter().zip(expected.iter()) {
        assert_eq!(f.0, *n);
        assert_eq!(f.1, *v);
        assert!(f.2);
    }
    let footer = e.footer.clone().unwrap();
    assert_eq!(footer.text, "Powered by AniList.co");
    assert_eq!(
        footer.icon_url.as_deref(),
        Some("https://anilist.co/img/icons/android-chrome-512x512.png")
    );
}

#[test]
fn trending_intro_and_timeout() {
    assert_eq!(intro_content(), "_List will dissapear after **one** minute!_");
    let e = intro_embed();
    assert_eq!(e.title.as_deref(), Some("Top trending anime of the week."));
    assert_eq!(e.color, Some(Color::Gold));
    assert_eq!(e.footer.unwrap().text, "List is from AniList, updated weekly.");
    let t = timeout_embed();
    assert_eq!(t.description.as_deref(), Some("_Selection timed out!_"));
    assert_eq!(t.color, Some(Color::Red));
}

#[test]
fn countdown_replies() {
    let m = sample();
    assert_eq!(m.episode(), 12);
    assert_eq!(m.timeUntilAiring(), 3600);
    assert_eq!(m.airingAt(), 1700000000);
    let e = countdown_reply(Some(&m));
    assert_eq!(e.title.as_deref(), Some("Countdown for Shingeki no Kyojin (_Attack on Titan_)"));
    assert_eq!(e.color, Some(Color::Gold));
    assert_eq!(e.fields.len(), 2);
    assert_eq!(e.fields[0].name, "Episode 12 Airs in: ");
    assert_eq!(e.fields[0].value, "3600");
    assert!(e.fields[0].inline);
    assert_eq!(e.fields[1].name, "Airing Time: ");
    assert_eq!(e.fields[1].value, "1700000000");
    assert!(!e.fields[1].inline);
    let mut finished = sample();
    finished.nextAiringEpisode = None;
    assert_eq!(finished.episode(), 0);
    let f = countdown_reply(Some(&finished));
    assert_eq!(f.fields[0].name, "Episode 0 Airs in: ");
    assert_eq!(f.fields[0].value, "0");
    assert_eq!(f.fields[1].value, "0");
    let none = countdown_reply(None);
    assert_eq!(none.description.as_deref(), Some("No anime found."));
    assert_eq!(none.color, Some(Color::Red));
}

#[test]
fn favorite_actions() {
    let m = sample();
    match favorite_action(None, "1".to_string(), Ok(None)) {
        FavoriteAction::Reply(e) => assert_eq!(e.description.as_deref(), Some("No anime found.")),
        other => panic!("{:?}", other),
    }
    match favorite_action(Some(&m), "1".to_string(), Ok(Some(User::new("1".to_string(), vec!["Monster".to_string()])))) {
        FavoriteAction::Upsert(req) => {
            assert_eq!(req.id, "1");
            assert_eq!(req.animes, vec!["Monster", "Attack on Titan"]);
        }
        other => panic!("{:?}", other),
    }
    match favorite_action(Some(&m), "2".to_string(), Ok(None)) {
        FavoriteAction::Upsert(req) => assert_eq!(req.animes, vec!["Attack on Titan"]),
        other => panic!("{:?}", other),
    }
    match favorite_action(Some(&m), "2".to_string(), Err(())) {
        FavoriteAction::Reply(e) => assert_eq!(e.title.as_deref(), Some("Error setting favorite")),
        other => panic!("{:?}", other),
    }
}

#[test]
fn trending_steps() {
    assert_eq!(SELECTION_TIMEOUT_SECS, 120);
    let page = vec![sample(), sample(), sample()];
    let scores = vec!["1".to_string(), "2".to_string(), "3".to_string()];
    let (j, e) = trending_step(&page, &scores, 2, "next").unwrap();
    assert_eq!(j, 0);
    assert_eq!(e.fields[0].value, "1%");
    let (j, e) = trending_step(&page, &scores, 0, "previous").unwrap();
    assert_eq!(j, 2);
    assert_eq!(e.fields[0].value, "3%");
    assert!(trending_step(&page, &scores, 1, "select").is_none());
}
