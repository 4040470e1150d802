use kogan::embed::Color;
use kogan::kitsu::{search_url, Anime, Attributes, Datum, PosterImage, Titles};

fn attributes() -> Attributes {
    Attributes {
        synopsis: Some("Humans fight titans.".to_string()),
        titles: Titles { en: Some("Attack on Titan".to_string()), en_jp: None, ja_jp: None },
        canonical_title: Some("Attack on Titan".to_string()),
        abbreviated_titles: vec![],
        average_rating: Some("84.5".to_string()),
        rating_frequencies: vec![],
        start_date: Some("2013-04-07".to_string()),
        end_date: Some("2013-09-28".to_string()),
        next_release: None,
        popularity_rank: Some(1),
        rating_rank: Some(2),
        age_rating: Some("R".to_string()),
        age_rating_guide: Some("Violence, Profanity".to_string()),
        subtype: Some("TV".to_string()),
        status: Some("finished".to_string()),
        poster_image: Some(PosterImage {
            tiny: None,
            large: Some("https://img/large.jpg".to_string()),
            small: None,
            original: None,
        }),
        episode_count: Some(25),
        episode_length: Some(-24),
        total_length: None,
        nsfw: Some(false),
    }
}

#[test]
fn search_address() {
    assert_eq!(
        search_url("attack on titan"),
        "https://kitsu.io/api/edge/anime?filter[text]=attack on titan&page[limit]=1"
    );
}

#[test]
fn info_message() {
    let result = Anime { data: vec![Datum { attributes: attributes() }] };
    let e = result.info_embed();
    assert_eq!(e.title.as_deref(), Some("Info for Attack on Titan"));
    assert_eq!(e.description.as_deref(), Some("Humans fight titans."));
    assert_eq!(e.color, Some(Color::DarkGreen));
    assert_eq!(e.image.as_deref(), Some("https://img/large.jpg"));
    assert_eq!(e.attachment.as_deref(), Some("https://img/large.jpg"));
    let got: Vec<(String, String, bool)> =
        e.fields.iter().map(|f| (f.name.clone(), f.value.clone(), f.inline)).collect();
    let want = vec![
        ("Rating", "84.5", true),
        ("Episode Count", "25 episodes", true),
        ("Episode Length", "-24 minutes", true),
        ("Start Date", "2013-04-07", true),
        ("End Date", "2013-09-28", true),
        ("Status", "finished", true),
        ("Age Rating Guide", "Violence, Profanity", false),
    ];
    assert_eq!(got.len(), want.len());
    for (g, w) in got.iter().zip(want.iter()) {
        assert_eq!((g.0.as_str(), g.1.as_str(), g.2), *w);
    }
    assert_eq!(e.footer.unwrap().text, "Powered by Kitsu.io");
}
