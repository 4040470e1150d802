use kogan::anilist::{can_read_ranking, Ranking};
use kogan::json::Json;
use kogan::kitsu::{Anime, Attributes, Datum, PosterImage, Titles};
use kogan::queries::{delete_filter, deleted_user, id_filter, set_update, upsert_documents};
use kogan::replies::{has_announcements_channel, tracking_channel};
use kogan::users::{DeleteUserReq, UpsertUserReq, User};

fn ranking(kind: Option<&str>, rank: Option<u32>, context: Option<&str>) -> Ranking {
    Ranking {
        rank,
        kind: kind.map(|k| k.to_string()),
        allTime: None,
        context: context.map(|c| c.to_string()),
    }
}

#[test]
fn ranking_readability() {
    let good = vec![ranking(Some("POPULAR"), Some(3), Some("x")), ranking(Some("RATED"), Some(1), Some("y"))];
    assert!(can_read_ranking(&good, "RATED"));
    assert!(can_read_ranking(&good, "POPULAR"));
    assert!(!can_read_ranking(&good, "OTHER"));
    let kindless_first = vec![ranking(None, Some(3), Some("x")), ranking(Some("RATED"), Some(1), Some("y"))];
    assert!(!can_read_ranking(&kindless_first, "RATED"));
    let kindless_after = vec![ranking(Some("RATED"), Some(1), Some("y")), ranking(None, None, None)];
    assert!(can_read_ranking(&kindless_after, "RATED"));
    let no_rank = vec![ranking(Some("RATED"), None, Some("y")), ranking(Some("RATED"), Some(1), Some("z"))];
    assert!(!can_read_ranking(&no_rank, "RATED"));
    let no_context = vec![ranking(Some("RATED"), Some(2), None)];
    assert!(!can_read_ranking(&no_context, "RATED"));
    assert!(!can_read_ranking(&vec![], "RATED"));
}

fn attributes() -> Attributes {
    Attributes {
        synopsis: Some("s".to_string()),
        titles: Titles { en: None, en_jp: None, ja_jp: None },
        canonical_title: Some("t".to_string()),
        abbreviated_titles: vec![],
        average_rating: Some("80".to_string()),
        rating_frequencies: vec![("2".to_string(), "10".to_string())],
        start_date: Some("a".to_string()),
        end_date: Some("b".to_string()),
        next_release: Some(Json::Null),
        popularity_rank: None,
        rating_rank: None,
        age_rating: None,
        age_rating_guide: Some("g".to_string()),
        subtype: None,
        status: Some("current".to_string()),
        poster_image: Some(PosterImage { tiny: None, large: Some("l".to_string()), small: None, original: None }),
        episode_count: Some(1),
        episode_length: Some(2),
        total_length: None,
        nsfw: None,
    }
}

#[test]
fn info_readability() {
    assert!(Anime { data: vec![Datum { attributes: attributes() }] }.is_info_readable());
    assert!(!Anime { data: vec![] }.is_info_readable());
    let mut a = attributes();
    a.poster_image = Some(PosterImage { tiny: None, large: None, small: Some("s".to_string()), original: None });
    assert!(!Anime { data: vec![Datum { attributes: a }] }.is_info_readable());
    let mut b = attributes();
    b.age_rating_guide = None;
    assert!(!Anime { data: vec![Datum { attributes: b }] }.is_info_readable());
}

fn only_entry(doc: &Json) -> (&str, &Json) {
    match doc {
        Json::Object(es) => {
            assert_eq!(es.len(), 1);
            (es[0].0.as_str(), &es[0].1)
        }
        _ => panic!("expected an object"),
    }
}

#[test]
fn store_documents() {
    let f = id_filter("42");
    let (k, v) = only_entry(&f);
    assert_eq!(k, "_id");
    assert_eq!(v.as_str(), Some("42"));
    let u = set_update(Json::Bool(true));
    let (k, v) = only_entry(&u);
    assert_eq!(k, "$set");
    assert!(matches!(v, Json::Bool(true)));
    let (filter, update) = upsert_documents(&UpsertUserReq {
        id: "7".to_string(),
        animes: vec!["A".to_string(), "B".to_string()],
    });
    assert_eq!(only_entry(&filter).1.as_str(), Some("7"));
    let (k, set) = only_entry(&update);
    assert_eq!(k, "$set");
    assert_eq!(set.get("_id").unwrap().as_str(), Some("7"));
    let animes = set.get("animes").unwrap();
    assert_eq!(animes.at(0).unwrap().as_str(), Some("A"));
    assert_eq!(animes.at(1).unwrap().as_str(), Some("B"));
    assert!(animes.at(2).is_none());
    let d = delete_filter(&DeleteUserReq { id: "9".to_string() });
    assert_eq!(only_entry(&d).1.as_str(), Some("9"));
}

#[test]
fn delete_answers_with_the_first_user_found() {
    let found = vec![
        User::new("1".to_string(), vec!["A".to_string()]),
        User::new("1".to_string(), vec!["B".to_string()]),
    ];
    let u = deleted_user(&found);
    assert_eq!(u.id, "1");
    assert_eq!(u.animes, vec!["A"]);
}

#[test]
fn created_tracking_channel_is_found_next_time() {
    let mut names = vec!["general".to_string()];
    assert!(!has_announcements_channel(&names));
    names.push(tracking_channel().name);
    assert!(has_announcements_channel(&names));
}
