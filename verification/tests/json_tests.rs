use kogan::anime::Anime;
use kogan::json::{Json, Number};

fn s(t: &str) -> Json {
    Json::String(t.to_string())
}

fn obj(entries: Vec<(&str, Json)>) -> Json {
    Json::Object(entries.into_iter().map(|(k, v)| (k.to_string(), v)).collect())
}

fn kitsu(attributes: Json) -> Json {
    obj(vec![("data", Json::Array(vec![obj(vec![("attributes", attributes)])]))])
}

#[test]
fn lookups_follow_index_semantics() {
    let j = obj(vec![("a", s("x")), ("n", Json::Number(Number::PosInt(3)))]);
    assert!(matches!(j.get("a"), Some(Json::String(t)) if t == "x"));
    assert!(j.get("missing").is_none());
    assert!(s("x").get("a").is_none());
    let arr = Json::Array(vec![s("first"), s("second")]);
    assert_eq!(arr.at(1).unwrap().as_str(), Some("second"));
    assert!(arr.at(2).is_none());
    assert!(j.at(0).is_none());
}

#[test]
fn strings_and_integers() {
    assert_eq!(s("hi").as_str(), Some("hi"));
    assert_eq!(Json::Null.as_str(), None);
    assert_eq!(Json::Number(Number::PosInt(12)).as_i64(), Some(12));
    assert_eq!(Json::Number(Number::NegInt(-4)).as_i64(), Some(-4));
    assert_eq!(Json::Number(Number::PosInt(u64::MAX)).as_i64(), None);
    assert_eq!(Json::Number(Number::Float).as_i64(), None);
    assert_eq!(s("12").as_i64(), None);
    assert_eq!(Json::Bool(true).as_i64(), None);
}

#[test]
fn anime_reads_every_attribute() {
    let json = kitsu(obj(vec![
        ("canonicalTitle", s("Attack on Titan")),
        ("synopsis", s("Humans fight titans.")),
        ("posterImage", obj(vec![("small", s("https://img/small.jpg"))])),
        ("averageRating", s("84.5")),
        ("episodeCount", Json::Number(Number::PosInt(25))),
        ("episodeLength", Json::Number(Number::PosInt(24))),
        ("startDate", s("2013-04-07")),
        ("endDate", s("2013-09-28")),
        ("status", s("finished")),
        ("ageRating", s("R")),
        ("ageRatingGuide", s("Violence, Profanity")),
    ]));
    let a = Anime::new(&json, 0);
    assert_eq!(a.name, "Attack on Titan");
    assert_eq!(a.description, "Humans fight titans.");
    assert_eq!(a.image_url, "https://img/small.jpg");
    assert_eq!(a.rating, "84.5");
    assert_eq!(a.episodes, 25);
    assert_eq!(a.episode_length, 24);
    assert_eq!(a.start_date, "2013-04-07");
    assert_eq!(a.end_date, "2013-09-28");
    assert_eq!(a.status, "Finished");
    assert_eq!(a.age_rating, "R");
    assert_eq!(a.age_rating_guide, "Violence, Profanity");
}

#[test]
fn anime_falls_back_where_attributes_are_missing() {
    let json = kitsu(obj(vec![("status", s("tba")), ("episodeCount", Json::Null)]));
    let a = Anime::new(&json, 0);
    assert_eq!(a.name, "N/A");
    assert_eq!(a.description, "No description available");
    assert_eq!(a.image_url, "No image available");
    assert_eq!(a.rating, "N/A");
    assert_eq!(a.episodes, 0);
    assert_eq!(a.episode_length, 0);
    assert_eq!(a.status, "To Be Announced");
    let past_end = Anime::new(&json, 3);
    assert_eq!(past_end.name, "N/A");
    assert_eq!(past_end.status, "Unknown");
    let nothing = Anime::new(&Json::Null, 0);
    assert_eq!(nothing.age_rating_guide, "N/A");
}

#[test]
fn anime_status_labels() {
    for (raw, label) in [
        ("finished", "Finished"),
        ("current", "Current"),
        ("tba", "To Be Announced"),
        ("unreleased", "Unreleased"),
        ("upcoming", "Upcoming"),
        ("Finished", "Unknown"),
    ] {
        let json = kitsu(obj(vec![("status", s(raw))]));
        assert_eq!(Anime::new(&json, 0).status, label);
    }
}
