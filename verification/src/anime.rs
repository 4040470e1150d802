//! The summary of an anime read from a Kitsu search result, with a
//! fallback for every attribute that is missing.
use vstd::prelude::*;
use crate::json::Json;
use crate::text::str_eq;

verus! {

/// The attributes of the entry at `index` of a Kitsu result:
/// `json["data"][index]["attributes"]`.
pub open spec fn attributes_of(json: Json, index: int) -> Json {
    json.key("data"@).item(index).key("attributes"@)
}

/// The text of a value, or `default` where it holds no string.
pub open spec fn text_or(v: Json, default: Seq<char>) -> Seq<char> {
    match v.text() {
        Some(t) => t,
        None => default,
    }
}

/// The integer of a value, or 0 where it holds none.
pub open spec fn integer_or_zero(v: Json) -> i64 {
    match v.integer() {
        Some(n) => n,
        None => 0,
    }
}

/// The label shown for a Kitsu status.
pub open spec fn status_label(s: Seq<char>) -> Seq<char> {
    if s == "finished"@ {
        "Finished"@
    } else if s == "current"@ {
        "Current"@
    } else if s == "tba"@ {
        "To Be Announced"@
    } else if s == "unreleased"@ {
        "Unreleased"@
    } else if s == "upcoming"@ {
        "Upcoming"@
    } else {
        "Unknown"@
    }
}

/// An anime as the bot shows it.
#[derive(Debug)]
pub struct Anime<'a> {
    pub name: &'a str,
    pub image_url: &'a str,
    pub description: &'a str,
    pub rating: &'a str,
    pub episodes: i64,
    pub episode_length: i64,
    pub start_date: &'a str,
    pub end_date: &'a str,
    pub status: &'a str,
    pub age_rating: &'a str,
    pub age_rating_guide: &'a str,
}

fn attributes<'a>(json: &'a Json, index: usize) -> (r: Option<&'a Json>)
    ensures
        match r {
            Some(v) => *v == attributes_of(*json, index as int),
            None => attributes_of(*json, index as int) == Json::Null,
        },
{
    match json.get("data") {
        Some(data) => match data.at(index) {
            Some(entry) => entry.get("attributes"),
            None => None,
        },
        None => None,
    }
}

fn field<'a>(attrs: Option<&'a Json>, key: &str) -> (r: Option<&'a Json>)
    ensures
        match r {
            Some(v) => *v == crate::json::deref_or_null(attrs).key(key@),
            None => crate::json::deref_or_null(attrs).key(key@) == Json::Null,
        },
{
    match attrs {
        Some(a) => a.get(key),
        None => None,
    }
}

fn text_field<'a>(v: Option<&'a Json>, default: &'a str) -> (r: &'a str)
    ensures
        r@ == text_or(crate::json::deref_or_null(v), default@),
{
    match v {
        Some(j) => match j.as_str() {
            Some(s) => s,
            None => default,
        },
        None => default,
    }
}

fn integer_field(v: Option<&Json>) -> (r: i64)
    ensures
        r == integer_or_zero(crate::json::deref_or_null(v)),
{
    match v {
        Some(j) => match j.as_i64() {
            Some(n) => n,
            None => 0,
        },
        None => 0,
    }
}

fn status_of(s: &str) -> (r: &'static str)
    ensures
        r@ == status_label(s@),
{
    if str_eq(s, "finished") {
        "Finished"
    } else if str_eq(s, "current") {
        "Current"
    } else if str_eq(s, "tba") {
        "To Be Announced"
    } else if str_eq(s, "unreleased") {
        "Unreleased"
    } else if str_eq(s, "upcoming") {
        "Upcoming"
    } else {
        "Unknown"
    }
}

impl<'a> Anime<'a> {
    /// Reads the entry at `index` of a Kitsu search result. A missing text
    /// reads as "N/A" (the synopsis as "No description available", the
    /// small poster as "No image available"), a missing count as 0, and the
    /// status is shown by its label.
    pub fn new(anime_json: &'a Json, index: usize) -> (a: Anime<'a>)
        ensures
            ({
                let attrs = attributes_of(*anime_json, index as int);
                &&& a.name@ == text_or(attrs.key("canonicalTitle"@), "N/A"@)
                &&& a.description@ == text_or(attrs.key("synopsis"@), "No description available"@)
                &&& a.image_url@ == text_or(
                    attrs.key("posterImage"@).key("small"@),
                    "No image available"@,
                )
                &&& a.rating@ == text_or(attrs.key("averageRating"@), "N/A"@)
                &&& a.episodes == integer_or_zero(attrs.key("episodeCount"@))
                &&& a.start_date@ == text_or(attrs.key("startDate"@), "N/A"@)
                &&& a.end_date@ == text_or(attrs.key("endDate"@), "N/A"@)
                &&& a.status@ == status_label(text_or(attrs.key("status"@), "N/A"@))
                &&& a.episode_length == integer_or_zero(attrs.key("episodeLength"@))
                &&& a.age_rating@ == text_or(attrs.key("ageRating"@), "N/A"@)
                &&& a.age_rating_guide@ == text_or(attrs.key("ageRatingGuide"@), "N/A"@)
            }),
    {
        let attrs = attributes(anime_json, index);
        let name = text_field(field(attrs, "canonicalTitle"), "N/A");
        let description = text_field(field(attrs, "synopsis"), "No description available");
        let poster = field(attrs, "posterImage");
        let image_url = text_field(field(poster, "small"), "No image available");
        let rating = text_field(field(attrs, "averageRating"), "N/A");
        let episodes = integer_field(field(attrs, "episodeCount"));
        let start_date = text_field(field(attrs, "startDate"), "N/A");
        let end_date = text_field(field(attrs, "endDate"), "N/A");
        let status = text_field(field(attrs, "status"), "N/A");
        let episode_length = integer_field(field(attrs, "episodeLength"));
        let age_rating = text_field(field(attrs, "ageRating"), "N/A");
        let age_rating_guide = text_field(field(attrs, "ageRatingGuide"), "N/A");
        let status = status_of(status);
        Anime {
            name,
            image_url,
            description,
            rating,
            episodes,
            episode_length,
            start_date,
            end_date,
            status,
            age_rating,
            age_rating_guide,
        }
    }
}

} // verus!
