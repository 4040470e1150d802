//! Kōgan: the logic of an anime Discord bot, verified.
//!
//! The library holds what the bot decides and computes: the text it shows,
//! the components it offers, the requests it builds and the way it walks
//! through a page of results. Talking to Discord, AniList, Kitsu, OpenAI and
//! the database is left to the program around it.
#![allow(non_snake_case, non_camel_case_types)]

pub mod text;
pub mod components;
pub mod animal;
pub mod sounds;
pub mod trending;
pub mod embed;
pub mod anilist;
pub mod json;
pub mod anime;
pub mod openai;
pub mod translate;
pub mod users;
pub mod favorite;
pub mod recommend;
pub mod kitsu;
pub mod replies;
pub mod handler;
pub mod graphql;
pub mod queries;
