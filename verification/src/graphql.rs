//! The pieces of an AniList entry as the detailed anime query returns them.
use vstd::prelude::*;

verus! {

/// The detailed anime query.
pub struct AnimeData;

/// The titles of an entry.
#[derive(Clone, Debug)]
pub struct Title {
    pub romaji: String,
    pub english: String,
}

/// The cover images of an entry.
#[derive(Clone, Debug)]
pub struct CoverImage {
    pub medium: String,
    pub large: String,
}

/// The day an entry began airing.
#[derive(Clone, Copy, Debug, PartialEq, Eq, Structural)]
pub struct StartDate {
    pub year: i32,
    pub month: i32,
    pub day: i32,
}

/// The day an entry stopped airing.
#[derive(Clone, Copy, Debug, PartialEq, Eq, Structural)]
pub struct EndDate {
    pub year: i32,
    pub month: i32,
    pub day: i32,
}

/// The characters of an entry, one page of them.
#[derive(Clone, Debug)]
pub struct Characters {
    pub edges: Vec<Edge>,
    pub nodes: Vec<Node>,
    pub pageInfo: PageInfo,
}

/// A link to a character.
#[derive(Clone, Copy, Debug, PartialEq, Eq, Structural)]
pub struct Edge {
    pub id: i32,
}

/// A character.
#[derive(Clone, Copy, Debug, PartialEq, Eq, Structural)]
pub struct Node {
    pub id: i32,
}

/// Where a page of characters stands among all of them.
#[derive(Clone, Copy, Debug, PartialEq, Eq, Structural)]
pub struct PageInfo {
    pub total: i32,
    pub perPage: i32,
    pub currentPage: i32,
    pub lastPage: i32,
    pub hasNextPage: bool,
}

/// The next episode to air.
#[derive(Clone, Copy, Debug, PartialEq, Eq, Structural)]
pub struct NextAiringEpisode {
    pub id: i32,
}

} // verus!
