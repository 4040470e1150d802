//! The users the bot remembers and the requests made about them.
use vstd::prelude::*;

verus! {

/// A user and the titles of the anime they marked as favorites.
#[derive(Clone, Debug)]
pub struct User {
    pub id: String,
    pub animes: Vec<String>,
}

impl User {
    /// A user with the given favorites.
    pub fn new(id: String, animes: Vec<String>) -> (u: User)
        ensures
            u.id == id,
            u.animes == animes,
    {
        User { id, animes }
    }
}

/// A request to create or replace a user's favorites.
#[derive(Clone, Debug)]
pub struct UpsertUserReq {
    pub id: String,
    pub animes: Vec<String>,
}

/// A request to look users up, by id where one is given.
#[derive(Clone, Debug)]
pub struct GetUsersReq {
    pub id: Option<String>,
}

/// A request to remove a user.
#[derive(Clone, Debug)]
pub struct DeleteUserReq {
    pub id: String,
}

} // verus!
