//! Plain record shapes of a small film catalogue: people, films, and the
//! edges between them.
use vstd::prelude::*;

verus! {

/// An actor, by name and date of birth.
#[derive(Clone, Debug)]
pub struct Actor {
    pub name: String,
    pub date_of_birth: String,
}

/// A director, by name and date of birth.
#[derive(Clone, Debug)]
pub struct Director {
    pub name: String,
    pub date_of_birth: String,
}

/// A film, by title, year of release and genre.
#[derive(Clone, Debug)]
pub struct Movie {
    pub title: String,
    pub release_year: String,
    pub genre: String,
}

/// The edge from an actor to a film they played in, with the role's name.
#[derive(Clone, Debug)]
pub struct ActedIn {
    pub stage_name: String,
}

/// The edge from a director to a film they directed.
#[derive(Clone, Debug)]
pub struct Directed {}

} // verus!
