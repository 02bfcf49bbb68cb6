//! Movies: database rows and the shapes the API returns.
use vstd::prelude::*;
use crate::models::show::{image_url, image_url_under};
use crate::text::{opt_str_view, opt_view};

verus! {

pub const PROFILE_BASE: &'static str = "https://image.tmdb.org/t/p/w185";

/// Profile-picture URL (w185) for a TMDB image path.
pub fn profile_url(path: Option<&str>) -> (r: Option<String>)
    ensures
        opt_view(r) == image_url(PROFILE_BASE@, opt_str_view(path)),
{
    image_url_under(PROFILE_BASE, path)
}

pub struct MovieRow {
    pub tmdb_id: i64,
    pub name: String,
    pub overview: Option<String>,
    pub poster_path: Option<String>,
    pub backdrop_path: Option<String>,
    pub release_date: Option<String>,
    pub runtime: Option<i64>,
    pub added_at: String,
}

pub struct MovieWatchlistItem {
    pub tmdb_id: i64,
    pub name: String,
    pub overview: Option<String>,
    pub poster_url: Option<String>,
    pub backdrop_url: Option<String>,
    pub release_date: Option<String>,
    pub runtime: Option<i64>,
    pub added_at: String,
}

pub struct CastMember {
    pub name: String,
    pub character: Option<String>,
    pub profile_url: Option<String>,
}

pub struct MovieDetail {
    pub tmdb_id: i64,
    pub name: String,
    pub overview: Option<String>,
    pub poster_url: Option<String>,
    pub backdrop_url: Option<String>,
    pub release_date: Option<String>,
    pub runtime: Option<i64>,
    pub watch_providers: Vec<String>,
    pub directors: Vec<String>,
    pub cast: Vec<CastMember>,
}

pub struct AddMovieRequest {
    pub tmdb_id: i64,
}

} // verus!
