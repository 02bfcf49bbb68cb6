//! `GET /api/v1/search?q=`: TMDB multi-search, TV shows and movies only,
//! each marked when it is already tracked.
use vstd::prelude::*;
use crate::error::AppError;
use crate::models::show::{image_url, poster_url, POSTER_BASE};
use crate::text::{as_deref, is_blank_str, opt_view, owned, str_eq, trim, trimmed};

verus! {

pub struct SearchQuery {
    pub q: String,
}

pub struct SearchResult {
    pub media_type: String,
    pub tmdb_id: i64,
    pub name: String,
    pub overview: Option<String>,
    pub date: Option<String>,
    pub poster_url: Option<String>,
    pub already_tracked: bool,
}

pub struct SearchResponse {
    pub results: Vec<SearchResult>,
}

/// The raw shape of TMDB's `/search/multi` answer.
pub struct TmdbSearchResponse {
    pub results: Vec<TmdbMultiResult>,
}

/// One hit: a `media_type` discriminator and TV- or movie-specific fields
/// (TV uses `name` and `first_air_date`, movies `title` and `release_date`).
pub struct TmdbMultiResult {
    pub id: i64,
    pub media_type: Option<String>,
    pub name: Option<String>,
    pub title: Option<String>,
    pub first_air_date: Option<String>,
    pub release_date: Option<String>,
    pub overview: Option<String>,
    pub poster_path: Option<String>,
}

/// The search text: the query trimmed; blank is refused.
pub fn search_text(q: &SearchQuery) -> (r: Result<String, AppError>)
    ensures
        r is Err <==> trim(q.q@).len() == 0,
        r matches Ok(t) ==> t@ == trim(q.q@),
        r matches Err(e) ==> e matches AppError::InvalidData(m) && m@
            == "query parameter `q` is required"@,
{
    let t = trimmed(q.q.as_str());
    if t.as_str().is_empty() {
        return Err(AppError::InvalidData(owned("query parameter `q` is required")));
    }
    Ok(t)
}

pub open spec fn is_tv(r: TmdbMultiResult) -> bool {
    opt_view(r.media_type) == Some("tv"@)
}

pub open spec fn is_movie(r: TmdbMultiResult) -> bool {
    opt_view(r.media_type) == Some("movie"@)
}

/// The hits kept: TV shows and movies, in TMDB's order (people dropped).
pub open spec fn kept(results: Seq<TmdbMultiResult>) -> Seq<TmdbMultiResult>
    decreases results.len(),
{
    if results.len() == 0 {
        Seq::empty()
    } else if is_tv(results.last()) || is_movie(results.last()) {
        kept(results.drop_last()).push(results.last())
    } else {
        kept(results.drop_last())
    }
}

/// The ids of the hits of one media type, in order.
pub open spec fn ids_of(results: Seq<TmdbMultiResult>, tv: bool) -> Seq<i64>
    decreases results.len(),
{
    if results.len() == 0 {
        Seq::empty()
    } else if (tv && is_tv(results.last())) || (!tv && is_movie(results.last())) {
        ids_of(results.drop_last(), tv).push(results.last().id)
    } else {
        ids_of(results.drop_last(), tv)
    }
}

fn media_is(r: &TmdbMultiResult, kind: &str) -> (b: bool)
    ensures
        b == (opt_view(r.media_type) == Some(kind@)),
{
    match &r.media_type {
        Some(m) => str_eq(m.as_str(), kind),
        None => false,
    }
}

/// The TV ids and the movie ids among the hits, each in order; these are
/// looked up to mark hits already tracked.
pub fn media_ids(results: &Vec<TmdbMultiResult>) -> (r: (Vec<i64>, Vec<i64>))
    ensures
        r.0@ == ids_of(results@, true),
        r.1@ == ids_of(results@, false),
{
    let mut tv: Vec<i64> = Vec::new();
    let mut movies: Vec<i64> = Vec::new();
    let mut i: usize = 0;
    while i < results.len()
        invariant
            0 <= i <= results@.len(),
            tv@ == ids_of(results@.take(i as int), true),
            movies@ == ids_of(results@.take(i as int), false),
        decreases results@.len() - i,
    {
        let r = &results[i];
        proof {
            assert(results@.take(i + 1).drop_last() =~= results@.take(i as int));
            reveal_strlit("tv");
            reveal_strlit("movie");
            assert("tv"@.len() == 2 && "movie"@.len() == 5);
        }
        if media_is(r, "tv") {
            tv.push(r.id);
        } else if media_is(r, "movie") {
            movies.push(r.id);
        }
        i = i + 1;
    }
    assert(results@.take(results@.len() as int) =~= results@);
    (tv, movies)
}

/// The text of an optional field, empty when missing.
pub open spec fn or_empty(o: Option<String>) -> Seq<char> {
    match o {
        Some(s) => s@,
        None => Seq::empty(),
    }
}

/// An optional text that counts as absent when empty.
pub open spec fn non_empty_view(o: Option<String>) -> Option<Seq<char>> {
    match o {
        Some(s) => if s@.len() > 0 {
            Some(s@)
        } else {
            None
        },
        None => None,
    }
}

/// `out` is the result shown for the hit `r`.
pub open spec fn shows_hit(
    out: SearchResult,
    r: TmdbMultiResult,
    tracked_tv: Seq<i64>,
    tracked_movies: Seq<i64>,
) -> bool {
    &&& out.tmdb_id == r.id
    &&& out.media_type@ == (if is_tv(r) {
        "tv"@
    } else {
        "movie"@
    })
    &&& out.name@ == (if is_tv(r) {
        or_empty(r.name)
    } else {
        or_empty(r.title)
    })
    &&& opt_view(out.date) == (if is_tv(r) {
        non_empty_view(r.first_air_date)
    } else {
        non_empty_view(r.release_date)
    })
    &&& opt_view(out.overview) == non_empty_view(r.overview)
    &&& opt_view(out.poster_url) == image_url(POSTER_BASE@, opt_view(r.poster_path))
    &&& out.already_tracked == (if is_tv(r) {
        tracked_tv.contains(r.id)
    } else {
        tracked_movies.contains(r.id)
    })
}

fn contains_id(ids: &Vec<i64>, id: i64) -> (b: bool)
    ensures
        b == ids@.contains(id),
{
    let mut i: usize = 0;
    while i < ids.len()
        invariant
            0 <= i <= ids@.len(),
            forall|j: int| 0 <= j < i ==> ids@[j] != id,
        decreases ids@.len() - i,
    {
        if ids[i] == id {
            assert(ids@[i as int] == id);
            return true;
        }
        i = i + 1;
    }
    false
}

fn non_empty_string(o: Option<String>) -> (r: Option<String>)
    ensures
        opt_view(r) == non_empty_view(o),
{
    match o {
        Some(s) => if s.as_str().is_empty() {
            None
        } else {
            Some(s)
        },
        None => None,
    }
}

fn string_or_empty(o: Option<String>) -> (r: String)
    ensures
        r@ == or_empty(o),
{
    match o {
        Some(s) => s,
        None => String::new(),
    }
}

/// The search results: each TV show and movie hit in TMDB's order, with
/// its name and date taken from the fields of its media type, empty texts
/// dropped, its poster URL, and whether it is already tracked.
pub fn search_results(
    results: Vec<TmdbMultiResult>,
    tracked_tv: &Vec<i64>,
    tracked_movies: &Vec<i64>,
) -> (r: Vec<SearchResult>)
    ensures
        r@.len() == kept(results@).len(),
        forall|i: int|
            0 <= i < r@.len() ==> shows_hit(
                #[trigger] r@[i],
                kept(results@)[i],
                tracked_tv@,
                tracked_movies@,
            ),
{
    let ghost all = results@;
    let mut out: Vec<SearchResult> = Vec::new();
    let mut rest = results;
    let mut rev: Vec<TmdbMultiResult> = Vec::new();
    let n = rest.len();
    while rest.len() > 0
        invariant
            rev@.len() + rest@.len() == n,
            all.len() == n,
            forall|k: int| 0 <= k < rest@.len() ==> rest@[k] == all[k],
            forall|k: int| 0 <= k < rev@.len() ==> rev@[k] == all[n - 1 - k],
        decreases rest@.len(),
    {
        let x = rest.pop().unwrap();
        rev.push(x);
    }
    let mut i: usize = 0;
    while rev.len() > 0
        invariant
            i + rev@.len() == n,
            all.len() == n,
            forall|k: int| 0 <= k < rev@.len() ==> rev@[k] == all[n - 1 - k],
            out@.len() == kept(all.take(i as int)).len(),
            forall|k: int|
                0 <= k < out@.len() ==> shows_hit(
                    #[trigger] out@[k],
                    kept(all.take(i as int))[k],
                    tracked_tv@,
                    tracked_movies@,
                ),
        decreases rev@.len(),
    {
        let r = rev.pop().unwrap();
        assert(r == all[i as int]);
        proof {
            assert(all.take(i + 1).drop_last() =~= all.take(i as int));
            assert(all.take(i + 1).last() == r);
        }
        let tv = media_is(&r, "tv");
        let movie = media_is(&r, "movie");
        if tv || movie {
            let poster = poster_url(as_deref(&r.poster_path));
            let on_list = if tv {
                contains_id(tracked_tv, r.id)
            } else {
                contains_id(tracked_movies, r.id)
            };
            let (name, date) = if tv {
                (string_or_empty(r.name), non_empty_string(r.first_air_date))
            } else {
                (string_or_empty(r.title), non_empty_string(r.release_date))
            };
            let hit = SearchResult {
                media_type: if tv {
                    owned("tv")
                } else {
                    owned("movie")
                },
                tmdb_id: r.id,
                name,
                overview: non_empty_string(r.overview),
                date,
                poster_url: poster,
                already_tracked: on_list,
            };
            let ghost before = out@;
            out.push(hit);
            proof {
                let k_prev = kept(all.take(i as int));
                let k_new = kept(all.take(i + 1));
                assert(k_new == k_prev.push(all[i as int]));
                assert forall|k: int| 0 <= k < out@.len() implies shows_hit(
                    #[trigger] out@[k],
                    k_new[k],
                    tracked_tv@,
                    tracked_movies@,
                ) by {
                    if k < before.len() {
                        assert(out@[k] == before[k]);
                        assert(k_new[k] == k_prev[k]);
                    }
                }
            }
        }
        i = i + 1;
    }
    assert(all.take(n as int) =~= all);
    out
}


/// The hits kept are the TV shows and movies among TMDB's results, in order.
pub proof fn kept_hits_are_shows_and_movies(results: Seq<TmdbMultiResult>)
    ensures
        kept(results) == results.filter_map(
            |r: TmdbMultiResult|
                if is_tv(r) || is_movie(r) {
                    Some(r)
                } else {
                    None
                },
        ),
    decreases results.len(),
{
    if results.len() > 0 {
        kept_hits_are_shows_and_movies(results.drop_last());
    }
}

/// A hit is marked already tracked by its own media type: a movie exactly
/// when its id is among the tracked movies, a TV show exactly when its id
/// is among the tracked shows, whatever the other list holds. Its name and
/// date come from the fields of that media type.
pub proof fn tracked_flag_follows_media_type(
    out: SearchResult,
    r: TmdbMultiResult,
    tracked_tv: Seq<i64>,
    tracked_movies: Seq<i64>,
)
    requires
        shows_hit(out, r, tracked_tv, tracked_movies),
    ensures
        is_movie(r) ==> out.already_tracked == tracked_movies.contains(r.id) && out.media_type@
            == "movie"@ && out.name@ == or_empty(r.title) && opt_view(out.date)
            == non_empty_view(r.release_date),
        is_tv(r) ==> out.already_tracked == tracked_tv.contains(r.id) && out.media_type@
            == "tv"@ && out.name@ == or_empty(r.name) && opt_view(out.date) == non_empty_view(
            r.first_air_date,
        ),
        out.tmdb_id == r.id,
{
    reveal_strlit("tv");
    reveal_strlit("movie");
    if is_movie(r) {
        assert("tv"@.len() != "movie"@.len());
        assert(!is_tv(r));
    }
}

} // verus!
