//! Movie endpoints: the to-watch list, a movie's detail with its cast,
//! directors and providers, adding and removing.
use vstd::prelude::*;
use crate::datasources::tmdb::{directors_of, us_provider_names, TmdbCastMember, TmdbMovie};
use crate::error::AppError;
use crate::models::movie::{profile_url, CastMember, MovieDetail, MovieWatchlistItem, PROFILE_BASE};
use crate::models::show::image_url;
use crate::text::{as_deref, id_message, id_text, opt_view, owned, strictly_sorted, views};

verus! {

/// How many cast members a movie's detail lists.
pub const CAST_LIMIT: usize = 12;

pub struct MovieListResponse {
    pub movies: Vec<MovieWatchlistItem>,
}

/// The billing position a cast member is sorted by; unbilled ones last.
pub open spec fn cast_key(m: TmdbCastMember) -> int {
    match m.order {
        Some(o) => o as int,
        None => i64::MAX as int,
    }
}

/// The sort keys of a cast, member by member.
pub open spec fn cast_keys(cast: Seq<TmdbCastMember>) -> Seq<int> {
    cast.map_values(|m: TmdbCastMember| cast_key(m))
}

/// `perm` lists the positions `0..keys.len()` once each, in ascending key
/// order, equal keys keeping their original order (a stable sort).
pub open spec fn stable_order(keys: Seq<int>, perm: Seq<int>) -> bool {
    &&& perm.len() == keys.len()
    &&& forall|i: int| 0 <= i < perm.len() ==> 0 <= #[trigger] perm[i] < keys.len()
    &&& forall|i: int, j: int| 0 <= i < j < perm.len() ==> #[trigger] perm[i] != #[trigger] perm[j]
    &&& forall|i: int, j: int|
        0 <= i < j < perm.len() ==> keys[#[trigger] perm[i]] <= keys[#[trigger] perm[j]]
    &&& forall|i: int, j: int|
        0 <= i < j < perm.len() && keys[#[trigger] perm[i]] == keys[#[trigger] perm[j]] ==> perm[i]
            < perm[j]
}

pub open spec fn usize_seq(v: Seq<usize>) -> Seq<int> {
    v.map_values(|x: usize| x as int)
}

pub open spec fn i64_seq(v: Seq<i64>) -> Seq<int> {
    v.map_values(|x: i64| x as int)
}

/// The positions of a list sorted stably by key.
pub fn stable_sort_by_key(keys: &Vec<i64>) -> (r: Vec<usize>)
    ensures
        stable_order(i64_seq(keys@), usize_seq(r@)),
{
    let n = keys.len();
    let ghost ks = i64_seq(keys@);
    let mut perm: Vec<usize> = Vec::new();
    let mut i: usize = 0;
    while i < n
        invariant
            0 <= i <= n,
            n == keys@.len(),
            ks == i64_seq(keys@),
            perm@.len() == i,
            forall|a: int| 0 <= a < perm@.len() ==> #[trigger] perm@[a] < i,
            forall|a: int, b: int| 0 <= a < b < perm@.len() ==> #[trigger] perm@[a] != #[trigger] perm@[b],
            forall|a: int, b: int|
                0 <= a < b < perm@.len() ==> keys@[#[trigger] perm@[a] as int] <= keys@[#[trigger] perm@[b] as int],
            forall|a: int, b: int|
                0 <= a < b < perm@.len() && keys@[#[trigger] perm@[a] as int] == keys@[#[trigger] perm@[b] as int] ==> perm@[a] < perm@[b],
        decreases n - i,
    {
        let k = keys[i];
        let mut p: usize = 0;
        while p < perm.len() && keys[perm[p]] <= k
            invariant
                0 <= p <= perm@.len(),
                n == keys@.len(),
                forall|a: int| 0 <= a < perm@.len() ==> #[trigger] perm@[a] < i,
                i < n,
                k == keys@[i as int],
                forall|q: int| 0 <= q < p ==> keys@[#[trigger] perm@[q] as int] <= k,
            decreases perm@.len() - p,
        {
            p = p + 1;
        }
        let ghost old_perm = perm@;
        perm.insert(p, i);
        proof {
            let np = perm@;
            assert(np =~= old_perm.subrange(0, p as int).push(i) + old_perm.subrange(p as int, old_perm.len() as int));
            assert forall|a: int| 0 <= a < np.len() implies #[trigger] np[a] < i + 1 by {
                if a < p {
                    assert(np[a] == old_perm[a]);
                } else if a > p {
                    assert(np[a] == old_perm[a - 1]);
                }
            }
            assert forall|a: int, b: int| 0 <= a < b < np.len() implies #[trigger] np[a] != #[trigger] np[b] by {
                if a < p && b < p {
                    assert(np[a] == old_perm[a] && np[b] == old_perm[b]);
                } else if a < p && b == p {
                    assert(np[a] == old_perm[a]);
                } else if a < p {
                    assert(np[a] == old_perm[a] && np[b] == old_perm[b - 1]);
                } else if a == p {
                    assert(np[b] == old_perm[b - 1]);
                } else {
                    assert(np[a] == old_perm[a - 1] && np[b] == old_perm[b - 1]);
                }
            }
            assert forall|a: int, b: int| 0 <= a < b < np.len() implies keys@[#[trigger] np[a] as int] <= keys@[#[trigger] np[b] as int] && (keys@[np[a] as int] == keys@[np[b] as int] ==> np[a] < np[b]) by {
                if a < p && b < p {
                    assert(np[a] == old_perm[a] && np[b] == old_perm[b]);
                } else if a < p && b == p {
                    assert(np[a] == old_perm[a]);
                } else if a < p {
                    assert(np[a] == old_perm[a] && np[b] == old_perm[b - 1]);
                } else if a == p {
                    assert(np[b] == old_perm[b - 1]);
                    assert(keys@[old_perm[p as int] as int] > k);
                    if b - 1 > p {
                        assert(keys@[old_perm[p as int] as int] <= keys@[old_perm[b - 1] as int]);
                    }
                } else {
                    assert(np[a] == old_perm[a - 1] && np[b] == old_perm[b - 1]);
                }
            }
        }
        i = i + 1;
    }
    proof {
        let r = usize_seq(perm@);
        assert forall|a: int, b: int| 0 <= a < b < r.len() implies #[trigger] r[a] != #[trigger] r[b] by {
            assert(perm@[a] != perm@[b]);
        }
        assert forall|a: int, b: int| 0 <= a < b < r.len() implies ks[#[trigger] r[a]] <= ks[#[trigger] r[b]] by {
            assert(keys@[perm@[a] as int] <= keys@[perm@[b] as int]);
        }
        assert forall|a: int, b: int| 0 <= a < b < r.len() && ks[#[trigger] r[a]] == ks[#[trigger] r[b]] implies r[a] < r[b] by {
            assert(keys@[perm@[a] as int] <= keys@[perm@[b] as int]);
        }
    }
    perm
}

/// The text of a character name when non-empty.
pub open spec fn character_view(c: Option<String>) -> Option<Seq<char>> {
    match c {
        Some(s) => if s@.len() > 0 {
            Some(s@)
        } else {
            None
        },
        None => None,
    }
}

/// `out` is the listing of the cast member `m`.
pub open spec fn lists_member(out: CastMember, m: TmdbCastMember) -> bool {
    &&& out.name@ == m.name@
    &&& opt_view(out.character) == character_view(m.character)
    &&& opt_view(out.profile_url) == image_url(PROFILE_BASE@, opt_view(m.profile_path))
}

/// The cast shown for a movie: its members sorted stably by billing order
/// (unbilled last), the first `CAST_LIMIT` of them.
pub fn cast_list(cast: &Vec<TmdbCastMember>) -> (r: Vec<CastMember>)
    ensures
        r@.len() == if cast@.len() < CAST_LIMIT {
            cast@.len() as int
        } else {
            CAST_LIMIT as int
        },
        exists|perm: Seq<int>|
            #[trigger] stable_order(cast_keys(cast@), perm) && forall|i: int|
                0 <= i < r@.len() ==> lists_member(#[trigger] r@[i], cast@[perm[i]]),
{
    let mut keys: Vec<i64> = Vec::new();
    let mut i: usize = 0;
    while i < cast.len()
        invariant
            0 <= i <= cast@.len(),
            keys@.len() == i,
            forall|j: int| 0 <= j < i ==> keys@[j] as int == cast_key(#[trigger] cast@[j]),
        decreases cast@.len() - i,
    {
        let key = match cast[i].order {
            Some(o) => o,
            None => i64::MAX,
        };
        keys.push(key);
        i = i + 1;
    }
    let ghost ck = cast_keys(cast@);
    assert(i64_seq(keys@) =~= ck);
    let perm = stable_sort_by_key(&keys);
    let limit = if cast.len() < CAST_LIMIT {
        cast.len()
    } else {
        CAST_LIMIT
    };
    let mut out: Vec<CastMember> = Vec::new();
    let mut j: usize = 0;
    while j < limit
        invariant
            0 <= j <= limit <= cast@.len(),
            perm@.len() == cast@.len(),
            stable_order(ck, usize_seq(perm@)),
            out@.len() == j,
            forall|q: int| 0 <= q < j ==> lists_member(#[trigger] out@[q], cast@[perm@[q] as int]),
        decreases limit - j,
    {
        assert(usize_seq(perm@)[j as int] == perm@[j as int] as int);
        let m = &cast[perm[j]];
        let character = match &m.character {
            Some(c) => if c.as_str().is_empty() {
                None
            } else {
                Some(c.clone())
            },
            None => None,
        };
        out.push(
            CastMember {
                name: m.name.clone(),
                character,
                profile_url: profile_url(as_deref(&m.profile_path)),
            },
        );
        j = j + 1;
    }
    proof {
        let ps = usize_seq(perm@);
        assert forall|q: int| 0 <= q < out@.len() implies lists_member(#[trigger] out@[q], cast@[ps[q]]) by {
            assert(ps[q] == perm@[q] as int);
        }
    }
    out
}

/// A movie's detail: the stored entry, with TMDB's current providers,
/// directors and cast.
pub fn movie_detail(item: MovieWatchlistItem, movie: &TmdbMovie) -> (r: MovieDetail)
    ensures
        r.tmdb_id == item.tmdb_id,
        r.name == item.name,
        r.overview == item.overview,
        r.poster_url == item.poster_url,
        r.backdrop_url == item.backdrop_url,
        r.release_date == item.release_date,
        r.runtime == item.runtime,
        strictly_sorted(views(r.watch_providers@)),
        forall|y: Seq<char>|
            views(r.watch_providers@).contains(y) <==> us_provider_names(movie.watch_providers).contains(y),
        views(r.directors@) == match movie.credits {
            Some(c) => directors_of(c.crew@),
            None => Seq::empty(),
        },
        r.cast@.len() == match movie.credits {
            Some(c) => if c.cast@.len() < CAST_LIMIT {
                c.cast@.len() as int
            } else {
                CAST_LIMIT as int
            },
            None => 0,
        },
        movie.credits matches Some(c) ==> exists|perm: Seq<int>|
            #[trigger] stable_order(cast_keys(c.cast@), perm) && forall|i: int|
                0 <= i < r.cast@.len() ==> lists_member(#[trigger] r.cast@[i], c.cast@[perm[i]]),
{
    let cast = match &movie.credits {
        Some(c) => cast_list(&c.cast),
        None => Vec::new(),
    };
    MovieDetail {
        tmdb_id: item.tmdb_id,
        name: item.name,
        overview: item.overview,
        poster_url: item.poster_url,
        backdrop_url: item.backdrop_url,
        release_date: item.release_date,
        runtime: item.runtime,
        watch_providers: movie.us_providers(),
        directors: movie.directors(),
        cast,
    }
}

/// Adding a movie that is already listed.
pub fn movie_already_listed(tmdb_id: i64) -> (e: AppError)
    ensures
        e matches AppError::InvalidData(m) && m@ == id_text("movie "@, tmdb_id, " is already on the watchlist"@),
{
    AppError::InvalidData(id_message("movie ", tmdb_id, " is already on the watchlist"))
}

/// A movie that is not on the list.
pub fn movie_not_listed(tmdb_id: i64) -> (e: AppError)
    ensures
        e matches AppError::NotFound(m) && m@ == id_text("movie "@, tmdb_id, " not on watchlist"@),
{
    AppError::NotFound(id_message("movie ", tmdb_id, " not on watchlist"))
}

/// A movie missing right after it was inserted.
pub fn movie_vanished() -> (e: AppError)
    ensures
        e matches AppError::Config(m) && m@ == "movie vanished after insert"@,
{
    AppError::Config(owned("movie vanished after insert"))
}

} // verus!
