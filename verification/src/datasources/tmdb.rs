//! The TMDB API: where requests go, what responses hold, and how a response
//! status becomes an outcome.
use vstd::prelude::*;
use crate::error::AppError;
use crate::http_status::{is_success, status_display, status_is_success, status_text};
use crate::text::{
    concat, int_text, owned, push_int, push_str, sorted_unique, str_eq, strictly_sorted, views,
};

verus! {

pub const TMDB_BASE_URL: &'static str = "https://api.themoviedb.org/3";

/// Seconds an outbound TMDB request may take.
pub const TMDB_HTTP_TIMEOUT_SECS: u64 = 10;

/// Where TMDB is reached and with which key. The HTTP client that sends the
/// requests lives with the caller.
pub struct TmdbClient {
    api_key: String,
    base_url: String,
}

/// One GET request: the URL and its query parameters, in order.
pub struct TmdbRequest {
    pub url: String,
    pub query: Vec<(String, String)>,
}

impl TmdbClient {
    pub closed spec fn spec_api_key(&self) -> Seq<char> {
        self.api_key@
    }

    pub closed spec fn spec_base_url(&self) -> Seq<char> {
        self.base_url@
    }

    pub fn new(api_key: String) -> (r: Self)
        ensures
            r.spec_api_key() == api_key@,
            r.spec_base_url() == TMDB_BASE_URL@,
    {
        Self::with_base_url(api_key, owned(TMDB_BASE_URL))
    }

    pub fn with_base_url(api_key: String, base_url: String) -> (r: Self)
        ensures
            r.spec_api_key() == api_key@,
            r.spec_base_url() == base_url@,
    {
        TmdbClient { api_key, base_url }
    }

    pub fn base_url(&self) -> (r: &str)
        ensures
            r@ == self.spec_base_url(),
    {
        self.base_url.as_str()
    }

    pub fn api_key(&self) -> (r: &str)
        ensures
            r@ == self.spec_api_key(),
    {
        self.api_key.as_str()
    }

    /// `{base}/tv/{id}`.
    pub open spec fn show_url(&self, tmdb_id: i64) -> Seq<char> {
        self.spec_base_url() + "/tv/"@ + int_text(tmdb_id as int)
    }

    /// `{base}/movie/{id}`.
    pub open spec fn movie_url(&self, tmdb_id: i64) -> Seq<char> {
        self.spec_base_url() + "/movie/"@ + int_text(tmdb_id as int)
    }

    /// `{base}/tv/{id}/season/{n}`.
    pub open spec fn season_url(&self, tmdb_id: i64, season_number: i64) -> Seq<char> {
        self.show_url(tmdb_id) + "/season/"@ + int_text(season_number as int)
    }

    /// The request for a show with its US watch providers appended.
    pub fn show_request(&self, tmdb_id: i64) -> (r: TmdbRequest)
        ensures
            r.url@ == self.show_url(tmdb_id),
            r.query@.len() == 2,
            r.query@[0].0@ == "api_key"@ && r.query@[0].1@ == self.spec_api_key(),
            r.query@[1].0@ == "append_to_response"@ && r.query@[1].1@ == "watch/providers"@,
    {
        let mut url = concat(self.base_url.as_str(), "/tv/");
        push_int(&mut url, tmdb_id);
        let mut query: Vec<(String, String)> = Vec::new();
        query.push((owned("api_key"), self.api_key.clone()));
        query.push((owned("append_to_response"), owned("watch/providers")));
        TmdbRequest { url, query }
    }

    /// The request for a movie with its credits and US watch providers.
    pub fn movie_request(&self, tmdb_id: i64) -> (r: TmdbRequest)
        ensures
            r.url@ == self.movie_url(tmdb_id),
            r.query@.len() == 2,
            r.query@[0].0@ == "api_key"@ && r.query@[0].1@ == self.spec_api_key(),
            r.query@[1].0@ == "append_to_response"@ && r.query@[1].1@
                == "credits,watch/providers"@,
    {
        let mut url = concat(self.base_url.as_str(), "/movie/");
        push_int(&mut url, tmdb_id);
        let mut query: Vec<(String, String)> = Vec::new();
        query.push((owned("api_key"), self.api_key.clone()));
        query.push((owned("append_to_response"), owned("credits,watch/providers")));
        TmdbRequest { url, query }
    }

    /// The request for one season of a show.
    pub fn season_request(&self, tmdb_id: i64, season_number: i64) -> (r: TmdbRequest)
        ensures
            r.url@ == self.season_url(tmdb_id, season_number),
            r.query@.len() == 1,
            r.query@[0].0@ == "api_key"@ && r.query@[0].1@ == self.spec_api_key(),
    {
        let mut url = concat(self.base_url.as_str(), "/tv/");
        push_int(&mut url, tmdb_id);
        push_str(&mut url, "/season/");
        push_int(&mut url, season_number);
        let mut query: Vec<(String, String)> = Vec::new();
        query.push((owned("api_key"), self.api_key.clone()));
        TmdbRequest { url, query }
    }

    /// The multi-search request (TV shows, movies and people) for `query`.
    pub fn search_request(&self, query_text: &str) -> (r: TmdbRequest)
        ensures
            r.url@ == self.spec_base_url() + "/search/multi"@,
            r.query@.len() == 3,
            r.query@[0].0@ == "api_key"@ && r.query@[0].1@ == self.spec_api_key(),
            r.query@[1].0@ == "query"@ && r.query@[1].1@ == query_text@,
            r.query@[2].0@ == "include_adult"@ && r.query@[2].1@ == "false"@,
    {
        let url = concat(self.base_url.as_str(), "/search/multi");
        let mut query: Vec<(String, String)> = Vec::new();
        query.push((owned("api_key"), self.api_key.clone()));
        query.push((owned("query"), owned(query_text)));
        query.push((owned("include_adult"), owned("false")));
        TmdbRequest { url, query }
    }
}

// === Response status ===

pub open spec fn tmdb_returned_text(status: u16) -> Seq<char> {
    "TMDB returned "@ + status_display(status)
}

/// The outcome of a show request's status: 404 is "not found", any other
/// non-2xx status is an upstream failure.
pub open spec fn show_status_outcome(status: u16, tmdb_id: i64) -> Option<(bool, Seq<char>)> {
    if status == 404 {
        Some((true, "show "@ + int_text(tmdb_id as int) + " not found on TMDB"@))
    } else if !is_success(status) {
        Some((false, tmdb_returned_text(status)))
    } else {
        None
    }
}

/// The outcome of a movie request's status; 429 gets its own message.
pub open spec fn movie_status_outcome(status: u16, tmdb_id: i64) -> Option<(bool, Seq<char>)> {
    if status == 404 {
        Some((true, "movie "@ + int_text(tmdb_id as int) + " not found on TMDB"@))
    } else if status == 429 {
        Some(
            (
                false,
                "TMDB is rate-limiting requests right now. Please try again in a moment."@,
            ),
        )
    } else if !is_success(status) {
        Some((false, tmdb_returned_text(status)))
    } else {
        None
    }
}

/// Whether `e` is the error an outcome describes: `(true, m)` is
/// `NotFound(m)`, `(false, m)` is `Upstream(m)`.
pub open spec fn error_matches(e: AppError, outcome: (bool, Seq<char>)) -> bool {
    if outcome.0 {
        e matches AppError::NotFound(m) && m@ == outcome.1
    } else {
        e matches AppError::Upstream(m) && m@ == outcome.1
    }
}

fn tmdb_returned(status: u16) -> (r: String)
    requires
        100 <= status <= 999,
    ensures
        r@ == tmdb_returned_text(status),
{
    let t = status_text(status);
    concat("TMDB returned ", t.as_str())
}

/// Checks the status of a show response.
pub fn check_show_status(status: u16, tmdb_id: i64) -> (r: Result<(), AppError>)
    requires
        100 <= status <= 999,
    ensures
        r is Ok <==> show_status_outcome(status, tmdb_id) is None,
        r matches Err(e) ==> error_matches(e, show_status_outcome(status, tmdb_id)->0),
{
    if status == 404 {
        let mut m = owned("show ");
        push_int(&mut m, tmdb_id);
        push_str(&mut m, " not found on TMDB");
        return Err(AppError::NotFound(m));
    }
    if !status_is_success(status) {
        return Err(AppError::Upstream(tmdb_returned(status)));
    }
    Ok(())
}

/// Checks the status of a movie response.
pub fn check_movie_status(status: u16, tmdb_id: i64) -> (r: Result<(), AppError>)
    requires
        100 <= status <= 999,
    ensures
        r is Ok <==> movie_status_outcome(status, tmdb_id) is None,
        r matches Err(e) ==> error_matches(e, movie_status_outcome(status, tmdb_id)->0),
{
    if status == 404 {
        let mut m = owned("movie ");
        push_int(&mut m, tmdb_id);
        push_str(&mut m, " not found on TMDB");
        return Err(AppError::NotFound(m));
    }
    if status == 429 {
        return Err(
            AppError::Upstream(
                owned("TMDB is rate-limiting requests right now. Please try again in a moment."),
            ),
        );
    }
    if !status_is_success(status) {
        return Err(AppError::Upstream(tmdb_returned(status)));
    }
    Ok(())
}

/// Checks the status of a season response: any non-2xx is upstream failure.
pub fn check_season_status(status: u16, season_number: i64) -> (r: Result<(), AppError>)
    requires
        100 <= status <= 999,
    ensures
        r is Ok <==> is_success(status),
        r matches Err(e) ==> e matches AppError::Upstream(m) && m@ == "TMDB season "@
            + int_text(season_number as int) + " returned "@ + status_display(status),
{
    if !status_is_success(status) {
        let mut m = owned("TMDB season ");
        push_int(&mut m, season_number);
        push_str(&mut m, " returned ");
        let t = status_text(status);
        push_str(&mut m, t.as_str());
        return Err(AppError::Upstream(m));
    }
    Ok(())
}

/// Checks the status of a search response: any non-2xx is upstream failure.
pub fn check_search_status(status: u16) -> (r: Result<(), AppError>)
    requires
        100 <= status <= 999,
    ensures
        r is Ok <==> is_success(status),
        r matches Err(e) ==> e matches AppError::Upstream(m) && m@ == tmdb_returned_text(status),
{
    if !status_is_success(status) {
        return Err(AppError::Upstream(tmdb_returned(status)));
    }
    Ok(())
}

// === TMDB response shapes (only fields we use) ===

pub struct TmdbShow {
    pub id: i64,
    pub name: String,
    pub overview: Option<String>,
    pub poster_path: Option<String>,
    pub backdrop_path: Option<String>,
    pub status: Option<String>,
    pub first_air_date: Option<String>,
    pub last_air_date: Option<String>,
    pub in_production: bool,
    pub seasons: Vec<TmdbSeasonSummary>,
    pub watch_providers: Option<TmdbWatchProvidersWrapper>,
}

pub struct TmdbSeasonSummary {
    pub season_number: i64,
}

pub struct TmdbSeason {
    pub season_number: i64,
    pub name: Option<String>,
    pub overview: Option<String>,
    pub air_date: Option<String>,
    pub episodes: Vec<TmdbEpisode>,
}

pub struct TmdbEpisode {
    pub id: Option<i64>,
    pub episode_number: i64,
    pub name: Option<String>,
    pub overview: Option<String>,
    pub air_date: Option<String>,
    pub runtime: Option<i64>,
}

pub struct TmdbMovie {
    pub id: i64,
    pub title: String,
    pub overview: Option<String>,
    pub poster_path: Option<String>,
    pub backdrop_path: Option<String>,
    pub release_date: Option<String>,
    pub runtime: Option<i64>,
    pub credits: Option<TmdbCredits>,
    pub watch_providers: Option<TmdbWatchProvidersWrapper>,
}

pub struct TmdbCredits {
    pub cast: Vec<TmdbCastMember>,
    pub crew: Vec<TmdbCrewMember>,
}

pub struct TmdbCastMember {
    pub name: String,
    pub character: Option<String>,
    pub profile_path: Option<String>,
    pub order: Option<i64>,
}

pub struct TmdbCrewMember {
    pub name: String,
    pub job: String,
    pub department: Option<String>,
}

/// Watch providers by region code ("US", "GB", ...); each code once, as
/// in TMDB's object keyed by code.
pub struct TmdbWatchProvidersWrapper {
    results: Vec<(String, TmdbWatchProvidersByRegion)>,
}

pub struct TmdbWatchProvidersByRegion {
    pub flatrate: Vec<TmdbProvider>,
    pub free: Vec<TmdbProvider>,
    pub ads: Vec<TmdbProvider>,
}

pub struct TmdbProvider {
    pub provider_name: String,
}

/// The providers listed for a region code.
pub open spec fn region_lookup(
    results: Seq<(String, TmdbWatchProvidersByRegion)>,
    code: Seq<char>,
) -> Option<TmdbWatchProvidersByRegion>
    decreases results.len(),
{
    if results.len() == 0 {
        None
    } else if results[0].0@ == code {
        Some(results[0].1)
    } else {
        region_lookup(results.drop_first(), code)
    }
}

/// Each region code is listed at most once, as in TMDB's map keyed by code.
pub open spec fn codes_distinct(results: Seq<(String, TmdbWatchProvidersByRegion)>) -> bool {
    forall|i: int, j: int|
        0 <= i < j < results.len() ==> #[trigger] results[i].0@ != #[trigger] results[j].0@
}

/// With each region code listed once, looking a code up gives the region
/// listed under it, wherever it stands.
pub proof fn region_lookup_finds_listed_region(
    results: Seq<(String, TmdbWatchProvidersByRegion)>,
    i: int,
)
    requires
        codes_distinct(results),
        0 <= i < results.len(),
    ensures
        region_lookup(results, results[i].0@) == Some(results[i].1),
    decreases results.len(),
{
    if i > 0 {
        let rest = results.drop_first();
        assert(results[0].0@ != results[i].0@);
        assert forall|a: int, b: int| 0 <= a < b < rest.len() implies #[trigger] rest[a].0@
            != #[trigger] rest[b].0@ by {
            assert(rest[a] == results[a + 1]);
            assert(rest[b] == results[b + 1]);
        }
        assert(rest[i - 1] == results[i]);
        region_lookup_finds_listed_region(rest, i - 1);
    }
}

impl TmdbWatchProvidersWrapper {
    #[verifier::type_invariant]
    spec fn codes_listed_once(self) -> bool {
        codes_distinct(self.results@)
    }

    /// The (region code, providers) entries.
    pub closed spec fn regions(&self) -> Seq<(String, TmdbWatchProvidersByRegion)> {
        self.results@
    }

    /// The providers of each region, from entries whose codes are each
    /// listed once; `None` when a code is listed twice.
    pub fn from_regions(results: Vec<(String, TmdbWatchProvidersByRegion)>) -> (r: Option<Self>)
        ensures
            r is Some <==> codes_distinct(results@),
            r matches Some(w) ==> w.regions() == results@,
    {
        let n = results.len();
        let mut j: usize = 0;
        while j < n
            invariant
                n == results@.len(),
                0 <= j <= n,
                forall|a: int, b: int|
                    0 <= a < b < j ==> #[trigger] results@[a].0@ != #[trigger] results@[b].0@,
            decreases n - j,
        {
            let mut i: usize = 0;
            while i < j
                invariant
                    n == results@.len(),
                    0 <= i <= j < n,
                    forall|a: int| 0 <= a < i ==> #[trigger] results@[a].0@ != results@[j as int].0@,
                decreases j - i,
            {
                if str_eq(results[i].0.as_str(), results[j].0.as_str()) {
                    proof {
                        let a = i as int;
                        let b = j as int;
                        assert(results@[a].0@ == results@[b].0@);
                        assert(!codes_distinct(results@));
                    }
                    return None;
                }
                i = i + 1;
            }
            j = j + 1;
        }
        Some(TmdbWatchProvidersWrapper { results })
    }

    /// The entries, each region code once.
    pub fn regions_listed(&self) -> (r: &Vec<(String, TmdbWatchProvidersByRegion)>)
        ensures
            r@ == self.regions(),
            codes_distinct(r@),
    {
        proof {
            use_type_invariant(self);
        }
        &self.results
    }

    /// The entries, each region code once, taken out of the wrapper.
    pub fn into_regions(self) -> (r: Vec<(String, TmdbWatchProvidersByRegion)>)
        ensures
            r@ == self.regions(),
            codes_distinct(r@),
    {
        proof {
            use_type_invariant(&self);
        }
        self.results
    }
}

pub open spec fn provider_names(p: Seq<TmdbProvider>) -> Seq<Seq<char>> {
    p.map_values(|x: TmdbProvider| x.provider_name@)
}

/// Streaming, free and ad-supported provider names of a region, in that order.
pub open spec fn region_names(r: TmdbWatchProvidersByRegion) -> Seq<Seq<char>> {
    provider_names(r.flatrate@) + provider_names(r.free@) + provider_names(r.ads@)
}

/// Every US provider name listed, repeats included.
pub open spec fn us_provider_names(wrapper: Option<TmdbWatchProvidersWrapper>) -> Seq<Seq<char>> {
    match wrapper {
        Some(w) => match region_lookup(w.regions(), "US"@) {
            Some(r) => region_names(r),
            None => Seq::empty(),
        },
        None => Seq::empty(),
    }
}

/// The names of the directors among a crew, in crew order.
pub open spec fn directors_of(crew: Seq<TmdbCrewMember>) -> Seq<Seq<char>>
    decreases crew.len(),
{
    if crew.len() == 0 {
        Seq::empty()
    } else if crew.last().job@ == "Director"@ {
        directors_of(crew.drop_last()).push(crew.last().name@)
    } else {
        directors_of(crew.drop_last())
    }
}

fn find_region<'a>(
    results: &'a Vec<(String, TmdbWatchProvidersByRegion)>,
    code: &str,
) -> (r: Option<&'a TmdbWatchProvidersByRegion>)
    ensures
        match region_lookup(results@, code@) {
            Some(x) => r == Some(&x),
            None => r is None,
        },
{
    let mut i: usize = 0;
    assert(results@.skip(0) =~= results@);
    while i < results.len()
        invariant
            0 <= i <= results@.len(),
            region_lookup(results@, code@) == region_lookup(results@.skip(i as int), code@),
        decreases results@.len() - i,
    {
        if str_eq(results[i].0.as_str(), code) {
            return Some(&results[i].1);
        }
        assert(results@.skip(i as int).drop_first() =~= results@.skip(i + 1));
        i = i + 1;
    }
    None
}

fn push_provider_names(out: &mut Vec<String>, providers: &Vec<TmdbProvider>)
    ensures
        views(final(out)@) == views(old(out)@) + provider_names(providers@),
{
    let mut i: usize = 0;
    while i < providers.len()
        invariant
            0 <= i <= providers@.len(),
            views(out@) == views(old(out)@) + provider_names(providers@.take(i as int)),
        decreases providers@.len() - i,
    {
        let ghost prev = out@;
        let name = providers[i].provider_name.clone();
        out.push(name);
        proof {
            assert(views(out@) =~= views(prev).push(name@));
            assert(providers@.take(i + 1) =~= providers@.take(i as int).push(providers@[i as int]));
            assert(views(out@) =~= views(old(out)@) + provider_names(providers@.take(i + 1)));
        }
        i = i + 1;
    }
    assert(providers@.take(providers@.len() as int) =~= providers@);
}

/// The distinct US streaming, free and ad-supported provider names, sorted.
pub fn us_providers_from(wrapper: Option<&TmdbWatchProvidersWrapper>) -> (r: Vec<String>)
    ensures
        strictly_sorted(views(r@)),
        forall|y: Seq<char>|
            views(r@).contains(y) <==> us_provider_names(
                match wrapper {
                    Some(w) => Some(*w),
                    None => None,
                },
            ).contains(y),
        wrapper matches Some(w) ==> forall|i: int|
            0 <= i < w.regions().len() && (#[trigger] w.regions()[i]).0@ == "US"@ ==> (forall|
                y: Seq<char>,
            | views(r@).contains(y) <==> region_names(w.regions()[i].1).contains(y)),
{
    let w = match wrapper {
        Some(w) => w,
        None => {
            return Vec::new();
        },
    };
    proof {
        use_type_invariant(w);
        assert forall|i: int|
            0 <= i < w.regions().len() && (#[trigger] w.regions()[i]).0@ == "US"@ implies region_lookup(
            w.regions(),
            "US"@,
        ) == Some(w.regions()[i].1) by {
            region_lookup_finds_listed_region(w.regions(), i);
        }
    }
    let region = match find_region(&w.results, "US") {
        Some(r) => r,
        None => {
            return Vec::new();
        },
    };
    let mut names: Vec<String> = Vec::new();
    push_provider_names(&mut names, &region.flatrate);
    push_provider_names(&mut names, &region.free);
    push_provider_names(&mut names, &region.ads);
    assert(views(names@) =~= region_names(*region));
    sorted_unique(names)
}

impl TmdbShow {
    /// The distinct US streaming/free/ads provider names, sorted.
    pub fn us_providers(&self) -> (r: Vec<String>)
        ensures
            strictly_sorted(views(r@)),
            forall|y: Seq<char>|
                views(r@).contains(y) <==> us_provider_names(self.watch_providers).contains(y),
    {
        us_providers_from(self.watch_providers.as_ref())
    }
}

impl TmdbMovie {
    /// The distinct US streaming/free/ads provider names, sorted.
    pub fn us_providers(&self) -> (r: Vec<String>)
        ensures
            strictly_sorted(views(r@)),
            forall|y: Seq<char>|
                views(r@).contains(y) <==> us_provider_names(self.watch_providers).contains(y),
    {
        us_providers_from(self.watch_providers.as_ref())
    }

    /// The names of the crew members whose job is "Director", in crew order.
    pub fn directors(&self) -> (r: Vec<String>)
        ensures
            views(r@) == match self.credits {
                Some(c) => directors_of(c.crew@),
                None => Seq::empty(),
            },
    {
        let credits = match &self.credits {
            Some(c) => c,
            None => {
                return Vec::new();
            },
        };
        let crew = &credits.crew;
        let mut r: Vec<String> = Vec::new();
        let mut i: usize = 0;
        while i < crew.len()
            invariant
                0 <= i <= crew@.len(),
                views(r@) == directors_of(crew@.take(i as int)),
            decreases crew@.len() - i,
        {
            let m = &crew[i];
            proof {
                assert(crew@.take(i + 1).drop_last() =~= crew@.take(i as int));
            }
            if str_eq(m.job.as_str(), "Director") {
                r.push(m.name.clone());
                assert(views(r@) =~= directors_of(crew@.take(i + 1)));
            }
            i = i + 1;
        }
        assert(crew@.take(crew@.len() as int) =~= crew@);
        r
    }
}


/// A movie's directors are exactly the crew members whose job is
/// "Director", every one of them, in crew order.
pub proof fn directors_are_the_crew_directing(crew: Seq<TmdbCrewMember>)
    ensures
        directors_of(crew) == crew.filter_map(
            |m: TmdbCrewMember|
                if m.job@ == "Director"@ {
                    Some(m.name@)
                } else {
                    None
                },
        ),
    decreases crew.len(),
{
    if crew.len() > 0 {
        directors_are_the_crew_directing(crew.drop_last());
    }
}

} // verus!
