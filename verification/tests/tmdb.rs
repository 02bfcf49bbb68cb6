use showrunner_backend::datasources::tmdb::{
    check_movie_status, check_season_status, check_show_status, TmdbClient, TmdbCredits,
    TmdbCrewMember, TmdbMovie, TmdbProvider, TmdbShow, TmdbWatchProvidersByRegion,
    TmdbWatchProvidersWrapper, TMDB_BASE_URL,
};
use showrunner_backend::error::AppError;

fn providers(names: &[&str]) -> Vec<TmdbProvider> {
    names.iter().map(|n| TmdbProvider { provider_name: n.to_string() }).collect()
}

fn show_with_region(wrapper: Option<TmdbWatchProvidersWrapper>) -> TmdbShow {
    TmdbShow {
        id: 1,
        name: "x".into(),
        overview: None,
        poster_path: None,
        backdrop_path: None,
        status: None,
        first_air_date: None,
        last_air_date: None,
        in_production: false,
        seasons: Vec::new(),
        watch_providers: wrapper,
    }
}

#[test]
fn us_providers_returns_empty_when_no_wrapper() {
    let show = show_with_region(None);
    assert!(show.us_providers().is_empty());
}

#[test]
fn us_providers_returns_empty_when_no_us_region() {
    let show = show_with_region(Some(TmdbWatchProvidersWrapper::from_regions(vec![(
            "GB".to_string(),
            TmdbWatchProvidersByRegion { flatrate: vec![], free: vec![], ads: vec![] },
        )])
    .unwrap()));
    assert!(show.us_providers().is_empty());
}

#[test]
fn us_providers_concatenates_flatrate_free_and_ads_sorted_unique() {
    let show = show_with_region(Some(TmdbWatchProvidersWrapper::from_regions(vec![(
            "US".to_string(),
            TmdbWatchProvidersByRegion {
                flatrate: providers(&["Hulu", "Hulu"]),
                free: providers(&["Tubi"]),
                ads: providers(&["Pluto TV"]),
            },
        )])
    .unwrap()));
    assert_eq!(
        show.us_providers(),
        vec![
            "Hulu".to_string(),
            "Pluto TV".to_string(),
            "Tubi".to_string()
        ]
    );
}

#[test]
fn us_providers_sorts_by_code_point_order() {
    let show = show_with_region(Some(TmdbWatchProvidersWrapper::from_regions(vec![
            (
                "GB".to_string(),
                TmdbWatchProvidersByRegion { flatrate: providers(&["BBC"]), free: vec![], ads: vec![] },
            ),
            (
                "US".to_string(),
                TmdbWatchProvidersByRegion {
                    flatrate: providers(&["max", "Max", "Apple TV", "Apple"]),
                    free: providers(&["Max"]),
                    ads: vec![],
                },
            ),
        ])
    .unwrap()));
    assert_eq!(show.us_providers(), vec!["Apple", "Apple TV", "Max", "max"]);
}

#[test]
fn new_uses_real_tmdb_base_url() {
    let c = TmdbClient::new("k".into());
    assert_eq!(c.base_url(), TMDB_BASE_URL);
    assert_eq!(c.api_key(), "k");
}

#[test]
fn with_base_url_overrides() {
    let c = TmdbClient::with_base_url("k".into(), "http://example".into());
    assert_eq!(c.base_url(), "http://example");
}

#[test]
fn requests_carry_paths_and_query() {
    let c = TmdbClient::with_base_url("test_key".into(), "http://h".into());
    let r = c.show_request(42);
    assert_eq!(r.url, "http://h/tv/42");
    assert_eq!(
        r.query,
        vec![
            ("api_key".to_string(), "test_key".to_string()),
            ("append_to_response".to_string(), "watch/providers".to_string())
        ]
    );
    let r = c.movie_request(27205);
    assert_eq!(r.url, "http://h/movie/27205");
    assert_eq!(r.query[1].1, "credits,watch/providers");
    let r = c.season_request(42, 1);
    assert_eq!(r.url, "http://h/tv/42/season/1");
    assert_eq!(r.query.len(), 1);
    let r = c.search_request("bear");
    assert_eq!(r.url, "http://h/search/multi");
    assert_eq!(r.query[1], ("query".to_string(), "bear".to_string()));
    assert_eq!(r.query[2], ("include_adult".to_string(), "false".to_string()));
    assert_eq!(c.show_request(-7).url, "http://h/tv/-7");
}

#[test]
fn show_status_maps_404_and_failures() {
    assert!(check_show_status(200, 9).is_ok());
    match check_show_status(404, 9) {
        Err(AppError::NotFound(m)) => assert_eq!(m, "show 9 not found on TMDB"),
        other => panic!("unexpected {other:?}"),
    }
    match check_show_status(500, 9) {
        Err(AppError::Upstream(m)) => assert_eq!(m, "TMDB returned 500 Internal Server Error"),
        other => panic!("unexpected {other:?}"),
    }
}

#[test]
fn movie_status_maps_429_to_rate_limit_message() {
    match check_movie_status(429, 9) {
        Err(AppError::Upstream(m)) => assert!(m.contains("rate-limiting")),
        other => panic!("unexpected {other:?}"),
    }
    assert!(matches!(check_movie_status(404, 9), Err(AppError::NotFound(_))));
    assert!(matches!(check_movie_status(500, 9), Err(AppError::Upstream(_))));
    assert!(check_movie_status(204, 9).is_ok());
}

#[test]
fn season_status_names_the_season() {
    match check_season_status(503, 1) {
        Err(AppError::Upstream(m)) => assert_eq!(m, "TMDB season 1 returned 503 Service Unavailable"),
        other => panic!("unexpected {other:?}"),
    }
}

#[test]
fn directors_are_listed_in_crew_order() {
    let crew = |name: &str, job: &str| TmdbCrewMember {
        name: name.into(),
        job: job.into(),
        department: None,
    };
    let movie = TmdbMovie {
        id: 27205,
        title: "Inception".into(),
        overview: None,
        poster_path: None,
        backdrop_path: None,
        release_date: None,
        runtime: Some(148),
        credits: Some(TmdbCredits {
            cast: vec![],
            crew: vec![
                crew("Christopher Nolan", "Director"),
                crew("Hans Zimmer", "Original Music Composer"),
                crew("Someone", "director"),
            ],
        }),
        watch_providers: None,
    };
    assert_eq!(movie.directors(), vec!["Christopher Nolan".to_string()]);
    assert!(movie.us_providers().is_empty());
}

#[test]
fn provider_regions_must_be_listed_once() {
    let region = || TmdbWatchProvidersByRegion { flatrate: vec![], free: vec![], ads: vec![] };
    assert!(TmdbWatchProvidersWrapper::from_regions(vec![
        ("US".to_string(), region()),
        ("US".to_string(), region()),
    ])
    .is_none());
    let w = TmdbWatchProvidersWrapper::from_regions(vec![
        ("US".to_string(), region()),
        ("GB".to_string(), region()),
    ])
    .unwrap();
    assert_eq!(w.regions_listed().len(), 2);
}
