use showrunner_backend::db::pool::max_connections;
use showrunner_backend::db::queries::{
    bulk_log_entry, empty_to_none, providers_from_json, providers_to_json, season_detail,
    BulkScope,
};
use showrunner_backend::db::watch_log::{page_window, MAX_PER_PAGE};
use showrunner_backend::models::movie::profile_url;
use showrunner_backend::models::show::{backdrop_url, poster_url, EpisodeRow, SeasonRow};
use showrunner_backend::models::watch_log::action_str;

#[test]
fn poster_url_prepends_base_when_path_present() {
    assert_eq!(
        poster_url(Some("/abc.jpg")),
        Some("https://image.tmdb.org/t/p/w185/abc.jpg".to_string()),
    );
}

#[test]
fn poster_url_treats_empty_string_as_none() {
    assert_eq!(poster_url(Some("")), None);
}

#[test]
fn poster_url_returns_none_for_none() {
    assert_eq!(poster_url(None), None);
}

#[test]
fn backdrop_url_uses_w780_base() {
    assert_eq!(
        backdrop_url(Some("/x.jpg")),
        Some("https://image.tmdb.org/t/p/w780/x.jpg".to_string()),
    );
    assert_eq!(backdrop_url(Some("")), None);
    assert_eq!(backdrop_url(None), None);
}

#[test]
fn action_str_maps_bool() {
    assert_eq!(action_str(true), "watched");
    assert_eq!(action_str(false), "unwatched");
}

#[test]
fn profile_url_uses_w185_base() {
    assert_eq!(
        profile_url(Some("/leo.jpg")),
        Some("https://image.tmdb.org/t/p/w185/leo.jpg".to_string())
    );
    assert_eq!(profile_url(Some("")), None);
}

#[test]
fn empty_text_is_stored_as_null() {
    assert_eq!(empty_to_none(Some("")), None);
    assert_eq!(empty_to_none(Some("x")), Some("x"));
    assert_eq!(empty_to_none(None), None);
}

#[test]
fn stored_providers_tolerate_invalid_json() {
    assert_eq!(
        providers_from_json(Some("[\"Hulu\",\"Max\"]")),
        vec!["Hulu".to_string(), "Max".to_string()]
    );
    assert!(providers_from_json(Some("not json")).is_empty());
    assert!(providers_from_json(None).is_empty());
}

fn episode(n: i64, watched: i64) -> EpisodeRow {
    EpisodeRow {
        show_tmdb_id: 1,
        season_number: 1,
        episode_number: n,
        tmdb_id: None,
        name: Some(format!("Ep {n}")),
        overview: None,
        air_date: Some("2024-01-01".into()),
        runtime: Some(30),
        watched,
        watched_at: None,
    }
}

#[test]
fn season_detail_counts_watched_and_keeps_order() {
    let season = SeasonRow {
        show_tmdb_id: 1,
        season_number: 1,
        name: Some("S1".into()),
        overview: None,
        air_date: None,
        episode_count: 3,
    };
    let d = season_detail(season, vec![episode(1, 1), episode(2, 0), episode(3, 1)]);
    assert_eq!(d.watched_count, 2);
    assert_eq!(d.episodes.len(), 3);
    assert_eq!(d.episodes[0].episode_number, 1);
    assert!(d.episodes[0].watched);
    assert!(!d.episodes[1].watched);
    assert_eq!(d.episodes[2].name.as_deref(), Some("Ep 3"));
}

#[test]
fn page_window_clamps_and_offsets() {
    assert_eq!(page_window(1, 2), (1, 2, 0));
    assert_eq!(page_window(3, 2), (3, 2, 4));
    assert_eq!(page_window(0, 0), (1, 1, 0));
    assert_eq!(page_window(2, 10_000), (2, MAX_PER_PAGE, MAX_PER_PAGE));
}

#[test]
fn pool_size_defaults_to_five() {
    assert_eq!(max_connections(Some("1")), 1);
    assert_eq!(max_connections(Some("not-a-number")), 5);
    assert_eq!(max_connections(None), 5);
}

#[test]
fn bulk_scopes_map_to_log_scope_names() {
    let through = BulkScope::ThroughEpisode { season_number: 1, episode_number: 1 };
    let e = bulk_log_entry(&through, true, 1, "X", Some("/x.jpg"), 1);
    assert_eq!(e.media_type, "tv");
    assert_eq!(e.action, "watched");
    assert_eq!(e.scope, "through_episode");
    assert_eq!(e.tmdb_id, 1);
    assert_eq!(e.title, "X");
    assert_eq!(e.poster_path, Some("/x.jpg"));
    assert_eq!(e.season_number, Some(1));
    assert_eq!(e.episode_number, Some(1));
    assert_eq!(e.episode_name, None);
    assert_eq!(e.episode_count, 1);

    let season = bulk_log_entry(&BulkScope::Season { season_number: 1 }, true, 1, "X", None, 2);
    assert_eq!(season.scope, "season");
    assert_eq!(season.season_number, Some(1));
    assert_eq!(season.episode_number, None);
    assert_eq!(season.episode_count, 2);

    let all = bulk_log_entry(&BulkScope::All, false, 1, "X", None, 1);
    assert_eq!(all.scope, "show");
    assert_eq!(all.action, "unwatched");
    assert_eq!(all.season_number, None);
    assert_eq!(all.episode_number, None);
}

#[test]
fn stored_providers_are_a_json_list() {
    let names = vec!["Hulu".to_string(), "Max".to_string()];
    let json = providers_to_json(&names).unwrap();
    assert_eq!(json, "[\"Hulu\",\"Max\"]");
    assert_eq!(providers_from_json(Some(&json)), names);
    assert_eq!(providers_to_json(&Vec::new()).unwrap(), "[]");
}
