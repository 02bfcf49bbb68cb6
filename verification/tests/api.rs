use showrunner_backend::api::calendar::{check_range, validate_range, CalendarQuery};
use showrunner_backend::api::episodes::episode_not_found;
use showrunner_backend::api::movies::{cast_list, stable_sort_by_key};
use showrunner_backend::api::notifications::{channel_results, test_event, test_too_soon};
use showrunner_backend::api::search::{media_ids, search_results, search_text, SearchQuery, TmdbMultiResult};
use showrunner_backend::api::shows::{bulk_scope, show_already_listed, show_not_listed, BulkWatchScopeBody};
use showrunner_backend::api::sync::{sync_response, sync_too_soon};
use showrunner_backend::api::watch_log::{page_request, WatchLogQuery};
use showrunner_backend::datasources::tmdb::TmdbCastMember;
use showrunner_backend::db::queries::BulkScope;
use showrunner_backend::error::AppError;
use showrunner_backend::logic::resync::ResyncReport;
use showrunner_backend::notifications::event::NotificationEvent;

fn q(start: &str, end: &str) -> CalendarQuery {
    CalendarQuery { start: start.into(), end: end.into() }
}

fn invalid_message(r: Result<(), AppError>) -> String {
    match r {
        Err(AppError::InvalidData(m)) => m,
        other => panic!("expected InvalidData, got {other:?}"),
    }
}

#[test]
fn calendar_accepts_a_month() {
    assert!(validate_range(&q("2026-05-01", "2026-05-31")).is_ok());
    assert!(validate_range(&q("2026-05-01", "2026-05-01")).is_ok());
}

#[test]
fn calendar_refuses_invalid_dates() {
    assert_eq!(
        invalid_message(validate_range(&q("not-a-date", "2026-05-31"))),
        "invalid start date: not-a-date"
    );
    assert_eq!(invalid_message(validate_range(&q("2026-05-01", "zzz"))), "invalid end date: zzz");
}

#[test]
fn calendar_refuses_inverted_range() {
    assert!(invalid_message(validate_range(&q("2026-05-30", "2026-05-01"))).contains("end must be"));
}

#[test]
fn calendar_refuses_range_over_92_days() {
    assert_eq!(
        invalid_message(validate_range(&q("2026-01-01", "2026-12-31"))),
        "range 364 days exceeds max of 92"
    );
    assert!(validate_range(&q("2026-01-01", "2026-04-03")).is_ok());
    assert!(validate_range(&q("2026-01-01", "2026-04-04")).is_err());
    assert!(check_range(&q("a", "b"), Some(10), Some(102)).is_ok());
}

#[test]
fn search_text_is_trimmed_and_required() {
    assert_eq!(search_text(&SearchQuery { q: "  bear ".into() }).unwrap(), "bear");
    match search_text(&SearchQuery { q: "  ".into() }) {
        Err(AppError::InvalidData(m)) => assert_eq!(m, "query parameter `q` is required"),
        other => panic!("unexpected {other:?}"),
    }
}

fn hit(id: i64, media: Option<&str>, name: Option<&str>, title: Option<&str>) -> TmdbMultiResult {
    TmdbMultiResult {
        id,
        media_type: media.map(|s| s.to_string()),
        name: name.map(|s| s.to_string()),
        title: title.map(|s| s.to_string()),
        first_air_date: Some("2022-06-23".into()),
        release_date: Some("".into()),
        overview: Some("".into()),
        poster_path: Some("/p.jpg".into()),
    }
}

#[test]
fn search_keeps_tv_and_movies_and_marks_tracked() {
    let results = vec![
        hit(99, Some("tv"), Some("TrackedShow"), None),
        hit(5, Some("person"), Some("Someone"), None),
        hit(27205, Some("movie"), None, Some("Inception")),
        hit(1, None, Some("x"), None),
    ];
    let (tv, movies) = media_ids(&results);
    assert_eq!(tv, vec![99]);
    assert_eq!(movies, vec![27205]);
    let out = search_results(results, &vec![99], &vec![]);
    assert_eq!(out.len(), 2);
    assert_eq!(out[0].media_type, "tv");
    assert_eq!(out[0].name, "TrackedShow");
    assert_eq!(out[0].date.as_deref(), Some("2022-06-23"));
    assert!(out[0].already_tracked);
    assert_eq!(out[0].overview, None);
    assert_eq!(out[0].poster_url.as_deref(), Some("https://image.tmdb.org/t/p/w185/p.jpg"));
    assert_eq!(out[1].media_type, "movie");
    assert_eq!(out[1].name, "Inception");
    assert_eq!(out[1].date, None);
    assert!(!out[1].already_tracked);
}

fn member(name: &str, order: Option<i64>) -> TmdbCastMember {
    TmdbCastMember {
        name: name.into(),
        character: Some("".into()),
        profile_path: Some("/x.jpg".into()),
        order,
    }
}

#[test]
fn cast_is_sorted_stably_and_capped() {
    assert_eq!(stable_sort_by_key(&vec![3, 1, 2, 1]), vec![1, 3, 2, 0]);
    let mut cast = vec![member("Unbilled", None), member("Second", Some(1)), member("First", Some(0))];
    for i in 0..20 {
        cast.push(member(&format!("Extra {i}"), Some(5)));
    }
    let out = cast_list(&cast);
    assert_eq!(out.len(), 12);
    assert_eq!(out[0].name, "First");
    assert_eq!(out[1].name, "Second");
    assert_eq!(out[2].name, "Extra 0");
    assert_eq!(out[11].name, "Extra 9");
    assert_eq!(out[0].character, None);
    assert_eq!(out[0].profile_url.as_deref(), Some("https://image.tmdb.org/t/p/w185/x.jpg"));
}

#[test]
fn bulk_scope_follows_the_request() {
    assert!(matches!(bulk_scope(&BulkWatchScopeBody::All), BulkScope::All));
    assert!(matches!(
        bulk_scope(&BulkWatchScopeBody::Season { season_number: 2 }),
        BulkScope::Season { season_number: 2 }
    ));
    assert!(matches!(
        bulk_scope(&BulkWatchScopeBody::ThroughEpisode { season_number: 1, episode_number: 3 }),
        BulkScope::ThroughEpisode { season_number: 1, episode_number: 3 }
    ));
}

#[test]
fn handler_errors_carry_their_messages() {
    assert_eq!(show_already_listed(55).client_message(), "show 55 is already on the watchlist");
    assert_eq!(show_not_listed(123).status_code(), 404);
    assert_eq!(show_not_listed(123).client_message(), "show 123 not on watchlist");
    assert_eq!(
        episode_not_found(1, 9, 9).client_message(),
        "episode S9E9 of show 1 not found"
    );
    assert_eq!(sync_too_soon().status_code(), 429);
    assert_eq!(sync_too_soon().client_message(), "a sync ran less than 60s ago; try again shortly");
    assert!(test_too_soon().client_message().contains("try again shortly"));
}

#[test]
fn watch_log_query_defaults_and_validation() {
    assert_eq!(page_request(&WatchLogQuery { page: None, per_page: None }).unwrap(), (1, 50));
    assert_eq!(page_request(&WatchLogQuery { page: Some(2), per_page: Some(10_000) }).unwrap(), (2, 100));
    assert!(matches!(
        page_request(&WatchLogQuery { page: Some(0), per_page: None }),
        Err(AppError::InvalidData(_))
    ));
    assert!(matches!(
        page_request(&WatchLogQuery { page: Some(1), per_page: Some(0) }),
        Err(AppError::InvalidData(_))
    ));
}

#[test]
fn test_notification_reports_each_channel() {
    match test_event() {
        NotificationEvent::Test { message } => assert_eq!(message, "Hello from Showrunner."),
        _ => panic!("wrong variant"),
    }
    let results = channel_results(vec![
        ("rec".to_string(), Ok(())),
        ("bad".to_string(), Err(AppError::Upstream("stub failure".into()))),
    ]);
    assert_eq!(results.len(), 2);
    assert!(results[0].ok && results[0].error.is_none());
    assert!(!results[1].ok);
    assert_eq!(results[1].error.as_deref(), Some("stub failure"));
}

#[test]
fn sync_response_copies_the_report() {
    let report = ResyncReport::from_outcomes(vec![(1, Ok(())), (2, Err(AppError::NotFound("gone".into())))]);
    let r = sync_response(report);
    assert_eq!(r.shows_synced, 1);
    assert_eq!(r.errors.len(), 1);
    assert_eq!(r.errors[0].tmdb_id, 2);
    assert_eq!(r.errors[0].message, "gone");
}
