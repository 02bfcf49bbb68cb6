use showrunner_backend::datasources::tmdb::{TmdbSeasonSummary, TmdbShow};
use showrunner_backend::db::queries::NotifiableEpisode;
use showrunner_backend::error::AppError;
use showrunner_backend::logic::notifications::{build_event, NotifyRun, NotifyStep};
use showrunner_backend::logic::resync::{
    resync_batch, seasons_to_add, seasons_to_resync, ResyncReport, MAX_SHOWS_PER_RESYNC,
};
use showrunner_backend::notifications::event::NotificationEvent;
use showrunner_backend::state::RateGate;

fn ep(show: i64, name: &str) -> NotifiableEpisode {
    NotifiableEpisode {
        show_tmdb_id: show,
        show_name: name.into(),
        season_number: 1,
        episode_number: 1,
        episode_name: None,
        watch_providers: vec!["Hulu".into()],
    }
}

#[test]
fn build_event_fills_missing_title_with_empty() {
    match build_event(&ep(1, "Show")) {
        NotificationEvent::EpisodeAiringToday { show_name, season, episode, title, where_to_watch } => {
            assert_eq!(show_name, "Show");
            assert_eq!((season, episode), (1, 1));
            assert_eq!(title, "");
            assert_eq!(where_to_watch, vec!["Hulu".to_string()]);
        }
        _ => panic!("wrong variant"),
    }
}

#[test]
fn build_event_keeps_large_season_and_episode_numbers() {
    let mut e = ep(1, "S");
    e.season_number = 70000;
    e.episode_number = 3;
    match build_event(&e) {
        NotificationEvent::EpisodeAiringToday { season, episode, .. } => {
            assert_eq!((season, episode), (70000, 3));
        }
        _ => panic!("wrong variant"),
    }
}

#[test]
fn notify_run_with_no_channels_finishes_at_once() {
    let (_run, step) = NotifyRun::start(Vec::new());
    assert!(matches!(step, NotifyStep::Finished { sent: 0 }));
}

#[test]
fn notify_run_with_no_episodes_sends_nothing() {
    let (mut run, step) = NotifyRun::start(vec!["rec".into()]);
    assert!(matches!(step, NotifyStep::LoadEpisodes));
    let step = run.on_episodes(Vec::new());
    assert!(matches!(step, NotifyStep::Finished { sent: 0 }));
}

#[test]
fn notify_run_sends_unlogged_pairs_and_logs_only_successes() {
    let (mut run, _) = NotifyRun::start(vec!["a".into(), "b".into()]);
    let mut step = run.on_episodes(vec![ep(1, "One"), ep(2, "Two")]);
    let mut sends = Vec::new();
    let mut records = Vec::new();
    loop {
        step = match step {
            NotifyStep::CheckLogged { show_tmdb_id, channel, .. } => {
                // Show 1 was already notified on channel "a".
                run.on_logged(show_tmdb_id == 1 && channel == "a")
            }
            NotifyStep::Send { channel, event } => {
                let show = match event {
                    NotificationEvent::EpisodeAiringToday { show_name, .. } => show_name,
                    _ => panic!("wrong event"),
                };
                sends.push((show.clone(), channel.clone()));
                // Channel "b" fails.
                run.on_sent(channel != "b")
            }
            NotifyStep::Record { show_tmdb_id, channel, .. } => {
                records.push((show_tmdb_id, channel));
                run.on_recorded()
            }
            NotifyStep::Finished { sent } => {
                assert_eq!(sent, 1);
                break;
            }
            NotifyStep::LoadEpisodes => panic!("episodes were already loaded"),
        };
    }
    assert_eq!(
        sends,
        vec![
            ("One".to_string(), "b".to_string()),
            ("Two".to_string(), "a".to_string()),
            ("Two".to_string(), "b".to_string())
        ]
    );
    assert_eq!(records, vec![(2, "a".to_string())]);
}

#[test]
fn resync_report_counts_successes_and_lists_failures() {
    let report = ResyncReport::from_outcomes(vec![
        (1, Ok(())),
        (2, Err(AppError::NotFound("show 2 not found on TMDB".into()))),
        (3, Err(AppError::Database(sqlx::Error::RowNotFound))),
    ]);
    assert_eq!(report.shows_synced, 1);
    assert_eq!(report.errors.len(), 2);
    assert_eq!(report.errors[0].tmdb_id, 2);
    assert_eq!(report.errors[0].message, "show 2 not found on TMDB");
    assert_eq!(report.errors[1].message, "An internal error occurred");
}

#[test]
fn resync_with_no_shows_is_a_noop() {
    let report = ResyncReport::from_outcomes(Vec::new());
    assert_eq!(report.shows_synced, 0);
    assert!(report.errors.is_empty());
}

#[test]
fn resync_batch_caps_shows_per_run() {
    let ids: Vec<i64> = (1..=250).collect();
    let batch = resync_batch(ids);
    assert_eq!(batch.len(), MAX_SHOWS_PER_RESYNC);
    assert_eq!(batch.len(), 100);
    assert_eq!(batch[0], 1);
    assert_eq!(resync_batch(vec![1, 2, 3]), vec![1, 2, 3]);
}

#[test]
fn season_zero_is_skipped() {
    let show = TmdbShow {
        id: 7,
        name: "S".into(),
        overview: None,
        poster_path: None,
        backdrop_path: None,
        status: None,
        first_air_date: None,
        last_air_date: None,
        in_production: true,
        seasons: vec![
            TmdbSeasonSummary { season_number: 0 },
            TmdbSeasonSummary { season_number: 1 },
            TmdbSeasonSummary { season_number: -1 },
            TmdbSeasonSummary { season_number: 2 },
        ],
        watch_providers: None,
    };
    assert_eq!(seasons_to_resync(&show), vec![1, -1, 2]);
    assert_eq!(seasons_to_add(&show), vec![1, 2]);
}

#[test]
fn rate_gate_spaces_runs() {
    let mut g = RateGate::new();
    assert!(g.try_acquire(1_000, 60_000));
    assert!(!g.try_acquire(1_000, 60_000));
    assert!(!g.try_acquire(60_999, 60_000));
    assert!(g.try_acquire(61_000, 60_000));
    assert!(!g.try_acquire(500, 60_000));
    let mut d = RateGate::default();
    assert!(d.try_acquire(0, 60_000));
}
