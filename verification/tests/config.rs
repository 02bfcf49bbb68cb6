use showrunner_backend::config::{optional, Config};
use showrunner_backend::error::AppError;

fn vars(pairs: &[(&str, &str)]) -> Vec<(String, String)> {
    pairs.iter().map(|(k, v)| (k.to_string(), v.to_string())).collect()
}

#[test]
fn defaults_apply_when_only_required_vars_set() {
    let cfg = Config::from_vars(&vars(&[("TMDB_API_KEY", "abc")])).unwrap();
    assert_eq!(cfg.server.host, "0.0.0.0");
    assert_eq!(cfg.server.port, 3001);
    assert_eq!(cfg.server.cors_allowed_origin, None);
    assert_eq!(cfg.database_url, "sqlite:///data/showrunner.db");
    assert_eq!(cfg.tmdb_api_key, "abc");
    assert_eq!(cfg.slack_webhook_url, None);
    assert_eq!(cfg.schedule.resync_cron, "0 0 6 * * *");
    assert_eq!(cfg.schedule.notification_check_interval_minutes, 60);
    assert_eq!(cfg.timezone.name(), "America/New_York");
}

#[test]
fn overrides_pick_up_env_vars() {
    let cfg = Config::from_vars(&vars(&[
        ("TMDB_API_KEY", "k"),
        ("SERVER_HOST", "127.0.0.1"),
        ("SERVER_PORT", "8080"),
        ("CORS_ALLOWED_ORIGIN", "https://example.com"),
        ("DATABASE_URL", "sqlite::memory:"),
        ("SLACK_WEBHOOK_URL", "https://hooks/x"),
        ("RESYNC_CRON", "0 30 5 * * *"),
        ("NOTIFICATION_CHECK_INTERVAL_MINUTES", "15"),
        ("TIMEZONE", "Europe/London"),
    ]))
    .unwrap();
    assert_eq!(cfg.server.host, "127.0.0.1");
    assert_eq!(cfg.server.port, 8080);
    assert_eq!(
        cfg.server.cors_allowed_origin.as_deref(),
        Some("https://example.com")
    );
    assert_eq!(cfg.database_url, "sqlite::memory:");
    assert_eq!(cfg.slack_webhook_url.as_deref(), Some("https://hooks/x"));
    assert_eq!(cfg.schedule.resync_cron, "0 30 5 * * *");
    assert_eq!(cfg.schedule.notification_check_interval_minutes, 15);
    assert_eq!(cfg.timezone.name(), "Europe/London");
}

#[test]
fn missing_tmdb_api_key_fails() {
    let err = Config::from_vars(&vars(&[])).unwrap_err();
    assert!(matches!(err, AppError::Config(_)));
    assert!(err.message().contains("TMDB_API_KEY"));
}

#[test]
fn empty_tmdb_api_key_fails() {
    let err = Config::from_vars(&vars(&[("TMDB_API_KEY", "   ")])).unwrap_err();
    assert!(matches!(err, AppError::Config(_)));
}

#[test]
fn invalid_port_fails() {
    let err = Config::from_vars(&vars(&[("TMDB_API_KEY", "k"), ("SERVER_PORT", "999999")]))
        .unwrap_err();
    assert!(err.message().contains("SERVER_PORT"));
}

#[test]
fn invalid_notification_interval_fails() {
    let err = Config::from_vars(&vars(&[
        ("TMDB_API_KEY", "k"),
        ("NOTIFICATION_CHECK_INTERVAL_MINUTES", "not-a-num"),
    ]))
    .unwrap_err();
    assert!(err
        .message()
        .contains("NOTIFICATION_CHECK_INTERVAL_MINUTES"));
}

#[test]
fn invalid_timezone_fails() {
    let err = Config::from_vars(&vars(&[("TMDB_API_KEY", "k"), ("TIMEZONE", "Mars/Olympus_Mons")]))
        .unwrap_err();
    assert!(err.message().contains("TIMEZONE"));
}

#[test]
fn empty_optional_vars_treated_as_absent() {
    let cfg = Config::from_vars(&vars(&[
        ("TMDB_API_KEY", "k"),
        ("SLACK_WEBHOOK_URL", ""),
        ("CORS_ALLOWED_ORIGIN", "   "),
    ]))
    .unwrap();
    assert_eq!(cfg.slack_webhook_url, None);
    assert_eq!(cfg.server.cors_allowed_origin, None);
}

#[test]
fn config_errors_name_the_failing_setting_exactly() {
    let err = Config::from_vars(&vars(&[("TMDB_API_KEY", "k"), ("SERVER_PORT", "65536")]))
        .unwrap_err();
    assert_eq!(err.client_message(), "SERVER_PORT must be a u16");
    assert_eq!(err.message(), "Configuration error: SERVER_PORT must be a u16");
    let err = Config::from_vars(&vars(&[("TMDB_API_KEY", "k"), ("TIMEZONE", "Nowhere")]))
        .unwrap_err();
    assert_eq!(
        err.client_message(),
        "TIMEZONE 'Nowhere' is not a valid IANA zone (e.g. America/New_York, Europe/London)"
    );
}

#[test]
fn port_accepts_plus_sign_and_boundaries() {
    let cfg = Config::from_vars(&vars(&[("TMDB_API_KEY", "k"), ("SERVER_PORT", "+65535")])).unwrap();
    assert_eq!(cfg.server.port, 65535);
    let cfg = Config::from_vars(&vars(&[("TMDB_API_KEY", "k"), ("SERVER_PORT", "0")])).unwrap();
    assert_eq!(cfg.server.port, 0);
    assert!(Config::from_vars(&vars(&[("TMDB_API_KEY", "k"), ("SERVER_PORT", "")])).is_err());
    assert!(Config::from_vars(&vars(&[("TMDB_API_KEY", "k"), ("SERVER_PORT", "+")])).is_err());
    assert!(Config::from_vars(&vars(&[("TMDB_API_KEY", "k"), ("SERVER_PORT", "-1")])).is_err());
    assert!(Config::from_vars(&vars(&[("TMDB_API_KEY", "k"), ("SERVER_PORT", " 80")])).is_err());
}

#[test]
fn first_occurrence_of_a_variable_wins_and_blank_is_absent() {
    let v = vars(&[("X", "  "), ("Y", " a "), ("Y", "b")]);
    assert_eq!(optional(&v, "X"), None);
    assert_eq!(optional(&v, "Y").as_deref(), Some(" a "));
    assert_eq!(optional(&v, "Z"), None);
}
