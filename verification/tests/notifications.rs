use showrunner_backend::notifications::dispatcher::NotificationDispatcher;
use showrunner_backend::notifications::event::NotificationEvent;
use showrunner_backend::notifications::slack::{check_webhook_status, escape_mrkdwn, SlackNotifier};
use showrunner_backend::error::AppError;

#[test]
fn empty_dispatcher_reports_no_channels() {
    let d = NotificationDispatcher::new(Vec::new());
    assert!(d.is_empty());
    assert!(d.channel_names().is_empty());
}

#[test]
fn channel_names_lists_all_configured() {
    let d = NotificationDispatcher::new(vec!["a".to_string(), "b".to_string()]);
    assert!(!d.is_empty());
    assert_eq!(d.channel_names(), vec!["a".to_string(), "b".to_string()]);
}

#[test]
fn find_channel_routes_by_name() {
    let d = NotificationDispatcher::new(vec!["a".to_string(), "b".to_string()]);
    assert_eq!(d.find_channel("b").unwrap(), 1);
    match d.find_channel("missing") {
        Err(AppError::NotFound(m)) => assert_eq!(m, "notifier 'missing' not configured"),
        other => panic!("unexpected {other:?}"),
    }
}

#[test]
fn event_clone_preserves_data() {
    let original = NotificationEvent::Test {
        message: "x".into(),
    };
    let clone = original.clone();
    match clone {
        NotificationEvent::Test { message } => assert_eq!(message, "x"),
        _ => panic!("wrong variant"),
    }
}

#[test]
fn name_is_slack() {
    let n = SlackNotifier::new("https://hooks.example/x".into());
    assert_eq!(n.name(), "slack");
    assert_eq!(n.webhook_url(), "https://hooks.example/x");
}

#[test]
fn format_episode_includes_show_season_episode_and_providers() {
    let event = NotificationEvent::EpisodeAiringToday {
        show_name: "The Bear".into(),
        season: 3,
        episode: 5,
        title: "Children".into(),
        where_to_watch: vec!["Hulu".into(), "FX".into()],
    };
    let s = SlackNotifier::format(&event);
    assert!(s.contains("The Bear"));
    assert!(s.contains("S03E05"));
    assert!(s.contains("Children"));
    assert!(s.contains("Hulu"));
    assert!(s.contains("FX"));
}

#[test]
fn format_episode_omits_providers_segment_when_empty() {
    let event = NotificationEvent::EpisodeAiringToday {
        show_name: "X".into(),
        season: 1,
        episode: 1,
        title: "Pilot".into(),
        where_to_watch: vec![],
    };
    let s = SlackNotifier::format(&event);
    assert!(!s.contains("available on"));
}

#[test]
fn format_test_event() {
    let s = SlackNotifier::format(&NotificationEvent::Test {
        message: "hi".into(),
    });
    assert!(s.contains("test"));
    assert!(s.contains("hi"));
}

#[test]
fn format_renders_the_exact_message() {
    let event = NotificationEvent::EpisodeAiringToday {
        show_name: "The Bear".into(),
        season: 3,
        episode: 12,
        title: "Children".into(),
        where_to_watch: vec!["Hulu".into(), "FX".into()],
    };
    assert_eq!(
        SlackNotifier::format(&event),
        "\u{1F4FA} *The Bear* \u{2014} S03E12 \"Children\" airs today \u{2014} available on Hulu, FX"
    );
    assert_eq!(
        SlackNotifier::format(&NotificationEvent::Test { message: "ping".into() }),
        "\u{1F514} Showrunner test: ping"
    );
}

const EVIL_SHOW_NAME: &str =
    "Severance <https://evil.example/slack-oauth|Click here to re-authorize Showrunner>";
const EVIL_PROVIDER: &str = "<https://evil.example/pay|Netflix \u{2014} billing update required>";

fn episode_event(show_name: &str, title: &str, providers: Vec<String>) -> NotificationEvent {
    NotificationEvent::EpisodeAiringToday {
        show_name: show_name.into(),
        season: 2,
        episode: 1,
        title: title.into(),
        where_to_watch: providers,
    }
}

#[test]
fn show_name_cannot_inject_a_slack_link() {
    let text = SlackNotifier::format(&episode_event(EVIL_SHOW_NAME, "Hello, Ms. Cobel", vec![]));
    assert!(
        !text.contains("<https://evil.example/slack-oauth|"),
        "attacker-controlled show name rendered as a live mrkdwn link: {text}"
    );
    assert!(text.contains("Severance"));
}

#[test]
fn episode_title_cannot_inject_a_slack_link() {
    let text = SlackNotifier::format(&episode_event(
        "Severance",
        "<https://evil.example/x|Click me>",
        vec![],
    ));
    assert!(
        !text.contains("<https://evil.example/x|"),
        "attacker-controlled episode title rendered as a live mrkdwn link: {text}"
    );
}

#[test]
fn provider_name_cannot_inject_a_slack_link() {
    let text = SlackNotifier::format(&episode_event(
        "Severance",
        "Hello, Ms. Cobel",
        vec![EVIL_PROVIDER.to_string()],
    ));
    assert!(
        !text.contains("<https://evil.example/pay|"),
        "attacker-controlled provider name rendered as a live mrkdwn link: {text}"
    );
}

#[test]
fn show_name_cannot_break_out_of_the_bold_span() {
    let text = SlackNotifier::format(&episode_event(
        "Real* _totally legit_ *Show",
        "Pilot",
        vec![],
    ));
    assert_eq!(
        text.matches('*').count(),
        2,
        "attacker-controlled name introduced extra mrkdwn formatting: {text}"
    );
}

#[test]
fn ampersand_is_html_escaped_per_slack_rules() {
    let text = SlackNotifier::format(&episode_event("Rick & Morty", "Pilot", vec![]));
    assert!(
        text.contains("Rick &amp; Morty"),
        "bare ampersand was not escaped per Slack's rules: {text}"
    );
}

#[test]
fn test_event_message_is_also_escaped() {
    let text = SlackNotifier::format(&NotificationEvent::Test {
        message: "<https://evil.example|hi>".into(),
    });
    assert!(!text.contains("<https://evil.example|"));
}

#[test]
fn escape_mrkdwn_leaves_ordinary_text_alone() {
    assert_eq!(escape_mrkdwn("The Bear \u{2014} Children"), "The Bear \u{2014} Children");
}

#[test]
fn escape_mrkdwn_replaces_every_markup_character() {
    assert_eq!(
        escape_mrkdwn("a&b<c>d*e_f~g`h"),
        "a&amp;b&lt;c&gt;d\u{2217}e\u{2017}f\u{223C}g\u{2018}h"
    );
}

#[test]
fn season_and_episode_are_zero_padded() {
    let text = SlackNotifier::format(&NotificationEvent::EpisodeAiringToday {
        show_name: "X".into(),
        season: 0,
        episode: 100,
        title: "".into(),
        where_to_watch: vec![],
    });
    assert!(text.contains("S00E100"));
}

#[test]
fn webhook_failure_names_the_status() {
    assert!(check_webhook_status(200).is_ok());
    match check_webhook_status(500) {
        Err(AppError::Upstream(m)) => {
            assert_eq!(m, "Slack webhook returned 500 Internal Server Error")
        }
        other => panic!("unexpected {other:?}"),
    }
}
