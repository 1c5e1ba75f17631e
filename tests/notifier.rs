use secret_observer::config::{NotifierConfig, NotifierType};
use secret_observer::error::{ConfigError, NotificationError};
use secret_observer::github_api::{GitHubAPIRepository, GitHubAPISecret};
use secret_observer::notifier::{
    frame_webhook_body, render_message, webhook_outcome, Delivery, GitHubNotifier, LogLevel,
    LogNotifier, NotifiactionService, Notifier, SlackNotifier,
};
use secret_observer::text::push_decimal;
use secret_observer::validator::{ValidatorResult, ValidatorState};

fn repo() -> GitHubAPIRepository {
    GitHubAPIRepository { id: 7, name: String::from("svc"), full_name: String::from("acme/svc") }
}

fn secret(name: &str) -> GitHubAPISecret {
    GitHubAPISecret { name: String::from(name), created_at: 0, updated_at: 0 }
}

fn result(state: ValidatorState, days_left: i64, days_overdue: i64) -> ValidatorResult {
    ValidatorResult { state, days_left, days_overdue }
}

#[test]
fn message_names_state_secret_repository_and_days() {
    let msg = render_message(&result(ValidatorState::Expired, 0, 12), &secret("API_KEY"), &repo());
    assert_eq!(
        msg,
        "[state=Expired, name=API_KEY, repository=acme/svc, days_left=0, days_overdue=12] Secret is expired."
    );
    let soon = render_message(&result(ValidatorState::ExpiresSoon, 3, 0), &secret("K"), &repo());
    assert_eq!(
        soon,
        "[state=ExpiresSoon, name=K, repository=acme/svc, days_left=3, days_overdue=0] Secret expires soon."
    );
    let fine = render_message(&result(ValidatorState::NotExpired, 120, 0), &secret("K"), &repo());
    assert!(fine.ends_with("days_left=120, days_overdue=0] Secret is not expired."));
    let ign = render_message(&result(ValidatorState::Ignored, 0, 0), &secret("K"), &repo());
    assert!(ign.starts_with("[state=Ignored, "));
    assert!(ign.ends_with("Secret is ignored."));
}

#[test]
fn decimal_rendering() {
    for (n, text) in [(0i64, "0"), (7, "7"), (10, "10"), (9999, "9999"), (-42, "-42"),
        (i64::MAX, "9223372036854775807"), (i64::MIN, "-9223372036854775808")] {
        let mut s = String::from("x");
        push_decimal(&mut s, n);
        assert_eq!(s, format!("x{}", text));
    }
}

#[test]
fn log_channel_levels_follow_state() {
    let n = LogNotifier::new();
    let cases = [
        (ValidatorState::Expired, LogLevel::Error),
        (ValidatorState::ExpiresSoon, LogLevel::Warn),
        (ValidatorState::NotExpired, LogLevel::Info),
        (ValidatorState::Ignored, LogLevel::Info),
    ];
    for (state, level) in cases {
        match n.send_msg("m", &state) {
            Delivery::Log { level: l, message } => {
                assert_eq!(l, level);
                assert_eq!(message, "m");
            }
            other => panic!("unexpected {:?}", other),
        }
    }
}

#[test]
fn annotation_channel_prefixes() {
    let n = GitHubNotifier::new();
    let cases = [
        (ValidatorState::Expired, "::error::m"),
        (ValidatorState::ExpiresSoon, "::warn::m"),
        (ValidatorState::Ignored, "::info::m"),
        (ValidatorState::NotExpired, "m"),
    ];
    for (state, line) in cases {
        match n.send_msg("m", &state) {
            Delivery::Print { line: l } => assert_eq!(l, line),
            other => panic!("unexpected {:?}", other),
        }
    }
}

#[test]
fn webhook_channel_posts_json_text() {
    let n = SlackNotifier::new(String::from("https://hooks.example/x"));
    match n.send_msg("say \"hi\"\n", &ValidatorState::Expired) {
        Delivery::Post { url, body } => {
            assert_eq!(url, "https://hooks.example/x");
            assert_eq!(body, "{\"text\":\"say \\\"hi\\\"\\n\"}");
        }
        other => panic!("unexpected {:?}", other),
    }
    assert_eq!(SlackNotifier::webhook_body("abc"), "{\"text\":\"abc\"}");
    assert_eq!(SlackNotifier::webhook_body(""), "{\"text\":\"\"}");
    assert_eq!(frame_webhook_body("\"q\""), "{\"text\":\"q\"}");
}

#[test]
fn webhook_status_decides_delivery() {
    assert_eq!(webhook_outcome(200), Ok(()));
    assert_eq!(webhook_outcome(204), Ok(()));
    assert_eq!(webhook_outcome(299), Ok(()));
    assert_eq!(webhook_outcome(199), Err(NotificationError::Status(199)));
    assert_eq!(webhook_outcome(300), Err(NotificationError::Status(300)));
    assert_eq!(webhook_outcome(500), Err(NotificationError::Status(500)));
}

#[test]
fn webhook_channel_needs_a_url() {
    let missing = Notifier::new(NotifierConfig { notifier_type: NotifierType::Slack, slack_webhook: None });
    assert_eq!(missing.err(), Some(ConfigError::MissingWebhookUrl));
    assert!(Notifier::new(NotifierConfig { notifier_type: NotifierType::Log, slack_webhook: None }).is_ok());
    assert!(Notifier::new(NotifierConfig { notifier_type: NotifierType::GitHub, slack_webhook: None }).is_ok());
    assert_eq!(NotifierType::default(), NotifierType::Log);
}

#[test]
fn notifier_renders_and_routes() {
    let n = Notifier::new(NotifierConfig {
        notifier_type: NotifierType::GitHub,
        slack_webhook: Some(String::from("ignored")),
    })
    .unwrap();
    match n.notify(&result(ValidatorState::Expired, 0, 1), &secret("TEST_SECRET"), &repo()) {
        Delivery::Print { line } => assert_eq!(
            line,
            "::error::[state=Expired, name=TEST_SECRET, repository=acme/svc, days_left=0, days_overdue=1] Secret is expired."
        ),
        other => panic!("unexpected {:?}", other),
    }
    let w = Notifier::new(NotifierConfig {
        notifier_type: NotifierType::Slack,
        slack_webhook: Some(String::from("https://hooks.example/y")),
    })
    .unwrap();
    match w.notify(&result(ValidatorState::NotExpired, 5, 0), &secret("S"), &repo()) {
        Delivery::Post { url, body } => {
            assert_eq!(url, "https://hooks.example/y");
            assert_eq!(
                body,
                "{\"text\":\"[state=NotExpired, name=S, repository=acme/svc, days_left=5, days_overdue=0] Secret is not expired.\"}"
            );
        }
        other => panic!("unexpected {:?}", other),
    }
}

#[test]
fn webhook_delivery_does_not_depend_on_state() {
    let n = SlackNotifier::new(String::from("https://hooks.example/z"));
    let states = [
        ValidatorState::Expired,
        ValidatorState::ExpiresSoon,
        ValidatorState::NotExpired,
        ValidatorState::Ignored,
    ];
    for state in states {
        match n.send_msg("tab\there", &state) {
            Delivery::Post { url, body } => {
                assert_eq!(url, "https://hooks.example/z");
                assert_eq!(body, "{\"text\":\"tab\\there\"}");
            }
            other => panic!("unexpected {:?}", other),
        }
    }
}
