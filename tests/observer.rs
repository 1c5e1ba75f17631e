use secret_observer::config::{Configuration, GitHubConfig, NotifierConfig, NotifierType, ObserverConfig};
use secret_observer::error::{ConfigError, ObserverError};
use secret_observer::github_api::{GitHubAPI, GitHubAPIError, GitHubAPIRepository, GitHubAPISecret};
use secret_observer::notifier::{Delivery, LogLevel};
use secret_observer::observer::{Event, Observer, Step};

const DAY: i64 = 86400;
const NOW: i64 = 1_700_000_000;

fn configuration(organization: Option<&str>) -> Configuration {
    Configuration {
        github: GitHubConfig {
            organization: organization.map(String::from),
            token: String::from("SECRET-REDACTED"),
        },
        observer: ObserverConfig {
            default_rotation_days: 90,
            expiration_notice_days: 14,
            ignore_pattern: None,
            ignore_secrets: None,
        },
        notifier: NotifierConfig { notifier_type: NotifierType::Log, slack_webhook: None },
    }
}

fn repo(full_name: &str) -> GitHubAPIRepository {
    GitHubAPIRepository { id: 1, name: String::from("r"), full_name: String::from(full_name) }
}

fn secret(name: &str, days: i64) -> GitHubAPISecret {
    GitHubAPISecret { name: String::from(name), created_at: NOW - days * DAY, updated_at: NOW - days * DAY }
}

#[test]
fn run_walks_repositories_and_secrets_in_order() {
    let mut o = Observer::new(configuration(Some("acme"))).unwrap();
    match o.advance(Event::Start, NOW) {
        Step::ListRepositories { url } => assert_eq!(url, "https://api.github.com/orgs/acme/repos"),
        other => panic!("unexpected {:?}", other),
    }
    match o.advance(Event::Repositories(vec![repo("acme/a"), repo("acme/b")]), NOW) {
        Step::ListSecrets { full_name, url } => {
            assert_eq!(full_name, "acme/a");
            assert_eq!(url, "https://api.github.com/repos/acme/a/actions/secrets");
        }
        other => panic!("unexpected {:?}", other),
    }
    match o.advance(Event::Secrets(vec![secret("OLD", 91), secret("NEW", 1)]), NOW) {
        Step::Deliver { secret, delivery: Delivery::Log { level, message } } => {
            assert_eq!(secret, "OLD");
            assert_eq!(level, LogLevel::Error);
            assert_eq!(message, "[state=Expired, name=OLD, repository=acme/a, days_left=0, days_overdue=1] Secret is expired.");
        }
        other => panic!("unexpected {:?}", other),
    }
    match o.advance(Event::Delivered, NOW) {
        Step::Deliver { secret, delivery: Delivery::Log { level, message } } => {
            assert_eq!(secret, "NEW");
            assert_eq!(level, LogLevel::Info);
            assert!(message.starts_with("[state=NotExpired, name=NEW, repository=acme/a, days_left=89"));
        }
        other => panic!("unexpected {:?}", other),
    }
    match o.advance(Event::Delivered, NOW) {
        Step::ListSecrets { full_name, .. } => assert_eq!(full_name, "acme/b"),
        other => panic!("unexpected {:?}", other),
    }
    match o.advance(Event::Secrets(vec![]), NOW) {
        Step::Finished => {}
        other => panic!("unexpected {:?}", other),
    }
    match o.advance(Event::Delivered, NOW) {
        Step::Failed(ObserverError::OutOfOrder) => {}
        other => panic!("unexpected {:?}", other),
    }
}

#[test]
fn missing_organization_stops_before_any_request() {
    let mut o = Observer::new(configuration(None)).unwrap();
    match o.advance(Event::Start, NOW) {
        Step::Failed(ObserverError::Configuration(ConfigError::MissingOrganization)) => {}
        other => panic!("unexpected {:?}", other),
    }
}

#[test]
fn collaborator_failure_aborts_the_run() {
    let mut o = Observer::new(configuration(Some("acme"))).unwrap();
    o.advance(Event::Start, NOW);
    o.advance(Event::Repositories(vec![repo("acme/a"), repo("acme/b")]), NOW);
    let failure = ObserverError::Collaborator { status: Some(401), message: String::from("Bad credentials") };
    match o.advance(Event::Failure(failure.clone()), NOW) {
        Step::Failed(e) => assert_eq!(e, failure),
        other => panic!("unexpected {:?}", other),
    }
    match o.advance(Event::Secrets(vec![secret("X", 1)]), NOW) {
        Step::Failed(ObserverError::OutOfOrder) => {}
        other => panic!("unexpected {:?}", other),
    }
}

#[test]
fn empty_organization_finishes() {
    let mut o = Observer::new(configuration(Some("acme"))).unwrap();
    o.advance(Event::Start, NOW);
    match o.advance(Event::Repositories(vec![]), NOW) {
        Step::Finished => {}
        other => panic!("unexpected {:?}", other),
    }
}

#[test]
fn unexpected_event_is_out_of_order() {
    let mut o = Observer::new(configuration(Some("acme"))).unwrap();
    match o.advance(Event::Delivered, NOW) {
        Step::Failed(ObserverError::OutOfOrder) => {}
        other => panic!("unexpected {:?}", other),
    }
}

#[test]
fn observer_configuration_errors() {
    let mut bad_pattern = configuration(Some("acme"));
    bad_pattern.observer.ignore_pattern = Some(String::from("[unclosed"));
    assert!(matches!(
        Observer::new(bad_pattern),
        Err(ObserverError::Configuration(ConfigError::InvalidIgnorePattern(_)))
    ));
    let mut no_url = configuration(Some("acme"));
    no_url.notifier.notifier_type = NotifierType::Slack;
    assert!(matches!(
        Observer::new(no_url),
        Err(ObserverError::Configuration(ConfigError::MissingWebhookUrl))
    ));
}

#[test]
fn api_client_settings() {
    assert!(matches!(GitHubAPI::new(None, None), Err(ConfigError::MissingToken)));
    let api = GitHubAPI::new(Some(String::from("http://localhost:9")), Some(String::from("t0k"))).unwrap();
    assert_eq!(api.get_url("/x"), "http://localhost:9/x");
    assert_eq!(api.get_repositories_url("org"), "http://localhost:9/orgs/org/repos");
    assert_eq!(api.get_secrets_url(&repo("org/r")), "http://localhost:9/repos/org/r/actions/secrets");
    assert_eq!(api.authorization(), "Bearer t0k");
    let public = GitHubAPI::new(None, Some(String::from("t"))).unwrap();
    assert_eq!(public.get_url(""), "https://api.github.com");
}

#[test]
fn listing_status_check() {
    assert_eq!(GitHubAPI::check_status(200, None), Ok(()));
    assert_eq!(GitHubAPI::check_status(299, None), Ok(()));
    let body = GitHubAPIError { message: String::from("Not Found"), documentation_url: String::from("d") };
    assert_eq!(
        GitHubAPI::check_status(404, Some(body)),
        Err(ObserverError::Collaborator { status: Some(404), message: String::from("Not Found") })
    );
    assert_eq!(
        GitHubAPI::check_status(500, None),
        Err(ObserverError::Collaborator { status: Some(500), message: String::new() })
    );
}

#[test]
fn webhook_run_posts_each_secret() {
    let mut config = configuration(Some("acme"));
    config.notifier = NotifierConfig {
        notifier_type: NotifierType::Slack,
        slack_webhook: Some(String::from("https://hooks.example/w")),
    };
    let mut o = Observer::new(config).unwrap();
    assert_eq!(o.github_api().get_url(""), "https://api.github.com");
    o.advance(Event::Start, NOW);
    o.advance(Event::Repositories(vec![repo("acme/a")]), NOW);
    match o.advance(Event::Secrets(vec![secret("K", 100)]), NOW) {
        Step::Deliver { secret, delivery: Delivery::Post { url, body } } => {
            assert_eq!(secret, "K");
            assert_eq!(url, "https://hooks.example/w");
            assert_eq!(
                body,
                "{\"text\":\"[state=Expired, name=K, repository=acme/a, days_left=0, days_overdue=10] Secret is expired.\"}"
            );
        }
        other => panic!("unexpected {:?}", other),
    }
    let failure = ObserverError::Notification(secret_observer::error::NotificationError::Status(500));
    match o.advance(Event::Failure(failure.clone()), NOW) {
        Step::Failed(e) => assert_eq!(e, failure),
        other => panic!("unexpected {:?}", other),
    }
}
