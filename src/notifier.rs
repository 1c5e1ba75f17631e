use vstd::prelude::*;

use crate::config::{NotifierConfig, NotifierType};
use crate::error::{ConfigError, NotificationError};
use crate::github_api::{GitHubAPIRepository, GitHubAPISecret};
use crate::text::{decimal, push_decimal};
use crate::validator::{ValidatorResult, ValidatorState};

verus! {

/// The JSON string literal, quotes and escapes included, that encodes `s`.
pub uninterp spec fn json_string(s: Seq<char>) -> Seq<char>;

/// Relies on serde_json::to_string, applied to a string slice: the JSON
/// string literal that encodes `s`. Serializing a string only writes into an
/// in-memory buffer, so the call always succeeds.
#[verifier::external_body]
fn encode_json_string(s: &str) -> (r: Option<String>)
    ensures
        r is Some,
        r matches Some(e) ==> e@ == json_string(s@),
{
    serde_json::to_string(s).ok()
}

/// Severity of a log record.
#[derive(Clone, Copy, Debug, PartialEq, Eq, Structural)]
pub enum LogLevel {
    Error,
    Warn,
    Info,
}

/// One message to deliver, and how.
#[derive(Clone, Debug)]
pub enum Delivery {
    /// A record in the process's log.
    Log { level: LogLevel, message: String },
    /// A line on standard output.
    Print { line: String },
    /// An HTTP POST of a JSON body.
    Post { url: String, body: String },
}

/// What a delivery is, as plain values.
pub ghost enum DeliveryView {
    Log { level: LogLevel, message: Seq<char> },
    Print { line: Seq<char> },
    Post { url: Seq<char>, body: Seq<char> },
}

impl View for Delivery {
    type V = DeliveryView;

    open spec fn view(&self) -> DeliveryView {
        match self {
            Delivery::Log { level, message } => DeliveryView::Log { level: *level, message: message@ },
            Delivery::Print { line } => DeliveryView::Print { line: line@ },
            Delivery::Post { url, body } => DeliveryView::Post { url: url@, body: body@ },
        }
    }
}

/// The name of a state, as the message shows it.
pub open spec fn state_name(state: ValidatorState) -> Seq<char> {
    match state {
        ValidatorState::Expired => "Expired"@,
        ValidatorState::NotExpired => "NotExpired"@,
        ValidatorState::Ignored => "Ignored"@,
        ValidatorState::ExpiresSoon => "ExpiresSoon"@,
    }
}

/// The sentence that closes a message.
pub open spec fn qualifier(state: ValidatorState) -> Seq<char> {
    match state {
        ValidatorState::Expired => "Secret is expired."@,
        ValidatorState::NotExpired => "Secret is not expired."@,
        ValidatorState::Ignored => "Secret is ignored."@,
        ValidatorState::ExpiresSoon => "Secret expires soon."@,
    }
}

/// The message that reports `result` on the secret `name` of the repository
/// `repository`.
pub open spec fn message_text(result: ValidatorResult, name: Seq<char>, repository: Seq<char>) -> Seq<
    char,
> {
    "[state="@ + state_name(result.state) + ", name="@ + name + ", repository="@ + repository
        + ", days_left="@ + decimal(result.days_left as int) + ", days_overdue="@ + decimal(
        result.days_overdue as int,
    ) + "] "@ + qualifier(result.state)
}

/// The log severity for a state.
pub open spec fn log_level_for(state: ValidatorState) -> LogLevel {
    match state {
        ValidatorState::Expired => LogLevel::Error,
        ValidatorState::ExpiresSoon => LogLevel::Warn,
        _ => LogLevel::Info,
    }
}

/// The annotation line for a message in a state.
pub open spec fn annotation_line(msg: Seq<char>, state: ValidatorState) -> Seq<char> {
    match state {
        ValidatorState::Expired => "::error::"@ + msg,
        ValidatorState::ExpiresSoon => "::warn::"@ + msg,
        ValidatorState::Ignored => "::info::"@ + msg,
        ValidatorState::NotExpired => msg,
    }
}

/// The JSON object `{"text":...}` around an encoded string literal.
pub open spec fn webhook_body_text(encoded: Seq<char>) -> Seq<char> {
    "{\"text\":"@ + encoded + "}"@
}

fn state_name_str(state: ValidatorState) -> (r: &'static str)
    ensures
        r@ == state_name(state),
{
    match state {
        ValidatorState::Expired => "Expired",
        ValidatorState::NotExpired => "NotExpired",
        ValidatorState::Ignored => "Ignored",
        ValidatorState::ExpiresSoon => "ExpiresSoon",
    }
}

fn qualifier_str(state: ValidatorState) -> (r: &'static str)
    ensures
        r@ == qualifier(state),
{
    match state {
        ValidatorState::Expired => "Secret is expired.",
        ValidatorState::NotExpired => "Secret is not expired.",
        ValidatorState::Ignored => "Secret is ignored.",
        ValidatorState::ExpiresSoon => "Secret expires soon.",
    }
}

/// Renders the one-line message that reports `result` on `secret` of
/// `repository`.
pub fn render_message(
    result: &ValidatorResult,
    secret: &GitHubAPISecret,
    repository: &GitHubAPIRepository,
) -> (r: String)
    ensures
        r@ == message_text(*result, secret.name@, repository.full_name@),
{
    let mut msg = String::from_str("[state=");
    msg.append(state_name_str(result.state));
    msg.append(", name=");
    msg.append(secret.name.as_str());
    msg.append(", repository=");
    msg.append(repository.full_name.as_str());
    msg.append(", days_left=");
    push_decimal(&mut msg, result.days_left);
    msg.append(", days_overdue=");
    push_decimal(&mut msg, result.days_overdue);
    msg.append("] ");
    msg.append(qualifier_str(result.state));
    msg
}

/// Wraps an encoded JSON string literal as the body `{"text":...}`.
pub fn frame_webhook_body(encoded: &str) -> (r: String)
    ensures
        r@ == webhook_body_text(encoded@),
{
    let mut body = String::from_str("{\"text\":");
    body.append(encoded);
    body.append("}");
    body
}

/// The outcome of a webhook call that answered with `status`: delivered for
/// any status from 200 to 299.
pub fn webhook_outcome(status: u16) -> (r: Result<(), NotificationError>)
    ensures
        r is Ok <==> 200 <= status <= 299,
        r is Err ==> r == Err::<(), NotificationError>(NotificationError::Status(status)),
{
    if 200 <= status && status <= 299 {
        Ok(())
    } else {
        Err(NotificationError::Status(status))
    }
}

/// A channel that turns a rendered message into the delivery it calls for.
pub trait NotifiactionService {
    /// The delivery that reporting `msg`, for a verdict in `state`, calls for.
    spec fn planned(&self, msg: Seq<char>, state: ValidatorState) -> DeliveryView;

    /// Prepares the delivery of `msg`, reported for a verdict in
    /// `validator_state`.
    fn send_msg(&self, msg: &str, validator_state: &ValidatorState) -> (r: Delivery)
        ensures
            r@ == self.planned(msg@, *validator_state),
    ;
}

/// Reports into the process's log, at a severity that follows the state.
pub struct LogNotifier;

impl LogNotifier {
    pub fn new() -> (r: LogNotifier) {
        LogNotifier
    }
}

impl NotifiactionService for LogNotifier {
    open spec fn planned(&self, msg: Seq<char>, state: ValidatorState) -> DeliveryView {
        DeliveryView::Log { level: log_level_for(state), message: msg }
    }

    fn send_msg(&self, msg: &str, validator_state: &ValidatorState) -> (r: Delivery) {
        let level = match validator_state {
            ValidatorState::Expired => LogLevel::Error,
            ValidatorState::ExpiresSoon => LogLevel::Warn,
            ValidatorState::NotExpired => LogLevel::Info,
            ValidatorState::Ignored => LogLevel::Info,
        };
        Delivery::Log { level, message: String::from_str(msg) }
    }
}

/// Reports as annotation lines on standard output for a CI system.
pub struct GitHubNotifier;

impl GitHubNotifier {
    pub fn new() -> (r: GitHubNotifier) {
        GitHubNotifier
    }
}

impl NotifiactionService for GitHubNotifier {
    open spec fn planned(&self, msg: Seq<char>, state: ValidatorState) -> DeliveryView {
        DeliveryView::Print { line: annotation_line(msg, state) }
    }

    fn send_msg(&self, msg: &str, validator_state: &ValidatorState) -> (r: Delivery) {
        let line = match validator_state {
            ValidatorState::Expired => String::from_str("::error::").concat(msg),
            ValidatorState::ExpiresSoon => String::from_str("::warn::").concat(msg),
            ValidatorState::Ignored => String::from_str("::info::").concat(msg),
            ValidatorState::NotExpired => String::from_str(msg),
        };
        Delivery::Print { line }
    }
}

/// Posts each message as `{"text": ...}` to a webhook.
pub struct SlackNotifier {
    webhook_url: String,
}

impl SlackNotifier {
    pub fn new(webhook_url: String) -> (r: SlackNotifier)
        ensures
            r.url() == webhook_url@,
    {
        SlackNotifier { webhook_url }
    }

    /// The webhook that messages are posted to.
    pub closed spec fn url(&self) -> Seq<char> {
        self.webhook_url@
    }

    /// The JSON body that carries `msg`.
    pub fn webhook_body(msg: &str) -> (r: String)
        ensures
            r@ == webhook_body_text(json_string(msg@)),
    {
        match encode_json_string(msg) {
            Some(encoded) => frame_webhook_body(encoded.as_str()),
            None => {
                assert(false);
                String::new()
            },
        }
    }
}

impl NotifiactionService for SlackNotifier {
    open spec fn planned(&self, msg: Seq<char>, state: ValidatorState) -> DeliveryView {
        DeliveryView::Post { url: self.url(), body: webhook_body_text(json_string(msg)) }
    }

    fn send_msg(&self, msg: &str, validator_state: &ValidatorState) -> (r: Delivery) {
        let body = SlackNotifier::webhook_body(msg);
        Delivery::Post { url: self.webhook_url.clone(), body }
    }
}

/// The channel a notifier reports through.
pub enum Channel {
    Log(LogNotifier),
    GitHub(GitHubNotifier),
    Slack(SlackNotifier),
}

/// Reports verdicts through the one channel chosen when it was built.
pub struct Notifier {
    service: Channel,
}

/// The delivery that reporting `msg` through the channel chosen by `kind`,
/// with webhook `url`, calls for.
pub open spec fn channel_delivery(
    kind: NotifierType,
    url: Seq<char>,
    msg: Seq<char>,
    state: ValidatorState,
) -> DeliveryView {
    match kind {
        NotifierType::Log => DeliveryView::Log { level: log_level_for(state), message: msg },
        NotifierType::GitHub => DeliveryView::Print { line: annotation_line(msg, state) },
        NotifierType::Slack => DeliveryView::Post { url, body: webhook_body_text(json_string(msg)) },
    }
}

impl Notifier {
    /// The kind of channel chosen.
    pub closed spec fn kind(&self) -> NotifierType {
        match self.service {
            Channel::Log(_) => NotifierType::Log,
            Channel::GitHub(_) => NotifierType::GitHub,
            Channel::Slack(_) => NotifierType::Slack,
        }
    }

    /// The webhook URL, for the webhook channel.
    pub closed spec fn webhook(&self) -> Seq<char> {
        match self.service {
            Channel::Slack(s) => s.url(),
            _ => Seq::empty(),
        }
    }

    /// The notifier that `config` chooses; the webhook channel needs a URL.
    pub fn new(config: NotifierConfig) -> (r: Result<Notifier, ConfigError>)
        ensures
            r is Err <==> (config.notifier_type == NotifierType::Slack && config.slack_webhook is None),
            r matches Err(e) ==> e == ConfigError::MissingWebhookUrl,
            r matches Ok(n) ==> n.kind() == config.notifier_type,
            r matches Ok(n) ==> (config.notifier_type == NotifierType::Slack ==> n.webhook()
                == config.slack_webhook->0@),
    {
        let service = Notifier::get_notifier_service(config)?;
        Ok(Notifier { service })
    }

    fn get_notifier_service(config: NotifierConfig) -> (r: Result<Channel, ConfigError>)
        ensures
            r is Err <==> (config.notifier_type == NotifierType::Slack && config.slack_webhook is None),
            r matches Err(e) ==> e == ConfigError::MissingWebhookUrl,
            r matches Ok(c) ==> (Notifier { service: c }).kind() == config.notifier_type,
            r matches Ok(c) ==> (config.notifier_type == NotifierType::Slack ==> (Notifier {
                service: c,
            }).webhook() == config.slack_webhook->0@),
    {
        match config.notifier_type {
            NotifierType::Log => Ok(Channel::Log(LogNotifier::new())),
            NotifierType::GitHub => Ok(Channel::GitHub(GitHubNotifier::new())),
            NotifierType::Slack => match config.slack_webhook {
                Some(url) => Ok(Channel::Slack(SlackNotifier::new(url))),
                None => Err(ConfigError::MissingWebhookUrl),
            },
        }
    }

    /// Renders the report of `result` on `secret` of `repository` and prepares
    /// its delivery through the chosen channel.
    pub fn notify(
        &self,
        result: &ValidatorResult,
        secret: &GitHubAPISecret,
        repository: &GitHubAPIRepository,
    ) -> (r: Delivery)
        ensures
            r@ == channel_delivery(
                self.kind(),
                self.webhook(),
                message_text(*result, secret.name@, repository.full_name@),
                result.state,
            ),
    {
        let msg = render_message(result, secret, repository);
        match &self.service {
            Channel::Log(s) => s.send_msg(msg.as_str(), &result.state),
            Channel::GitHub(s) => s.send_msg(msg.as_str(), &result.state),
            Channel::Slack(s) => s.send_msg(msg.as_str(), &result.state),
        }
    }
}

} // verus!
