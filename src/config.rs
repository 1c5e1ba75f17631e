use vstd::prelude::*;

verus! {

/// Where the secrets are listed from.
#[derive(Clone, Debug)]
pub struct GitHubConfig {
    pub organization: Option<String>,
    pub token: String,
}

/// The rotation policy that every secret is held to.
#[derive(Clone, Debug)]
pub struct ObserverConfig {
    /// Days a secret stays valid after its last update, unless its name says
    /// otherwise.
    pub default_rotation_days: i64,
    /// Width, in days, of the window before expiry in which a secret is
    /// reported as expiring soon.
    pub expiration_notice_days: i64,
    /// A regular expression; secrets whose names it matches are ignored.
    pub ignore_pattern: Option<String>,
    /// Names of secrets that are ignored.
    pub ignore_secrets: Option<Vec<String>>,
}

/// Which channel reports the verdicts, with its parameters.
#[derive(Clone, Debug)]
pub struct NotifierConfig {
    pub notifier_type: NotifierType,
    pub slack_webhook: Option<String>,
}

/// The reporting channels.
#[derive(Clone, Copy, Debug, PartialEq, Eq, Structural)]
pub enum NotifierType {
    /// A JSON message posted to a webhook.
    Slack,
    /// Annotation lines on standard output for a CI system.
    GitHub,
    /// The process's log.
    Log,
}

impl Default for NotifierType {
    fn default() -> (r: NotifierType)
        ensures
            r == NotifierType::Log,
    {
        NotifierType::Log
    }
}

/// Everything one audit run needs.
#[derive(Clone, Debug)]
pub struct Configuration {
    pub github: GitHubConfig,
    pub observer: ObserverConfig,
    pub notifier: NotifierConfig,
}

} // verus!
