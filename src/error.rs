use vstd::prelude::*;

verus! {

/// A setting that makes a run impossible; found before any network call.
#[derive(Clone, Debug, PartialEq, Eq)]
pub enum ConfigError {
    /// No organization was given.
    MissingOrganization,
    /// No API token was given.
    MissingToken,
    /// The webhook channel was chosen without a URL.
    MissingWebhookUrl,
    /// The ignore pattern is not a valid regular expression; holds the
    /// compiler's message.
    InvalidIgnorePattern(String),
}

/// Why a run stopped.
#[derive(Clone, Debug, PartialEq, Eq)]
pub enum ObserverError {
    Configuration(ConfigError),
    /// Listing repositories or secrets failed: the HTTP status, if a response
    /// came, and the provider's or the transport's message.
    Collaborator { status: Option<u16>, message: String },
    /// A notification could not be delivered.
    Notification(NotificationError),
    /// An event came that the run was not waiting for.
    OutOfOrder,
}

/// Why a notification was not delivered.
#[derive(Clone, Debug, PartialEq, Eq)]
pub enum NotificationError {
    /// The webhook answered with a status outside 200 to 299.
    Status(u16),
    /// The request did not complete; holds the transport's message.
    Transport(String),
}

} // verus!
