use vstd::prelude::*;

use crate::config::{Configuration, NotifierType};
use crate::error::{ConfigError, ObserverError};
use crate::github_api::{repositories_url, secrets_url, GitHubAPI, GitHubAPIRepository, GitHubAPISecret};
use crate::notifier::{channel_delivery, message_text, Delivery, Notifier};
use crate::validator::{age_days, classification, policy_valid, Validator};

verus! {

/// Where a run stands.
#[derive(Clone, Copy, Debug, PartialEq, Eq, Structural)]
pub enum Phase {
    /// Not started.
    Idle,
    /// Waiting for the organization's repositories.
    AwaitRepositories,
    /// Waiting for the secrets of the repository taken last.
    AwaitSecrets,
    /// Waiting for a notification to be delivered.
    AwaitDelivery,
    /// Finished or stopped; nothing more happens.
    Done,
}

/// What the outside world reports back to a run.
pub enum Event {
    /// Begin the run.
    Start,
    /// The organization's repositories, in the order listed.
    Repositories(Vec<GitHubAPIRepository>),
    /// The secrets of the repository asked for, in the order listed.
    Secrets(Vec<GitHubAPISecret>),
    /// The last delivery went through.
    Delivered,
    /// The last request or delivery failed.
    Failure(ObserverError),
}

/// What a run asks the outside world to do next.
#[derive(Debug)]
pub enum Step {
    /// Fetch the repository list at `url`.
    ListRepositories { url: String },
    /// Fetch the secret list of the repository `full_name` at `url`.
    ListSecrets { full_name: String, url: String },
    /// Deliver the notification on the secret called `secret`.
    Deliver { secret: String, delivery: Delivery },
    /// Every secret has been reported.
    Finished,
    /// The run stopped on this error.
    Failed(ObserverError),
}

/// Drives an audit: lists repositories and their secrets, classifies each
/// secret and reports it, in order, and stops at the first failure.
pub struct Observer {
    organization: Option<String>,
    validator: Validator,
    notifier: Notifier,
    github_api: GitHubAPI,
    repositories: Vec<GitHubAPIRepository>,
    next_repository: usize,
    secrets: Vec<GitHubAPISecret>,
    next_secret: usize,
    phase: Phase,
}

/// The work that comes next for a run holding `repositories`, of which
/// `next_repository` have been taken, and the `secrets` of the last one
/// taken, of which `next_secret` have been reported.
pub enum Pending {
    Secret(GitHubAPIRepository, GitHubAPISecret),
    Repository(GitHubAPIRepository),
    Nothing,
}

/// The work that comes next: the next secret of the repository taken last,
/// else the next repository, else nothing.
pub open spec fn pending(
    repositories: Seq<GitHubAPIRepository>,
    next_repository: int,
    secrets: Seq<GitHubAPISecret>,
    next_secret: int,
) -> Pending {
    if next_secret < secrets.len() {
        Pending::Secret(repositories[next_repository - 1], secrets[next_secret])
    } else if next_repository < repositories.len() {
        Pending::Repository(repositories[next_repository])
    } else {
        Pending::Nothing
    }
}

/// `r` reports `secret` of `repo`, classified at time `now`, through the
/// notifier of `obs`: the delivery that the channel calls for.
pub open spec fn reports(
    obs: &Observer,
    repo: GitHubAPIRepository,
    secret: GitHubAPISecret,
    now: i64,
    r: &Step,
) -> bool {
    let result = classification(
        obs.validator().policy(),
        secret.name@,
        age_days(now as int, secret.updated_at as int),
    );
    &&& r is Deliver
    &&& r->Deliver_secret@ == secret.name@
    &&& r->Deliver_delivery@ == channel_delivery(
        obs.notifier().kind(),
        obs.notifier().webhook(),
        message_text(result, secret.name@, repo.full_name@),
        result.state,
    )
}

/// `after` and `r` are what a run with the settings of `obs` comes to when it
/// takes the work that is next for `repositories`, `next_repository`,
/// `secrets` and `next_secret` (see `pending`) at time `now`.
pub open spec fn takes_next(
    obs: &Observer,
    repositories: Seq<GitHubAPIRepository>,
    next_repository: int,
    secrets: Seq<GitHubAPISecret>,
    next_secret: int,
    after: &Observer,
    r: &Step,
    now: i64,
) -> bool {
    &&& after.repositories() == repositories
    &&& match pending(repositories, next_repository, secrets, next_secret) {
        Pending::Secret(repo, secret) => {
            &&& after.next_repository() == next_repository
            &&& after.secrets() == secrets
            &&& after.next_secret() == next_secret + 1
            &&& reports(obs, repo, secret, now, r)
            &&& after.phase() == Phase::AwaitDelivery
        },
        Pending::Repository(repo) => {
            &&& after.next_repository() == next_repository + 1
            &&& after.secrets() == Seq::<GitHubAPISecret>::empty()
            &&& after.next_secret() == 0
            &&& r matches Step::ListSecrets { full_name, url }
            &&& r->ListSecrets_full_name@ == repo.full_name@
            &&& r->ListSecrets_url@ == secrets_url(obs.api().base_url(), repo.full_name@)
            &&& after.phase() == Phase::AwaitSecrets
        },
        Pending::Nothing => r is Finished && after.phase() == Phase::Done,
    }
}

impl Observer {
    #[verifier::type_invariant]
    spec fn wf(self) -> bool {
        &&& self.next_repository <= self.repositories@.len()
        &&& self.next_secret <= self.secrets@.len()
        &&& self.secrets@.len() > 0 ==> self.next_repository >= 1
        &&& self.phase == Phase::AwaitSecrets ==> self.next_repository >= 1
    }

    pub closed spec fn organization(&self) -> Option<Seq<char>> {
        match self.organization {
            Some(o) => Some(o@),
            None => None,
        }
    }

    pub closed spec fn validator(&self) -> Validator {
        self.validator
    }

    pub closed spec fn notifier(&self) -> Notifier {
        self.notifier
    }

    pub closed spec fn api(&self) -> GitHubAPI {
        self.github_api
    }

    /// The API client the run lists repositories and secrets with.
    pub fn github_api(&self) -> (r: &GitHubAPI)
        ensures
            *r == self.api(),
    {
        &self.github_api
    }

    pub closed spec fn phase(&self) -> Phase {
        self.phase
    }

    pub closed spec fn repositories(&self) -> Seq<GitHubAPIRepository> {
        self.repositories@
    }

    pub closed spec fn next_repository(&self) -> int {
        self.next_repository as int
    }

    pub closed spec fn secrets(&self) -> Seq<GitHubAPISecret> {
        self.secrets@
    }

    pub closed spec fn next_secret(&self) -> int {
        self.next_secret as int
    }

    /// The settings a run keeps from start to end.
    pub open spec fn same_settings(&self, other: &Observer) -> bool {
        &&& self.organization() == other.organization()
        &&& self.validator() == other.validator()
        &&& self.notifier() == other.notifier()
        &&& self.api() == other.api()
    }

    /// An observer for `config`, not yet started. Fails on an ignore pattern
    /// that does not compile, or on the webhook channel without a URL.
    pub fn new(config: Configuration) -> (r: Result<Observer, ObserverError>)
        requires
            config.observer.default_rotation_days > 0,
            config.observer.expiration_notice_days >= 0,
        ensures
            r is Ok <==> policy_valid(config.observer) && !(config.notifier.notifier_type
                == NotifierType::Slack && config.notifier.slack_webhook is None),
            r matches Err(e) ==> e is Configuration,
            r matches Ok(o) ==> {
                &&& o.phase() == Phase::Idle
                &&& o.validator().policy() == config.observer
                &&& o.notifier().kind() == config.notifier.notifier_type
                &&& o.api().token() == config.github.token@
                &&& o.organization() == match config.github.organization {
                    Some(s) => Some(s@),
                    None => None::<Seq<char>>,
                }
            },
    {
        let validator = match Validator::new(config.observer) {
            Ok(v) => v,
            Err(e) => {
                return Err(ObserverError::Configuration(e));
            },
        };
        let notifier = match Notifier::new(config.notifier) {
            Ok(n) => n,
            Err(e) => {
                return Err(ObserverError::Configuration(e));
            },
        };
        let github_api = match GitHubAPI::new(None, Some(config.github.token)) {
            Ok(a) => a,
            Err(e) => {
                return Err(ObserverError::Configuration(e));
            },
        };
        Ok(
            Observer {
                organization: config.github.organization,
                validator,
                notifier,
                github_api,
                repositories: Vec::new(),
                next_repository: 0,
                secrets: Vec::new(),
                next_secret: 0,
                phase: Phase::Idle,
            },
        )
    }

    fn take_next(&mut self, now: i64) -> (r: Step)
        ensures
            final(self).same_settings(old(self)),
            takes_next(
                old(self),
                old(self).repositories(),
                old(self).next_repository(),
                old(self).secrets(),
                old(self).next_secret(),
                final(self),
                &r,
                now,
            ),
    {
        proof {
            use_type_invariant(&*self);
        }
        if self.next_secret < self.secrets.len() {
            let (name, delivery) = {
                let secret = &self.secrets[self.next_secret];
                let repo = &self.repositories[self.next_repository - 1];
                let result = self.validator.classify(secret, now);
                (secret.name.clone(), self.notifier.notify(&result, secret, repo))
            };
            self.next_secret = self.next_secret + 1;
            self.phase = Phase::AwaitDelivery;
            Step::Deliver { secret: name, delivery }
        } else if self.next_repository < self.repositories.len() {
            let (full_name, url) = {
                let repo = &self.repositories[self.next_repository];
                (repo.full_name.clone(), self.github_api.get_secrets_url(repo))
            };
            self.next_repository = self.next_repository + 1;
            self.next_secret = 0;
            self.secrets = Vec::new();
            self.phase = Phase::AwaitSecrets;
            Step::ListSecrets { full_name, url }
        } else {
            self.phase = Phase::Done;
            Step::Finished
        }
    }

    /// Moves the run on by one `event`, at time `now` (seconds since the
    /// epoch), and says what is to be done next. Each secret is classified
    /// and reported in the order listed, each repository's secrets in the
    /// order the repositories were listed; any failure ends the run.
    pub fn advance(&mut self, event: Event, now: i64) -> (r: Step)
        ensures
            final(self).same_settings(old(self)),
            old(self).phase() == Phase::Done ==> (r matches Step::Failed(ObserverError::OutOfOrder)
                && final(self).phase() == Phase::Done),
            old(self).phase() != Phase::Done && event is Failure ==> (r matches Step::Failed(e) && e
                == event->Failure_0 && final(self).phase() == Phase::Done),
            old(self).phase() == Phase::Idle && event is Start ==> match old(self).organization() {
                None => r matches Step::Failed(ObserverError::Configuration(
                    ConfigError::MissingOrganization,
                )) && final(self).phase() == Phase::Done,
                Some(o) => r matches Step::ListRepositories { url } && r->ListRepositories_url@
                    == repositories_url(old(self).api().base_url(), o) && final(self).phase()
                    == Phase::AwaitRepositories,
            },
            old(self).phase() == Phase::AwaitRepositories && event is Repositories ==> takes_next(
                old(self),
                event->Repositories_0@,
                0,
                Seq::empty(),
                0,
                final(self),
                &r,
                now,
            ),
            old(self).phase() == Phase::AwaitSecrets && event is Secrets ==> takes_next(
                old(self),
                old(self).repositories(),
                old(self).next_repository(),
                event->Secrets_0@,
                0,
                final(self),
                &r,
                now,
            ),
            old(self).phase() == Phase::AwaitDelivery && event is Delivered ==> takes_next(
                old(self),
                old(self).repositories(),
                old(self).next_repository(),
                old(self).secrets(),
                old(self).next_secret(),
                final(self),
                &r,
                now,
            ),
            !(old(self).phase() == Phase::Done || event is Failure || (old(self).phase()
                == Phase::Idle && event is Start) || (old(self).phase() == Phase::AwaitRepositories
                && event is Repositories) || (old(self).phase() == Phase::AwaitSecrets
                && event is Secrets) || (old(self).phase() == Phase::AwaitDelivery
                && event is Delivered)) ==> (r matches Step::Failed(ObserverError::OutOfOrder)
                && final(self).phase() == Phase::Done),
    {
        proof {
            use_type_invariant(&*self);
        }
        if self.phase == Phase::Done {
            return Step::Failed(ObserverError::OutOfOrder);
        }
        match event {
            Event::Failure(e) => {
                self.phase = Phase::Done;
                Step::Failed(e)
            },
            Event::Start => {
                if self.phase != Phase::Idle {
                    self.phase = Phase::Done;
                    return Step::Failed(ObserverError::OutOfOrder);
                }
                match &self.organization {
                    None => {
                        self.phase = Phase::Done;
                        Step::Failed(ObserverError::Configuration(ConfigError::MissingOrganization))
                    },
                    Some(o) => {
                        let url = self.github_api.get_repositories_url(o.as_str());
                        self.phase = Phase::AwaitRepositories;
                        Step::ListRepositories { url }
                    },
                }
            },
            Event::Repositories(rs) => {
                if self.phase != Phase::AwaitRepositories {
                    self.phase = Phase::Done;
                    return Step::Failed(ObserverError::OutOfOrder);
                }
                self.next_secret = 0;
                self.secrets = Vec::new();
                self.next_repository = 0;
                self.repositories = rs;
                self.take_next(now)
            },
            Event::Secrets(ss) => {
                if self.phase != Phase::AwaitSecrets {
                    self.phase = Phase::Done;
                    return Step::Failed(ObserverError::OutOfOrder);
                }
                self.next_secret = 0;
                self.secrets = ss;
                self.take_next(now)
            },
            Event::Delivered => {
                if self.phase != Phase::AwaitDelivery {
                    self.phase = Phase::Done;
                    return Step::Failed(ObserverError::OutOfOrder);
                }
                self.take_next(now)
            },
        }
    }
}

} // verus!
