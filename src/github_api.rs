use vstd::prelude::*;

use crate::error::{ConfigError, ObserverError};

verus! {

/// The error body that the API sends with an unsuccessful status.
#[derive(Clone, Debug)]
pub struct GitHubAPIError {
    pub message: String,
    pub documentation_url: String,
}

/// A repository of the organization.
#[derive(Clone, Debug)]
pub struct GitHubAPIRepository {
    pub id: u64,
    pub name: String,
    /// The organization-qualified name, `org/repo`.
    pub full_name: String,
}

/// A secret stored against a repository. Times are whole seconds since the
/// Unix epoch, UTC.
#[derive(Clone, Debug)]
pub struct GitHubAPISecret {
    pub name: String,
    pub created_at: i64,
    pub updated_at: i64,
}

/// The secrets of one repository.
#[derive(Clone, Debug)]
pub struct GitHubAPISecrets {
    pub total_count: u64,
    pub secrets: Vec<GitHubAPISecret>,
}

/// Where requests go and how they are authorized.
pub struct GitHubAPI {
    url: String,
    token: String,
}

/// The API's address when none is given.
pub open spec fn default_api_url() -> Seq<char> {
    "https://api.github.com"@
}

/// The URL that lists the repositories of `organization`.
pub open spec fn repositories_url(base: Seq<char>, organization: Seq<char>) -> Seq<char> {
    base + "/orgs/"@ + organization + "/repos"@
}

/// The URL that lists the secrets of the repository `full_name`.
pub open spec fn secrets_url(base: Seq<char>, full_name: Seq<char>) -> Seq<char> {
    base + "/repos/"@ + full_name + "/actions/secrets"@
}

impl GitHubAPI {
    /// The base address of the API.
    pub closed spec fn base_url(&self) -> Seq<char> {
        self.url@
    }

    /// The token that requests carry.
    pub closed spec fn token(&self) -> Seq<char> {
        self.token@
    }

    /// A client of the API at `url`, or at the public address when none is
    /// given; fails without a token.
    pub fn new(url: Option<String>, token: Option<String>) -> (r: Result<GitHubAPI, ConfigError>)
        ensures
            r is Err <==> token is None,
            r matches Err(e) ==> e == ConfigError::MissingToken,
            r matches Ok(a) ==> a.token() == token->0@ && a.base_url() == match url {
                Some(u) => u@,
                None => default_api_url(),
            },
    {
        let token = match token {
            Some(t) => t,
            None => {
                return Err(ConfigError::MissingToken);
            },
        };
        let url = match url {
            Some(u) => u,
            None => String::from_str("https://api.github.com"),
        };
        Ok(GitHubAPI { url, token })
    }

    /// The full URL of `path` on the API.
    pub fn get_url(&self, path: &str) -> (r: String)
        ensures
            r@ == self.base_url() + path@,
    {
        self.url.clone().concat(path)
    }

    /// The URL that lists the repositories of `organization`.
    pub fn get_repositories_url(&self, organization: &str) -> (r: String)
        ensures
            r@ == repositories_url(self.base_url(), organization@),
    {
        let r = self.get_url("/orgs/").concat(organization).concat("/repos");
        assert(r@ =~= repositories_url(self.base_url(), organization@));
        r
    }

    /// The URL that lists the secrets of `repository`.
    pub fn get_secrets_url(&self, repository: &GitHubAPIRepository) -> (r: String)
        ensures
            r@ == secrets_url(self.base_url(), repository.full_name@),
    {
        let r = self.get_url("/repos/").concat(repository.full_name.as_str()).concat(
            "/actions/secrets",
        );
        assert(r@ =~= secrets_url(self.base_url(), repository.full_name@));
        r
    }

    /// The value of the `Authorization` header.
    pub fn authorization(&self) -> (r: String)
        ensures
            r@ == "Bearer "@ + self.token(),
    {
        String::from_str("Bearer ").concat(self.token.as_str())
    }

    /// The outcome of a listing request that answered with `status`, given
    /// the error body that came with it, if any: success for any status from
    /// 200 to 299.
    pub fn check_status(status: u16, error: Option<GitHubAPIError>) -> (r: Result<(), ObserverError>)
        ensures
            r is Ok <==> 200 <= status <= 299,
            r matches Err(e) ==> e matches ObserverError::Collaborator { status: s, message } && s
                == Some(status) && message@ == match error {
                Some(b) => b.message@,
                None => Seq::empty(),
            },
    {
        if 200 <= status && status <= 299 {
            Ok(())
        } else {
            let message = match error {
                Some(b) => b.message,
                None => String::new(),
            };
            Err(ObserverError::Collaborator { status: Some(status), message })
        }
    }
}

} // verus!
