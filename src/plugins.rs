//! The hosting providers and the registry that picks one by name.

use vstd::prelude::*;

use crate::matcher::WatchSet;
use crate::plugins::github::GitHub;

pub mod github;

verus! {

/// What can go wrong when resolving a provider or talking to it.
#[derive(Debug, Clone, PartialEq, Eq)]
pub enum ProviderError {
    /// No provider is registered under this name.
    UnsupportedProvider(String),
    /// The token cannot be encoded into an authorization header.
    InvalidCredential,
    /// The request did not complete: timeout, refused connection, DNS.
    Transport,
    /// The response carried a status outside 2xx.
    HttpStatus(u16),
    /// The response body did not have the expected shape.
    Decode,
}

} // verus!

verus! {

/// The provider name under which the GitHub provider is registered.
pub open spec fn github_name() -> Seq<char> {
    "github"@
}

/// A provider client, one variant per supported hosting service.
pub enum Provider {
    GitHub(GitHub),
}

impl Provider {
    /// The owner (user or organization) the provider works for.
    pub open spec fn owner_name(&self) -> Seq<char> {
        match self {
            Provider::GitHub(g) => g.owner@,
        }
    }

    /// The logins whose review requests are worth a notification.
    pub open spec fn watched(&self) -> Set<Seq<char>> {
        match self {
            Provider::GitHub(g) => g.reviews@,
        }
    }

    /// The endpoint listing the open pull requests of `repo`.
    pub open spec fn pulls_endpoint(&self, repo: Seq<char>) -> Seq<char> {
        match self {
            Provider::GitHub(g) => github::pulls_url(g.owner@, repo),
        }
    }

    /// The endpoint listing the logins asked to review a pull request.
    pub open spec fn reviewers_endpoint(&self, repo: Seq<char>, number: int) -> Seq<char> {
        match self {
            Provider::GitHub(g) => github::reviewers_url(g.owner@, repo, number),
        }
    }

    /// The web page of a pull request.
    pub open spec fn pull_page(&self, repo: Seq<char>, number: int) -> Seq<char> {
        match self {
            Provider::GitHub(g) => github::pull_link(g.owner@, repo, number),
        }
    }

    /// The headers of a request made with `token`, when it can be encoded.
    pub open spec fn headers_for(&self, token: Seq<char>) -> Option<Seq<(Seq<char>, Seq<char>)>> {
        match self {
            Provider::GitHub(g) => if github::header_text_valid(token) {
                Some(github::auth_headers(token))
            } else {
                None
            },
        }
    }

    pub fn owner(&self) -> (r: &String)
        ensures
            r@ == self.owner_name(),
    {
        match self {
            Provider::GitHub(g) => &g.owner,
        }
    }

    pub fn watch(&self) -> (r: &WatchSet)
        ensures
            r@ == self.watched(),
    {
        match self {
            Provider::GitHub(g) => &g.reviews,
        }
    }

    pub fn pull_requests(&self, repo: &str) -> (r: String)
        ensures
            r@ == self.pulls_endpoint(repo@),
    {
        match self {
            Provider::GitHub(g) => g.pull_requests(repo),
        }
    }

    pub fn reviews(&self, repo: &str, number: i64) -> (r: String)
        ensures
            r@ == self.reviewers_endpoint(repo@, number as int),
    {
        match self {
            Provider::GitHub(g) => g.reviews(repo, number),
        }
    }

    pub fn link(&self, repo: &str, number: i64) -> (r: String)
        ensures
            r@ == self.pull_page(repo@, number as int),
    {
        match self {
            Provider::GitHub(g) => g.link(repo, number),
        }
    }

    pub fn repos(&self) -> (r: String)
        ensures
            self matches Provider::GitHub(g) ==> r@ == github::user_repos_url(g.owner@),
    {
        match self {
            Provider::GitHub(g) => g.repos(),
        }
    }

    pub fn org_repos(&self) -> (r: String)
        ensures
            self matches Provider::GitHub(g) ==> r@ == github::org_repos_url(g.owner@),
    {
        match self {
            Provider::GitHub(g) => g.org_repos(),
        }
    }

    pub fn orgs(&self) -> (r: String)
        ensures
            self is GitHub ==> r@ == github::orgs_url(),
    {
        match self {
            Provider::GitHub(g) => g.orgs(),
        }
    }

    pub fn headers(&self, token: &str) -> (r: Result<Vec<(String, String)>, ProviderError>)
        ensures
            self.headers_for(token@) matches Some(h) ==> r matches Ok(v)
                && v@.map_values(|p: (String, String)| (p.0@, p.1@)) == h,
            self.headers_for(token@) is None ==> r == Err::<Vec<(String, String)>, ProviderError>(
                ProviderError::InvalidCredential,
            ),
    {
        match self {
            Provider::GitHub(g) => g.headers(token),
        }
    }
}

/// Resolves a provider by name, for the given owner and watch set. Unknown
/// names are refused, never replaced by a default.
pub fn get_api(api: &str, owner: String, reviews: WatchSet) -> (r: Result<Provider, ProviderError>)
    ensures
        r is Ok <==> api@ == github_name(),
        r matches Ok(p) ==> p matches Provider::GitHub(g) && g.owner == owner && g.reviews
            == reviews,
        r matches Err(e) ==> e matches ProviderError::UnsupportedProvider(n) && n@ == api@,
{
    let name = String::from_str(api);
    if name == String::from_str("github") {
        Ok(Provider::GitHub(GitHub::new(owner, reviews)))
    } else {
        Err(ProviderError::UnsupportedProvider(name))
    }
}

/// Endpoint construction is pure: two clients for the same owner give the same
/// URLs and links for the same inputs, and nothing but those inputs enters them.
pub proof fn lemma_endpoints_are_pure(p: Provider, q: Provider, repo: Seq<char>, number: int)
    requires
        p.owner_name() == q.owner_name(),
    ensures
        p.pulls_endpoint(repo) == q.pulls_endpoint(repo),
        p.reviewers_endpoint(repo, number) == q.reviewers_endpoint(repo, number),
        p.pull_page(repo, number) == q.pull_page(repo, number),
{
}

} // verus!
