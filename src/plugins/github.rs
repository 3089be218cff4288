//! The GitHub provider: endpoint construction, request headers and the
//! deep link of a pull request.

use vstd::prelude::*;

use crate::matcher::WatchSet;
use crate::plugins::ProviderError;
use crate::text::{push_signed_decimal, signed_decimal};

verus! {

/// Root of GitHub's REST API.
pub open spec fn api_base() -> Seq<char> {
    "https://api.github.com"@
}

/// Root of GitHub's web pages.
pub open spec fn web_base() -> Seq<char> {
    "https://github.com"@
}

/// The first page, of up to 100 entries, of the repositories of a user.
pub open spec fn user_repos_url(user: Seq<char>) -> Seq<char> {
    api_base() + "/users/"@ + user + "/repos?page=1&per_page=100"@
}

/// The first page, of up to 100 entries, of the repositories of an organization.
pub open spec fn org_repos_url(org: Seq<char>) -> Seq<char> {
    api_base() + "/orgs/"@ + org + "/repos?page=1&per_page=100"@
}

/// The organizations of the authenticated user.
pub open spec fn orgs_url() -> Seq<char> {
    api_base() + "/user/orgs"@
}

/// The first page, of up to 100 entries, of the open pull requests of `owner/repo`.
pub open spec fn pulls_url(owner: Seq<char>, repo: Seq<char>) -> Seq<char> {
    api_base() + "/repos/"@ + owner + "/"@ + repo + "/pulls?page=1&per_page=100"@
}

/// The issues of `owner/repo`.
pub open spec fn issues_url(owner: Seq<char>, repo: Seq<char>) -> Seq<char> {
    api_base() + "/repos/"@ + owner + "/"@ + repo + "/issues"@
}

/// The logins asked to review pull request `number` of `owner/repo`.
pub open spec fn reviewers_url(owner: Seq<char>, repo: Seq<char>, number: int) -> Seq<char> {
    api_base() + "/repos/"@ + owner + "/"@ + repo + "/pulls/"@ + signed_decimal(number)
        + "/requested_reviewers"@
}

/// The web page of pull request `number` of `owner/repo`.
pub open spec fn pull_link(owner: Seq<char>, repo: Seq<char>, number: int) -> Seq<char> {
    web_base() + "/"@ + owner + "/"@ + repo + "/pull/"@ + signed_decimal(number)
}

/// Whether a text can stand as the value of an HTTP header: each character is a
/// tab, or at least a space and not DEL.
pub open spec fn header_text_valid(s: Seq<char>) -> bool {
    forall|i: int|
        0 <= i < s.len() ==> {
            let c = #[trigger] s[i];
            c == '\t' || (c as u32 >= 32 && c as u32 != 127)
        }
}

/// The value of the `Authorization` header for a token.
pub open spec fn bearer(token: Seq<char>) -> Seq<char> {
    "Bearer "@ + token
}

/// The headers sent with every request made with `token`, as (name, value) pairs.
pub open spec fn auth_headers(token: Seq<char>) -> Seq<(Seq<char>, Seq<char>)> {
    seq![
        ("Authorization"@, bearer(token)),
        ("Accept"@, "application/vnd.github+json"@),
        ("User-Agent"@, "Awesome-Octocat-App"@),
    ]
}

/// Relies on `reqwest::header::HeaderValue::from_str` (the `http` crate's): it
/// accepts a text exactly when every byte is a tab, or at least 32 and not 127.
/// The bytes of a non-ASCII character are all at least 128, so the test reads
/// the same over characters.
#[verifier::external_body]
fn header_value_accepts(s: &str) -> (r: bool)
    ensures
        r == header_text_valid(s@),
{
    reqwest::header::HeaderValue::from_str(s).is_ok()
}

/// The GitHub provider for one owner (a user or an organization) and the
/// watch set of logins to notify about.
pub struct GitHub {
    pub owner: String,
    pub reviews: WatchSet,
}

impl GitHub {
    pub fn new(owner: String, reviews: WatchSet) -> (r: GitHub)
        ensures
            r.owner == owner,
            r.reviews == reviews,
    {
        GitHub { owner, reviews }
    }

    /// Root of the REST API.
    pub fn api(&self) -> (r: &'static str)
        ensures
            r@ == api_base(),
    {
        "https://api.github.com"
    }

    fn base() -> (r: String)
        ensures
            r@ == api_base(),
    {
        String::from_str("https://api.github.com")
    }

    /// Headers for a request made with `token`; fails when the token cannot
    /// stand in a header value.
    pub fn headers(&self, token: &str) -> (r: Result<Vec<(String, String)>, ProviderError>)
        ensures
            r is Ok <==> header_text_valid(token@),
            r matches Ok(h) ==> h@.map_values(|p: (String, String)| (p.0@, p.1@))
                == auth_headers(token@),
            r matches Err(e) ==> e == ProviderError::InvalidCredential,
    {
        let mut value = String::from_str("Bearer ");
        value.append(token);
        proof {
            reveal_strlit("Bearer ");
            assert(header_text_valid("Bearer "@));
            if header_text_valid(token@) {
                assert forall|i: int| 0 <= i < value@.len() implies {
                    let c = #[trigger] value@[i];
                    c == '\t' || (c as u32 >= 32 && c as u32 != 127)
                } by {
                    if i >= 7 {
                        assert(value@[i] == token@[i - 7]);
                    } else {
                        assert(value@[i] == "Bearer "@[i]);
                    }
                }
            } else {
                let i = choose|i: int|
                    0 <= i < token@.len() && !{
                        let c = #[trigger] token@[i];
                        c == '\t' || (c as u32 >= 32 && c as u32 != 127)
                    };
                assert(value@[i + 7] == token@[i]);
            }
        }
        if !header_value_accepts(value.as_str()) {
            return Err(ProviderError::InvalidCredential);
        }
        let mut h: Vec<(String, String)> = Vec::new();
        h.push((String::from_str("Authorization"), value));
        h.push((String::from_str("Accept"), String::from_str("application/vnd.github+json")));
        h.push((String::from_str("User-Agent"), String::from_str("Awesome-Octocat-App")));
        assert(h@.map_values(|p: (String, String)| (p.0@, p.1@)) =~= auth_headers(token@));
        Ok(h)
    }

    /// The repositories of the user named `repo`.
    pub fn repo(&self, repo: &str) -> (r: String)
        ensures
            r@ == user_repos_url(repo@),
    {
        let mut u = Self::base();
        u.append("/users/");
        u.append(repo);
        u.append("/repos?page=1&per_page=100");
        u
    }

    /// The repositories of the owner, taken as a user.
    pub fn repos(&self) -> (r: String)
        ensures
            r@ == user_repos_url(self.owner@),
    {
        self.repo(self.owner.as_str())
    }

    /// The repositories of the owner, taken as an organization.
    pub fn org_repos(&self) -> (r: String)
        ensures
            r@ == org_repos_url(self.owner@),
    {
        let mut u = Self::base();
        u.append("/orgs/");
        u.append(self.owner.as_str());
        u.append("/repos?page=1&per_page=100");
        u
    }

    /// The organizations of the authenticated user.
    pub fn orgs(&self) -> (r: String)
        ensures
            r@ == orgs_url(),
    {
        let mut u = Self::base();
        u.append("/user/orgs");
        u
    }

    /// The first page, of up to 100 entries, of the open pull requests of
    /// `repo` under the owner.
    pub fn pull_requests(&self, repo: &str) -> (r: String)
        ensures
            r@ == pulls_url(self.owner@, repo@),
    {
        let mut u = Self::base();
        u.append("/repos/");
        u.append(self.owner.as_str());
        u.append("/");
        u.append(repo);
        u.append("/pulls?page=1&per_page=100");
        u
    }

    /// The issues of `repo` under the owner.
    pub fn issues(&self, repo: &str) -> (r: String)
        ensures
            r@ == issues_url(self.owner@, repo@),
    {
        let mut u = Self::base();
        u.append("/repos/");
        u.append(self.owner.as_str());
        u.append("/");
        u.append(repo);
        u.append("/issues");
        u
    }

    /// The logins asked to review pull request `number` of `repo` under the owner.
    pub fn reviews(&self, repo: &str, number: i64) -> (r: String)
        ensures
            r@ == reviewers_url(self.owner@, repo@, number as int),
    {
        let mut u = Self::base();
        u.append("/repos/");
        u.append(self.owner.as_str());
        u.append("/");
        u.append(repo);
        u.append("/pulls/");
        push_signed_decimal(&mut u, number);
        u.append("/requested_reviewers");
        u
    }

    /// The web page of pull request `number` of `repo` under the owner.
    pub fn link(&self, repo: &str, number: i64) -> (r: String)
        ensures
            r@ == pull_link(self.owner@, repo@, number as int),
    {
        let mut u = String::from_str("https://github.com");
        u.append("/");
        u.append(self.owner.as_str());
        u.append("/");
        u.append(repo);
        u.append("/pull/");
        push_signed_decimal(&mut u, number);
        u
    }
}

} // verus!
