use flexible::matcher::WatchSet;
use flexible::plugins::github::GitHub;
use flexible::plugins::{get_api, Provider, ProviderError};

fn hub(owner: &str) -> GitHub {
    GitHub::new(owner.to_string(), WatchSet::new(&Vec::new()))
}

#[test]
fn unknown_provider_is_refused() {
    let r = get_api("unknown-provider", "acme".to_string(), WatchSet::new(&Vec::new()));
    assert!(matches!(r, Err(ProviderError::UnsupportedProvider(ref n)) if n == "unknown-provider"));
    let r = get_api("GitHub", "acme".to_string(), WatchSet::new(&Vec::new()));
    assert!(matches!(r, Err(ProviderError::UnsupportedProvider(_))));
}

#[test]
fn github_resolves_with_pure_endpoints() {
    let p = get_api("github", "acme".to_string(), WatchSet::new(&Vec::new())).unwrap();
    assert_eq!(p.owner(), "acme");
    assert_eq!(p.pull_requests("x"), p.pull_requests("x"));
    assert_eq!(p.reviews("x", 9), p.reviews("x", 9));
    assert_eq!(p.link("x", 9), p.link("x", 9));
    assert_eq!(p.pull_requests("x"), "https://api.github.com/repos/acme/x/pulls?page=1&per_page=100");
    let Provider::GitHub(g) = p;
    assert_eq!(g.owner, "acme");
}

#[test]
fn github_endpoints() {
    let g = hub("acme");
    assert_eq!(g.api(), "https://api.github.com");
    assert_eq!(g.repo("bob"), "https://api.github.com/users/bob/repos?page=1&per_page=100");
    assert_eq!(g.repos(), "https://api.github.com/users/acme/repos?page=1&per_page=100");
    assert_eq!(g.org_repos(), "https://api.github.com/orgs/acme/repos?page=1&per_page=100");
    assert_eq!(g.orgs(), "https://api.github.com/user/orgs");
    assert_eq!(g.pull_requests("x"), "https://api.github.com/repos/acme/x/pulls?page=1&per_page=100");
    assert_eq!(g.issues("x"), "https://api.github.com/repos/acme/x/issues");
    assert_eq!(
        g.reviews("x", 1234),
        "https://api.github.com/repos/acme/x/pulls/1234/requested_reviewers"
    );
    assert_eq!(g.link("x", 0), "https://github.com/acme/x/pull/0");
    assert_eq!(g.link("x", -15), "https://github.com/acme/x/pull/-15");
    assert_eq!(
        g.link("x", i64::MIN),
        "https://github.com/acme/x/pull/-9223372036854775808"
    );
    assert_eq!(g.link("x", i64::MAX), "https://github.com/acme/x/pull/9223372036854775807");
}

#[test]
fn headers_carry_the_token() {
    let h = hub("acme").headers("abc123").unwrap();
    let expected = vec![
        ("Authorization".to_string(), "Bearer abc123".to_string()),
        ("Accept".to_string(), "application/vnd.github+json".to_string()),
        ("User-Agent".to_string(), "Awesome-Octocat-App".to_string()),
    ];
    assert_eq!(h, expected);
    assert!(hub("acme").headers("a\tb").is_ok());
    assert!(hub("acme").headers("jeton-é").is_ok());
}

#[test]
fn unencodable_token_is_an_invalid_credential() {
    assert_eq!(hub("acme").headers("abc\n"), Err(ProviderError::InvalidCredential));
    assert_eq!(hub("acme").headers("a\u{7f}"), Err(ProviderError::InvalidCredential));
    let p = get_api("github", "acme".to_string(), WatchSet::new(&Vec::new())).unwrap();
    assert_eq!(p.headers("x\r"), Err(ProviderError::InvalidCredential));
}
