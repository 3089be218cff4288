use flexible::matcher::WatchSet;
use flexible::plugins::{get_api, Provider, ProviderError};
use flexible::poll::{Action, NotificationEvent, PollCycle, PullRequest};

fn s(v: &str) -> String {
    v.to_string()
}

fn strings(v: &[&str]) -> Vec<String> {
    v.iter().map(|x| x.to_string()).collect()
}

fn provider(owner: &str, watch: &[&str]) -> Provider {
    get_api("github", s(owner), WatchSet::new(&strings(watch))).unwrap()
}

fn pr(title: &str, number: i64) -> PullRequest {
    PullRequest { title: s(title), number }
}

/// Runs a cycle to its end, answering fetches from the two functions; returns
/// the notifications and the number of fetches made.
fn drive(
    cycle: &mut PollCycle,
    pulls: &dyn Fn(&str) -> Result<Vec<PullRequest>, ProviderError>,
    reviewers: &dyn Fn(&str, i64) -> Result<Vec<String>, ProviderError>,
) -> (Vec<NotificationEvent>, usize) {
    let mut events = Vec::new();
    let mut fetches = 0;
    loop {
        match cycle.next_action() {
            Action::FetchPulls { repo, .. } => {
                fetches += 1;
                cycle.on_pulls(pulls(&repo));
            }
            Action::FetchReviewers { repo, number, .. } => {
                fetches += 1;
                if let Some(e) = cycle.on_reviewers(reviewers(&repo, number)) {
                    events.push(e);
                }
            }
            Action::Done => break,
        }
    }
    (events, fetches)
}

fn no_pulls(_: &str) -> Result<Vec<PullRequest>, ProviderError> {
    panic!("no fetch expected")
}

fn no_reviewers(_: &str, _: i64) -> Result<Vec<String>, ProviderError> {
    panic!("no fetch expected")
}

#[test]
fn empty_scope_name_makes_no_request() {
    let mut cycle = PollCycle::new(provider("", &["alice"]), &strings(&["x", "y"]));
    assert!(cycle.is_done());
    assert_eq!(cycle.next_action(), Action::Done);
    let (events, fetches) = drive(&mut cycle, &no_pulls, &no_reviewers);
    assert_eq!(events.len(), 0);
    assert_eq!(fetches, 0);
}

#[test]
fn empty_repo_list_makes_no_request() {
    let mut cycle = PollCycle::new(provider("acme", &["alice"]), &Vec::new());
    let (events, fetches) = drive(&mut cycle, &no_pulls, &no_reviewers);
    assert_eq!(events.len(), 0);
    assert_eq!(fetches, 0);
}

#[test]
fn empty_repo_names_are_skipped() {
    let mut cycle = PollCycle::new(provider("acme", &["alice"]), &strings(&["", "x", ""]));
    assert_eq!(
        cycle.next_action(),
        Action::FetchPulls { repo: s("x"), url: s("https://api.github.com/repos/acme/x/pulls?page=1&per_page=100") }
    );
    let (_, fetches) = drive(&mut cycle, &|_| Ok(Vec::new()), &no_reviewers);
    assert_eq!(fetches, 1);
}

#[test]
fn two_matching_reviewers_give_one_notification() {
    let mut cycle = PollCycle::new(provider("acme", &["alice", "bob"]), &strings(&["x"]));
    let (events, _) = drive(
        &mut cycle,
        &|_| Ok(vec![pr("Fix bug", 42)]),
        &|_, _| Ok(strings(&["alice", "bob", "carol"])),
    );
    assert_eq!(events.len(), 1);
    assert_eq!(events[0].link, "https://github.com/acme/x/pull/42");
}

#[test]
fn no_matching_reviewer_gives_no_notification() {
    let mut cycle = PollCycle::new(provider("acme", &["alice"]), &strings(&["x"]));
    let (events, fetches) = drive(
        &mut cycle,
        &|_| Ok(vec![pr("A", 1), pr("B", 2)]),
        &|_, _| Ok(strings(&["Alice", "alice ", "carol"])),
    );
    assert_eq!(events.len(), 0);
    assert_eq!(fetches, 3);
}

#[test]
fn failing_repo_does_not_stop_the_next() {
    let mut cycle = PollCycle::new(provider("acme", &["alice"]), &strings(&["a", "b"]));
    let (events, _) = drive(
        &mut cycle,
        &|repo| {
            if repo == "a" {
                Err(ProviderError::Transport)
            } else {
                Ok(vec![pr("Ready", 7)])
            }
        },
        &|_, _| Ok(strings(&["alice"])),
    );
    assert_eq!(events.len(), 1);
    assert_eq!(events[0].repo, "b");
    assert_eq!(events[0].title, "Ready");
    assert_eq!(events[0].link, "https://github.com/acme/b/pull/7");
}

#[test]
fn failing_reviewers_do_not_stop_the_next_pull_request() {
    let mut cycle = PollCycle::new(provider("acme", &["alice"]), &strings(&["x"]));
    let (events, fetches) = drive(
        &mut cycle,
        &|_| Ok(vec![pr("First", 1), pr("Second", 2)]),
        &|_, n| {
            if n == 1 {
                Err(ProviderError::HttpStatus(500))
            } else {
                Ok(strings(&["alice"]))
            }
        },
    );
    assert_eq!(fetches, 3);
    assert_eq!(events.len(), 1);
    assert_eq!(events[0].title, "Second");
}

#[test]
fn decode_failure_skips_only_its_repo() {
    let mut cycle = PollCycle::new(provider("acme", &["bob"]), &strings(&["a", "b", "c"]));
    let (events, fetches) = drive(
        &mut cycle,
        &|repo| {
            if repo == "b" {
                Err(ProviderError::Decode)
            } else {
                Ok(vec![pr(repo, 3)])
            }
        },
        &|_, _| Ok(strings(&["bob"])),
    );
    assert_eq!(fetches, 5);
    let repos: Vec<String> = events.iter().map(|e| e.repo.clone()).collect();
    assert_eq!(repos, strings(&["a", "c"]));
}

#[test]
fn example_end_to_end() {
    let mut cycle = PollCycle::new(provider("acme", &["alice", "bob"]), &strings(&["x"]));
    assert_eq!(
        cycle.next_action(),
        Action::FetchPulls { repo: s("x"), url: s("https://api.github.com/repos/acme/x/pulls?page=1&per_page=100") }
    );
    cycle.on_pulls(Ok(vec![pr("Fix bug", 42)]));
    assert_eq!(
        cycle.next_action(),
        Action::FetchReviewers {
            repo: s("x"),
            number: 42,
            url: s("https://api.github.com/repos/acme/x/pulls/42/requested_reviewers"),
        }
    );
    let event = cycle.on_reviewers(Ok(strings(&["alice", "carol"])));
    assert_eq!(
        event,
        Some(NotificationEvent {
            repo: s("x"),
            title: s("Fix bug"),
            link: s("https://github.com/acme/x/pull/42"),
        })
    );
    assert!(cycle.is_done());

    let mut other = PollCycle::new(provider("acme", &["alice", "bob"]), &strings(&["x"]));
    let (events, _) = drive(
        &mut other,
        &|_| Ok(vec![pr("Fix bug", 42)]),
        &|_, _| Ok(strings(&["carol", "dave"])),
    );
    assert_eq!(events.len(), 0);
}

#[test]
fn same_pull_request_is_notified_again_next_cycle() {
    let p = || provider("acme", &["alice"]);
    for _ in 0..2 {
        let mut cycle = PollCycle::new(p(), &strings(&["x"]));
        let (events, _) =
            drive(&mut cycle, &|_| Ok(vec![pr("Fix", 5)]), &|_, _| Ok(strings(&["alice"])));
        assert_eq!(events.len(), 1);
    }
}
