//! One poll cycle over a target scope, as a machine that decides what to fetch
//! next and when to notify. The caller performs each fetch and hands the
//! outcome back; a failed fetch only skips the repository or the pull request
//! it was for.

use vstd::prelude::*;

use crate::matcher::{any_match, intersects, logins_of};
use crate::plugins::{Provider, ProviderError};

verus! {

/// A pull request as listed by the provider.
#[derive(Debug, Clone)]
pub struct PullRequest {
    pub title: String,
    pub number: i64,
}

/// An alert about a pull request that awaits a watched login.
#[derive(Debug, Clone, PartialEq, Eq)]
pub struct NotificationEvent {
    pub repo: String,
    pub title: String,
    pub link: String,
}

impl View for NotificationEvent {
    type V = (Seq<char>, Seq<char>, Seq<char>);

    open spec fn view(&self) -> (Seq<char>, Seq<char>, Seq<char>) {
        (self.repo@, self.title@, self.link@)
    }
}

/// What the caller has to do next for the cycle.
#[derive(Debug, Clone, PartialEq, Eq)]
pub enum Action {
    /// Fetch the open pull requests of `repo` from `url`.
    FetchPulls { repo: String, url: String },
    /// Fetch from `url` the logins asked to review pull request `number` of `repo`.
    FetchReviewers { repo: String, number: i64, url: String },
    /// The cycle is over.
    Done,
}

/// The mathematical form of an [`Action`].
pub enum ActionView {
    FetchPulls(Seq<char>, Seq<char>),
    FetchReviewers(Seq<char>, int, Seq<char>),
    Done,
}

impl View for Action {
    type V = ActionView;

    open spec fn view(&self) -> ActionView {
        match self {
            Action::FetchPulls { repo, url } => ActionView::FetchPulls(repo@, url@),
            Action::FetchReviewers { repo, number, url } => ActionView::FetchReviewers(
                repo@,
                *number as int,
                url@,
            ),
            Action::Done => ActionView::Done,
        }
    }
}

/// Title and number of each pull request.
pub open spec fn pulls_of(v: Seq<PullRequest>) -> Seq<(Seq<char>, int)> {
    v.map_values(|p: PullRequest| (p.title@, p.number as int))
}

/// The repositories of `repos` that are not empty, in their order.
pub open spec fn non_empty(repos: Seq<Seq<char>>) -> Seq<Seq<char>>
    decreases repos.len(),
{
    if repos.len() == 0 {
        Seq::empty()
    } else {
        let prefix = non_empty(repos.drop_last());
        if repos.last().len() > 0 {
            prefix.push(repos.last())
        } else {
            prefix
        }
    }
}

/// The repositories polled for a scope: none when its name is empty, else
/// those that are not empty.
pub open spec fn eligible(name: Seq<char>, repos: Seq<Seq<char>>) -> Seq<Seq<char>> {
    if name.len() == 0 {
        Seq::empty()
    } else {
        non_empty(repos)
    }
}

/// The state of a poll cycle: the repositories to poll, the one being polled,
/// its pull requests once fetched, and the pull request being evaluated.
pub struct CycleView {
    pub repos: Seq<Seq<char>>,
    pub repo_idx: int,
    pub pulls: Seq<(Seq<char>, int)>,
    pub pull_idx: int,
    pub fetched: bool,
}

/// The state in which a cycle over `repos` of the scope `name` starts.
pub open spec fn start(name: Seq<char>, repos: Seq<Seq<char>>) -> CycleView {
    CycleView {
        repos: eligible(name, repos),
        repo_idx: 0,
        pulls: Seq::empty(),
        pull_idx: 0,
        fetched: false,
    }
}

/// Whether the cycle is over.
pub open spec fn finished(v: CycleView) -> bool {
    v.repo_idx >= v.repos.len()
}

/// Whether the cycle waits for the pull requests of the current repository.
pub open spec fn awaits_pulls(v: CycleView) -> bool {
    !finished(v) && !v.fetched
}

/// Whether the cycle waits for the logins asked to review the current pull request.
pub open spec fn awaits_reviewers(v: CycleView) -> bool {
    !finished(v) && v.fetched
}

/// The action that the state `v` asks for.
pub open spec fn action_of(p: Provider, v: CycleView) -> ActionView {
    if finished(v) {
        ActionView::Done
    } else if !v.fetched {
        let repo = v.repos[v.repo_idx];
        ActionView::FetchPulls(repo, p.pulls_endpoint(repo))
    } else {
        let repo = v.repos[v.repo_idx];
        let number = v.pulls[v.pull_idx].1;
        ActionView::FetchReviewers(repo, number, p.reviewers_endpoint(repo, number))
    }
}

/// Moving on to the next repository.
pub open spec fn next_repo(v: CycleView) -> CycleView {
    CycleView {
        repos: v.repos,
        repo_idx: v.repo_idx + 1,
        pulls: Seq::empty(),
        pull_idx: 0,
        fetched: false,
    }
}

/// The state after the pull requests of the current repository came back:
/// `None` for a failed fetch.
pub open spec fn after_pulls(v: CycleView, outcome: Option<Seq<(Seq<char>, int)>>) -> CycleView {
    match outcome {
        Some(prs) => if prs.len() > 0 {
            CycleView { repos: v.repos, repo_idx: v.repo_idx, pulls: prs, pull_idx: 0, fetched: true }
        } else {
            next_repo(v)
        },
        None => next_repo(v),
    }
}

/// The state after the logins asked to review the current pull request came back,
/// whatever they were.
pub open spec fn after_reviewers(v: CycleView) -> CycleView {
    if v.pull_idx + 1 < v.pulls.len() {
        CycleView {
            repos: v.repos,
            repo_idx: v.repo_idx,
            pulls: v.pulls,
            pull_idx: v.pull_idx + 1,
            fetched: true,
        }
    } else {
        next_repo(v)
    }
}

/// The notification owed for the current pull request, given its requested
/// review requests (`None` for a failed fetch): one exactly when a requested login is watched.
pub open spec fn notification(
    p: Provider,
    v: CycleView,
    outcome: Option<Seq<Seq<char>>>,
) -> Option<(Seq<char>, Seq<char>, Seq<char>)> {
    match outcome {
        Some(rs) => if intersects(rs, p.watched()) {
            let repo = v.repos[v.repo_idx];
            let pr = v.pulls[v.pull_idx];
            Some((repo, pr.0, p.pull_page(repo, pr.1)))
        } else {
            None
        },
        None => None,
    }
}

/// The mathematical form of a fetch outcome.
pub open spec fn outcome_of<T, U>(r: Result<T, ProviderError>, f: spec_fn(T) -> U) -> Option<U> {
    match r {
        Ok(t) => Some(f(t)),
        Err(_) => None,
    }
}

/// A poll cycle over the repositories of one target scope.
pub struct PollCycle {
    provider: Provider,
    repos: Vec<String>,
    repo_idx: usize,
    pulls: Vec<PullRequest>,
    pull_idx: usize,
    fetched: bool,
}

impl View for PollCycle {
    type V = CycleView;

    closed spec fn view(&self) -> CycleView {
        CycleView {
            repos: logins_of(self.repos@),
            repo_idx: self.repo_idx as int,
            pulls: pulls_of(self.pulls@),
            pull_idx: self.pull_idx as int,
            fetched: self.fetched,
        }
    }
}

impl PollCycle {
    /// The provider the cycle polls.
    pub closed spec fn provider(&self) -> Provider {
        self.provider
    }

    /// The cycle's internal invariant.
    pub closed spec fn wf(&self) -> bool {
        &&& self.repo_idx <= self.repos.len()
        &&& self.fetched ==> self.repo_idx < self.repos.len() && self.pull_idx
            < self.pulls.len()
        &&& !self.fetched ==> self.pull_idx == 0 && self.pulls.len() == 0
    }

    /// Starts a cycle over `repos` under the provider's owner. A scope with an
    /// empty owner name or no repositories polls nothing; empty repository
    /// names are skipped.
    pub fn new(provider: Provider, repos: &Vec<String>) -> (r: PollCycle)
        ensures
            r.wf(),
            r.provider() == provider,
            r@ == start(provider.owner_name(), logins_of(repos@)),
    {
        let mut kept: Vec<String> = Vec::new();
        if !provider.owner().as_str().is_empty() {
            let mut i: usize = 0;
            while i < repos.len()
                invariant
                    i <= repos.len(),
                    logins_of(kept@) == non_empty(logins_of(repos@).take(i as int)),
                decreases repos.len() - i,
            {
                assert(logins_of(repos@).take(i + 1).drop_last() =~= logins_of(repos@).take(
                    i as int,
                ));
                if !repos[i].as_str().is_empty() {
                    kept.push(repos[i].clone());
                }
                i = i + 1;
                assert(logins_of(kept@) =~= non_empty(logins_of(repos@).take(i as int)));
            }
            assert(logins_of(repos@).take(repos.len() as int) =~= logins_of(repos@));
        } else {
            assert(logins_of(kept@) =~= Seq::<Seq<char>>::empty());
        }
        let r = PollCycle {
            provider,
            repos: kept,
            repo_idx: 0,
            pulls: Vec::new(),
            pull_idx: 0,
            fetched: false,
        };
        assert(pulls_of(r.pulls@) =~= Seq::<(Seq<char>, int)>::empty());
        r
    }

    /// Whether the cycle is over.
    pub fn is_done(&self) -> (r: bool)
        requires
            self.wf(),
        ensures
            r == finished(self@),
    {
        self.repo_idx >= self.repos.len()
    }

    /// What the caller has to do next.
    pub fn next_action(&self) -> (r: Action)
        requires
            self.wf(),
        ensures
            r@ == action_of(self.provider(), self@),
    {
        if self.repo_idx >= self.repos.len() {
            Action::Done
        } else if !self.fetched {
            let repo = self.repos[self.repo_idx].clone();
            let url = self.provider.pull_requests(repo.as_str());
            Action::FetchPulls { repo, url }
        } else {
            let repo = self.repos[self.repo_idx].clone();
            let number = self.pulls[self.pull_idx].number;
            let url = self.provider.reviews(repo.as_str(), number);
            Action::FetchReviewers { repo, number, url }
        }
    }

    fn advance_repo(&mut self)
        requires
            old(self).wf(),
            !finished(old(self)@),
        ensures
            final(self).wf(),
            final(self).provider() == old(self).provider(),
            final(self)@ == next_repo(old(self)@),
    {
        self.repo_idx = self.repo_idx + 1;
        self.pulls = Vec::new();
        self.pull_idx = 0;
        self.fetched = false;
        assert(pulls_of(self.pulls@) =~= Seq::<(Seq<char>, int)>::empty());
    }

    /// Takes in the pull requests of the current repository. A failed fetch,
    /// or a repository without open pull requests, moves on to the next one.
    pub fn on_pulls(&mut self, outcome: Result<Vec<PullRequest>, ProviderError>)
        requires
            old(self).wf(),
            awaits_pulls(old(self)@),
        ensures
            final(self).wf(),
            final(self).provider() == old(self).provider(),
            final(self)@ == after_pulls(
                old(self)@,
                outcome_of(outcome, |v: Vec<PullRequest>| pulls_of(v@)),
            ),
    {
        match outcome {
            Ok(prs) => {
                if prs.len() > 0 {
                    self.pulls = prs;
                    self.pull_idx = 0;
                    self.fetched = true;
                } else {
                    self.advance_repo();
                }
            },
            Err(_) => {
                self.advance_repo();
            },
        }
    }

    /// Takes in the logins asked to review the current pull request and
    /// returns the notification it calls for, if any. A failed fetch skips
    /// only this pull request.
    pub fn on_reviewers(&mut self, outcome: Result<Vec<String>, ProviderError>) -> (r: Option<
        NotificationEvent,
    >)
        requires
            old(self).wf(),
            awaits_reviewers(old(self)@),
        ensures
            final(self).wf(),
            final(self).provider() == old(self).provider(),
            final(self)@ == after_reviewers(old(self)@),
            r matches Some(e) ==> notification(
                old(self).provider(),
                old(self)@,
                outcome_of(outcome, |v: Vec<String>| logins_of(v@)),
            ) == Some(e@),
            r is None ==> notification(
                old(self).provider(),
                old(self)@,
                outcome_of(outcome, |v: Vec<String>| logins_of(v@)),
            ) is None,
    {
        let event = match outcome {
            Ok(reviewers) => {
                if any_match(&reviewers, self.provider.watch()) {
                    let repo = self.repos[self.repo_idx].clone();
                    let pr = &self.pulls[self.pull_idx];
                    let title = pr.title.clone();
                    let link = self.provider.link(repo.as_str(), pr.number);
                    Some(NotificationEvent { repo, title, link })
                } else {
                    None
                }
            },
            Err(_) => None,
        };
        if self.pull_idx + 1 < self.pulls.len() {
            self.pull_idx = self.pull_idx + 1;
        } else {
            self.advance_repo();
        }
        event
    }
}

/// A scope with an empty name or no repositories is over before any fetch:
/// its cycle makes no request and so raises no notification.
pub proof fn lemma_ineligible_scope_is_idle(p: Provider, name: Seq<char>, repos: Seq<Seq<char>>)
    requires
        name.len() == 0 || repos.len() == 0,
    ensures
        action_of(p, start(name, repos)) == ActionView::Done,
{
}

/// A pull request whose requested logins meet the watch set yields one
/// notification, the same however many of them are watched, and the cycle then
/// leaves that pull request.
pub proof fn lemma_match_notifies_once(
    p: Provider,
    v: CycleView,
    rs: Seq<Seq<char>>,
    other: Seq<Seq<char>>,
)
    requires
        intersects(rs, p.watched()),
        intersects(other, p.watched()),
    ensures
        notification(p, v, Some(rs)) is Some,
        notification(p, v, Some(rs)) == notification(p, v, Some(other)),
        after_reviewers(v).pull_idx == v.pull_idx + 1 || after_reviewers(v).repo_idx == v.repo_idx
            + 1,
{
}

/// A pull request none of whose requested logins is watched yields no notification.
pub proof fn lemma_no_match_is_silent(p: Provider, v: CycleView, rs: Seq<Seq<char>>)
    requires
        !intersects(rs, p.watched()),
    ensures
        notification(p, v, Some(rs)) is None,
{
}

/// When the pull requests of a repository cannot be fetched, the cycle goes on
/// with the next repository of the scope.
pub proof fn lemma_failed_repo_moves_on(p: Provider, v: CycleView)
    requires
        awaits_pulls(v),
    ensures
        v.repo_idx + 1 < v.repos.len() ==> action_of(p, after_pulls(v, None))
            == ActionView::FetchPulls(
            v.repos[v.repo_idx + 1],
            p.pulls_endpoint(v.repos[v.repo_idx + 1]),
        ),
        v.repo_idx + 1 >= v.repos.len() ==> action_of(p, after_pulls(v, None)) == ActionView::Done,
{
}

/// When the logins asked to review a pull request cannot be fetched, it raises no
/// notification and the cycle goes on with the next pull request of the repository.
pub proof fn lemma_failed_reviewers_move_on(p: Provider, v: CycleView)
    requires
        awaits_reviewers(v),
        v.pull_idx + 1 < v.pulls.len(),
    ensures
        notification(p, v, None) is None,
        forall|rs: Seq<Seq<char>>|
            (#[trigger] notification(p, after_reviewers(v), Some(rs))) is Some <==> intersects(
                rs,
                p.watched(),
            ),
        action_of(p, after_reviewers(v)) == ActionView::FetchReviewers(
            v.repos[v.repo_idx],
            v.pulls[v.pull_idx + 1].1,
            p.reviewers_endpoint(v.repos[v.repo_idx], v.pulls[v.pull_idx + 1].1),
        ),
{
}

/// The cycle only moves forward: each step goes on to the next pull request of
/// the same repository, or to the next repository, whatever a fetch returned.
/// So the pull requests of each repository are fetched once, in order.
pub proof fn lemma_cycle_moves_forward(v: CycleView, outcome: Option<Seq<(Seq<char>, int)>>)
    ensures
        awaits_pulls(v) ==> after_pulls(v, outcome) == next_repo(v) || (after_pulls(
            v,
            outcome,
        ).repo_idx == v.repo_idx && after_pulls(v, outcome).fetched && after_pulls(
            v,
            outcome,
        ).pull_idx == 0 && after_pulls(v, outcome).repos == v.repos),
        awaits_reviewers(v) ==> after_reviewers(v) == next_repo(v) || (after_reviewers(v).repo_idx
            == v.repo_idx && after_reviewers(v).fetched && after_reviewers(v).pull_idx == v.pull_idx
            + 1 && after_reviewers(v).pulls == v.pulls && after_reviewers(v).repos == v.repos),
        next_repo(v).repo_idx == v.repo_idx + 1,
        !next_repo(v).fetched,
        next_repo(v).repos == v.repos,
{
}

} // verus!
