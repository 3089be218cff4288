//! The configuration the poller runs with, its validation, and the target
//! scopes it yields.

use vstd::prelude::*;

use crate::matcher::{logins_of, WatchSet};
use crate::text::copy_strings;

verus! {

/// A target scope: an owner (user or organization) and the repositories of it
/// to poll.
#[derive(Debug, Clone)]
pub struct Owner {
    pub name: String,
    pub repos: Vec<String>,
}

/// Name and repositories of a scope.
pub open spec fn scope_of(o: Owner) -> (Seq<char>, Seq<Seq<char>>) {
    (o.name@, logins_of(o.repos@))
}

/// The configuration: provider name, token, watched logins, the owner
/// scope, the organization scopes (each name with its repositories) and the
/// polling interval in seconds.
pub struct ConfigData {
    pub plugin: String,
    pub token: String,
    pub reviews: Vec<String>,
    pub owners: Owner,
    pub orgs: Vec<(String, Vec<String>)>,
    pub dispatch: u64,
}

/// Whether some entry of `s` is empty.
pub open spec fn has_empty(s: Seq<Seq<char>>) -> bool {
    exists|i: int| 0 <= i < s.len() && (#[trigger] s[i]).len() == 0
}

/// Whether some entry of `s` is not empty.
pub open spec fn has_non_empty(s: Seq<Seq<char>>) -> bool {
    exists|i: int| 0 <= i < s.len() && (#[trigger] s[i]).len() > 0
}

/// Whether a scope names an owner and at least one repository.
pub open spec fn scope_usable(name: Seq<char>, repos: Seq<Seq<char>>) -> bool {
    name.len() > 0 && has_non_empty(repos)
}

/// Name and repositories of each organization scope.
pub open spec fn orgs_of(orgs: Seq<(String, Vec<String>)>) -> Seq<(Seq<char>, Seq<Seq<char>>)> {
    orgs.map_values(|e: (String, Vec<String>)| (e.0@, logins_of(e.1@)))
}

/// The message that validation gives: empty when the configuration is usable,
/// else the first rule it breaks.
pub open spec fn validation_message(c: ConfigData) -> Seq<char> {
    if c.token@.len() == 0 {
        "token not allowed empty"@
    } else if c.plugin@.len() == 0 {
        "plugin not allowed empty"@
    } else if c.dispatch == 0 {
        "dispatch not allowed empty"@
    } else if c.reviews@.len() == 0 || has_empty(logins_of(c.reviews@)) {
        "reviews not allowed empty"@
    } else if !scope_usable(c.owners.name@, logins_of(c.owners.repos@)) && !(exists|i: int|
        0 <= i < c.orgs@.len() && #[trigger] scope_usable(
            orgs_of(c.orgs@)[i].0,
            orgs_of(c.orgs@)[i].1,
        )) {
        "owner/repos or orgs/repos not allowed empty"@
    } else {
        ""@
    }
}

/// The scopes a poll cycle visits: the owner when named, then each
/// organization with a name and at least one repository, in order.
pub open spec fn scopes_of(c: ConfigData) -> Seq<(Seq<char>, Seq<Seq<char>>)> {
    let owner = if c.owners.name@.len() > 0 {
        seq![scope_of(c.owners)]
    } else {
        Seq::empty()
    };
    owner + polled_orgs(orgs_of(c.orgs@))
}

/// The organization scopes that have a name and repositories.
pub open spec fn polled_orgs(orgs: Seq<(Seq<char>, Seq<Seq<char>>)>) -> Seq<
    (Seq<char>, Seq<Seq<char>>),
>
    decreases orgs.len(),
{
    if orgs.len() == 0 {
        Seq::empty()
    } else {
        let prefix = polled_orgs(orgs.drop_last());
        if orgs.last().0.len() > 0 && orgs.last().1.len() > 0 {
            prefix.push(orgs.last())
        } else {
            prefix
        }
    }
}

fn any_empty(v: &Vec<String>) -> (r: bool)
    ensures
        r == has_empty(logins_of(v@)),
{
    let mut i: usize = 0;
    while i < v.len()
        invariant
            i <= v.len(),
            forall|j: int| 0 <= j < i ==> v@[j]@.len() > 0,
        decreases v.len() - i,
    {
        if v[i].as_str().is_empty() {
            assert(logins_of(v@)[i as int].len() == 0);
            return true;
        }
        i = i + 1;
    }
    proof {
        if has_empty(logins_of(v@)) {
            let j = choose|j: int| 0 <= j < v@.len() && (#[trigger] logins_of(v@)[j]).len() == 0;
            assert(v@[j]@.len() == 0);
        }
    }
    false
}

fn any_non_empty(v: &Vec<String>) -> (r: bool)
    ensures
        r == has_non_empty(logins_of(v@)),
{
    let mut i: usize = 0;
    while i < v.len()
        invariant
            i <= v.len(),
            forall|j: int| 0 <= j < i ==> v@[j]@.len() == 0,
        decreases v.len() - i,
    {
        if !v[i].as_str().is_empty() {
            assert(logins_of(v@)[i as int].len() > 0);
            return true;
        }
        i = i + 1;
    }
    proof {
        if has_non_empty(logins_of(v@)) {
            let j = choose|j: int| 0 <= j < v@.len() && (#[trigger] logins_of(v@)[j]).len() > 0;
            assert(v@[j]@.len() > 0);
        }
    }
    false
}

fn usable(name: &String, repos: &Vec<String>) -> (r: bool)
    ensures
        r == scope_usable(name@, logins_of(repos@)),
{
    !name.as_str().is_empty() && any_non_empty(repos)
}

impl ConfigData {
    /// A configuration with a provider and a token only.
    pub fn new(plugin: &str, token: &str) -> (r: ConfigData)
        ensures
            r.plugin@ == plugin@,
            r.token@ == token@,
            r.reviews@.len() == 0,
            r.owners.name@.len() == 0,
            r.owners.repos@.len() == 0,
            r.orgs@.len() == 0,
            r.dispatch == 0,
    {
        let owner = Owner { name: String::new(), repos: Vec::new() };
        Self::new_owner(plugin, token, owner)
    }

    /// A configuration with a provider, a token and an owner scope.
    pub fn new_owner(plugin: &str, token: &str, owner: Owner) -> (r: ConfigData)
        ensures
            r.plugin@ == plugin@,
            r.token@ == token@,
            r.reviews@.len() == 0,
            r.owners == owner,
            r.orgs@.len() == 0,
            r.dispatch == 0,
    {
        ConfigData {
            plugin: String::from_str(plugin),
            token: String::from_str(token),
            reviews: Vec::new(),
            owners: owner,
            orgs: Vec::new(),
            dispatch: 0,
        }
    }

    /// Checks the configuration before any polling: the empty text when it is
    /// usable, else a message naming the first rule it breaks.
    pub fn valid(&self) -> (r: &'static str)
        ensures
            r@ == validation_message(*self),
    {
        if self.token.as_str().is_empty() {
            "token not allowed empty"
        } else if self.plugin.as_str().is_empty() {
            "plugin not allowed empty"
        } else if self.dispatch == 0 {
            "dispatch not allowed empty"
        } else if self.reviews.len() == 0 || any_empty(&self.reviews) {
            "reviews not allowed empty"
        } else if !usable(&self.owners.name, &self.owners.repos) && !self.any_usable_org() {
            "owner/repos or orgs/repos not allowed empty"
        } else {
            ""
        }
    }

    fn any_usable_org(&self) -> (r: bool)
        ensures
            r == exists|i: int|
                0 <= i < self.orgs@.len() && #[trigger] scope_usable(
                    orgs_of(self.orgs@)[i].0,
                    orgs_of(self.orgs@)[i].1,
                ),
    {
        let mut i: usize = 0;
        while i < self.orgs.len()
            invariant
                i <= self.orgs.len(),
                forall|j: int|
                    0 <= j < i ==> !#[trigger] scope_usable(
                        orgs_of(self.orgs@)[j].0,
                        orgs_of(self.orgs@)[j].1,
                    ),
            decreases self.orgs.len() - i,
        {
            let entry = &self.orgs[i];
            if usable(&entry.0, &entry.1) {
                assert(scope_usable(orgs_of(self.orgs@)[i as int].0, orgs_of(self.orgs@)[i as int].1));
                return true;
            }
            i = i + 1;
        }
        false
    }

    /// The watch set of the configured logins.
    pub fn reviews(&self) -> (r: WatchSet)
        ensures
            r@ == logins_of(self.reviews@).to_set(),
    {
        WatchSet::new(&self.reviews)
    }

    /// The target scopes a poll cycle visits.
    pub fn scopes(&self) -> (r: Vec<Owner>)
        ensures
            r@.map_values(|o: Owner| scope_of(o)) == scopes_of(*self),
    {
        let mut out: Vec<Owner> = Vec::new();
        if !self.owners.name.as_str().is_empty() {
            out.push(Owner { name: self.owners.name.clone(), repos: copy_strings(&self.owners.repos) });
        }
        let ghost head = out@.map_values(|o: Owner| scope_of(o));
        assert(head =~= (if self.owners.name@.len() > 0 {
            seq![scope_of(self.owners)]
        } else {
            Seq::empty()
        }));
        let mut i: usize = 0;
        while i < self.orgs.len()
            invariant
                i <= self.orgs.len(),
                out@.map_values(|o: Owner| scope_of(o)) == head + polled_orgs(
                    orgs_of(self.orgs@).take(i as int),
                ),
            decreases self.orgs.len() - i,
        {
            assert(orgs_of(self.orgs@).take(i + 1).drop_last() =~= orgs_of(self.orgs@).take(
                i as int,
            ));
            let entry = &self.orgs[i];
            let ghost prev = out@;
            let ghost cur = orgs_of(self.orgs@)[i as int];
            assert(orgs_of(self.orgs@).take(i + 1).last() == cur);
            assert(cur.1.len() == entry.1@.len());
            if !entry.0.as_str().is_empty() && entry.1.len() > 0 {
                let o = Owner { name: entry.0.clone(), repos: copy_strings(&entry.1) };
                assert(scope_of(o) == cur);
                out.push(o);
                assert(out@.map_values(|o: Owner| scope_of(o)) =~= prev.map_values(
                    |o: Owner| scope_of(o),
                ).push(cur));
            }
            i = i + 1;
            assert(out@.map_values(|o: Owner| scope_of(o)) =~= head + polled_orgs(
                orgs_of(self.orgs@).take(i as int),
            ));
        }
        assert(orgs_of(self.orgs@).take(self.orgs.len() as int) =~= orgs_of(self.orgs@));
        out
    }
}

/// An organization entry without a name or without repositories is skipped:
/// the scopes polled are the same as with that entry removed.
pub proof fn lemma_unusable_org_is_skipped(orgs: Seq<(Seq<char>, Seq<Seq<char>>)>, k: int)
    requires
        0 <= k < orgs.len(),
        orgs[k].0.len() == 0 || orgs[k].1.len() == 0,
    ensures
        polled_orgs(orgs) == polled_orgs(orgs.remove(k)),
    decreases orgs.len(),
{
    if k == orgs.len() - 1 {
        assert(orgs.remove(k) =~= orgs.drop_last());
    } else {
        lemma_unusable_org_is_skipped(orgs.drop_last(), k);
        assert(orgs.remove(k).drop_last() =~= orgs.drop_last().remove(k));
        assert(orgs.remove(k).last() == orgs.last());
    }
}

/// An owner without a name is skipped: only the organization scopes are polled.
pub proof fn lemma_unnamed_owner_is_skipped(c: ConfigData)
    requires
        c.owners.name@.len() == 0,
    ensures
        scopes_of(c) == polled_orgs(orgs_of(c.orgs@)),
{
    assert(scopes_of(c) =~= polled_orgs(orgs_of(c.orgs@)));
}

} // verus!
