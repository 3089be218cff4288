//! The watch set of logins and the matching of the logins asked to review
//! against it. Logins are compared exactly, without any normalisation.

use vstd::prelude::*;

use crate::text::copy_strings;

verus! {

/// The text of each login in a list.
pub open spec fn logins_of(v: Seq<String>) -> Seq<Seq<char>> {
    v.map_values(|s: String| s@)
}

/// The logins of `rs` that belong to the watch set `w`, in their order.
pub open spec fn matched(rs: Seq<Seq<char>>, w: Set<Seq<char>>) -> Seq<Seq<char>>
    decreases rs.len(),
{
    if rs.len() == 0 {
        Seq::empty()
    } else {
        let prefix = matched(rs.drop_last(), w);
        if w.contains(rs.last()) {
            prefix.push(rs.last())
        } else {
            prefix
        }
    }
}

/// Whether some login of `rs` belongs to the watch set `w`.
pub open spec fn intersects(rs: Seq<Seq<char>>, w: Set<Seq<char>>) -> bool {
    exists|i: int| 0 <= i < rs.len() && #[trigger] w.contains(rs[i])
}

/// The matched logins are non-empty exactly when the logins of `rs` meet the watch set.
pub proof fn lemma_matched_nonempty(rs: Seq<Seq<char>>, w: Set<Seq<char>>)
    ensures
        (matched(rs, w).len() > 0) == intersects(rs, w),
    decreases rs.len(),
{
    if rs.len() > 0 {
        lemma_matched_nonempty(rs.drop_last(), w);
        if intersects(rs, w) && !w.contains(rs.last()) {
            let i = choose|i: int| 0 <= i < rs.len() && #[trigger] w.contains(rs[i]);
            assert(rs.drop_last()[i] == rs[i]);
        }
        if intersects(rs.drop_last(), w) {
            let i = choose|i: int|
                0 <= i < rs.drop_last().len() && #[trigger] w.contains(rs.drop_last()[i]);
            assert(rs[i] == rs.drop_last()[i]);
        }
        if w.contains(rs.last()) {
            assert(w.contains(rs[rs.len() - 1]));
        }
    }
}

/// A set of logins whose pending review requests are worth a notification.
///
/// The logins are kept in a list and searched in order. vstd specifies hashed
/// lookups only for key types whose hashing it models, and `String` is not one
/// of them, so a hashed set would leave membership unproved. Watch lists are a
/// handful of logins, which a linear search serves well.
pub struct WatchSet {
    logins: Vec<String>,
}

impl View for WatchSet {
    type V = Set<Seq<char>>;

    closed spec fn view(&self) -> Set<Seq<char>> {
        logins_of(self.logins@).to_set()
    }
}

impl WatchSet {
    /// The watch set holding exactly the given logins.
    pub fn new(logins: &Vec<String>) -> (r: WatchSet)
        ensures
            r@ == logins_of(logins@).to_set(),
    {
        WatchSet { logins: copy_strings(logins) }
    }

    /// Whether `login` is watched.
    pub fn contains(&self, login: &String) -> (r: bool)
        ensures
            r == self@.contains(login@),
    {
        let mut i: usize = 0;
        while i < self.logins.len()
            invariant
                i <= self.logins.len(),
                forall|j: int| 0 <= j < i ==> self.logins@[j]@ != login@,
            decreases self.logins.len() - i,
        {
            if self.logins[i] == *login {
                assert(logins_of(self.logins@)[i as int] == login@);
                return true;
            }
            i = i + 1;
        }
        proof {
            if logins_of(self.logins@).to_set().contains(login@) {
                let j = logins_of(self.logins@).index_of(login@);
                assert(self.logins@[j]@ == login@);
            }
        }
        false
    }
}

/// The requested logins that the watch set holds, in the order requested.
pub fn matches(reviewers: &Vec<String>, watch: &WatchSet) -> (r: Vec<String>)
    ensures
        logins_of(r@) == matched(logins_of(reviewers@), watch@),
{
    let mut found: Vec<String> = Vec::new();
    let mut i: usize = 0;
    while i < reviewers.len()
        invariant
            i <= reviewers.len(),
            logins_of(found@) == matched(logins_of(reviewers@).take(i as int), watch@),
        decreases reviewers.len() - i,
    {
        let ghost before = logins_of(reviewers@).take(i as int);
        assert(logins_of(reviewers@).take(i + 1).drop_last() =~= before);
        if watch.contains(&reviewers[i]) {
            found.push(reviewers[i].clone());
        }
        i = i + 1;
        assert(logins_of(found@) =~= matched(logins_of(reviewers@).take(i as int), watch@));
    }
    assert(logins_of(reviewers@).take(reviewers.len() as int) =~= logins_of(reviewers@));
    found
}

/// Whether any requested login is watched.
pub fn any_match(reviewers: &Vec<String>, watch: &WatchSet) -> (r: bool)
    ensures
        r == intersects(logins_of(reviewers@), watch@),
{
    let found = matches(reviewers, watch);
    proof {
        lemma_matched_nonempty(logins_of(reviewers@), watch@);
    }
    found.len() > 0
}

} // verus!
