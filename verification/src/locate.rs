//! Locating the library root: the nearest directory, from the working
//! directory upward, that holds the fixed marker entry.

use crate::path_util::{is_normalized_abs, lemma_parent_normalized, parent_dir, parent_of};
use vstd::prelude::*;
use vstd::string::StringExecFns;

verus! {

/// Name of the marker entry whose presence identifies the library root.
pub open spec fn marker_name() -> Seq<char> {
    "marker_lib_root"@
}

/// Does a directory with the given entry names hold the marker, i.e. is it
/// the library root?
pub fn check_root(entries: &Vec<String>) -> (r: bool)
    ensures
        r == exists|i: int| 0 <= i < entries@.len() && #[trigger] entries@[i]@ == marker_name(),
{
    let marker = String::from_str("marker_lib_root");
    let mut i: usize = 0;
    while i < entries.len()
        invariant
            i <= entries@.len(),
            marker@ == marker_name(),
            forall|j: int| 0 <= j < i ==> #[trigger] entries@[j]@ != marker_name(),
        decreases entries@.len() - i,
    {
        if entries[i] == marker {
            return true;
        }
        i = i + 1;
    }
    false
}

/// The chain of candidate directories the locator walks: the working
/// directory first, then each parent in turn, ending at the directory that
/// has no parent.
pub open spec fn is_ancestor_chain(c: Seq<Seq<char>>, cwd: Seq<char>) -> bool {
    &&& c.len() >= 1
    &&& c[0] == cwd
    &&& forall|i: int| 0 <= i < c.len() - 1 ==> parent_of(#[trigger] c[i]) == Some(c[i + 1])
    &&& parent_of(c[c.len() - 1]) is None
}

proof fn lemma_chain_elem(c1: Seq<Seq<char>>, c2: Seq<Seq<char>>, cwd: Seq<char>, j: int)
    requires
        is_ancestor_chain(c1, cwd),
        is_ancestor_chain(c2, cwd),
        0 <= j < c1.len(),
        j < c2.len(),
    ensures
        c1[j] == c2[j],
    decreases j,
{
    if j > 0 {
        lemma_chain_elem(c1, c2, cwd, j - 1);
    }
}

/// The locator is idempotent: the chain of candidate directories is a
/// function of the working directory alone, so two walks from the same
/// working directory see the same candidates and — the root being pinned by
/// [`find_lib_root`]'s contract as a function of the candidates and their
/// marker flags — find the same root.
pub proof fn lemma_ancestor_chain_unique(c1: Seq<Seq<char>>, c2: Seq<Seq<char>>, cwd: Seq<char>)
    requires
        is_ancestor_chain(c1, cwd),
        is_ancestor_chain(c2, cwd),
    ensures
        c1 == c2,
{
    if c1.len() < c2.len() {
        lemma_chain_elem(c1, c2, cwd, c1.len() - 1);
        assert(parent_of(c2[c1.len() - 1]) == Some(c2[c1.len() as int]));
    }
    if c2.len() < c1.len() {
        lemma_chain_elem(c1, c2, cwd, c2.len() - 1);
        assert(parent_of(c1[c2.len() - 1]) == Some(c1[c2.len() as int]));
    }
    assert forall|j: int| 0 <= j < c1.len() implies c1[j] == c2[j] by {
        lemma_chain_elem(c1, c2, cwd, j);
    }
    assert(c1 =~= c2);
}

/// The working directory and all its ancestors, in the order the locator
/// visits them: the working directory itself first, the filesystem root last.
pub fn ancestors_of(cwd: &str) -> (r: Vec<String>)
    requires
        is_normalized_abs(cwd@),
    ensures
        is_ancestor_chain(r.deep_view(), cwd@),
        forall|i: int| 0 <= i < r@.len() ==> is_normalized_abs(r.deep_view()[i]),
{
    let mut r: Vec<String> = Vec::new();
    let mut curr = String::from_str(cwd);
    r.push(curr.clone());
    loop
        invariant
            r@.len() >= 1,
            r.deep_view()[0] == cwd@,
            r.deep_view()[r@.len() - 1] == curr@,
            is_normalized_abs(curr@),
            forall|i: int| 0 <= i < r@.len() ==> is_normalized_abs(r.deep_view()[i]),
            forall|i: int|
                0 <= i < r@.len() - 1 ==> parent_of(#[trigger] r.deep_view()[i]) == Some(
                    r.deep_view()[i + 1],
                ),
        decreases curr@.len(),
    {
        match parent_dir(curr.as_str()) {
            Option::None => {
                return r;
            },
            Option::Some(q) => {
                proof {
                    lemma_parent_normalized(curr@);
                }
                let ghost pre = r.deep_view();
                r.push(q.clone());
                proof {
                    assert(r.deep_view() =~= pre.push(q@));
                }
                curr = q;
            },
        }
    }
}

/// Index of the first candidate that holds the marker, if any.
pub open spec fn first_marker(m: Seq<bool>) -> Option<int>
    decreases m.len(),
{
    if m.len() == 0 {
        None
    } else if m[0] {
        Some(0)
    } else {
        match first_marker(m.drop_first()) {
            None => None,
            Some(i) => Some(i + 1),
        }
    }
}

/// What [`first_marker`] picks: a candidate that holds the marker, the
/// nearest one — everything before it is unmarked — and `None` only when no
/// candidate is marked.
pub proof fn lemma_first_marker_is_first(m: Seq<bool>)
    ensures
        match first_marker(m) {
            Option::None => forall|i: int| 0 <= i < m.len() ==> !m[i],
            Option::Some(i) => 0 <= i < m.len() && m[i] && forall|j: int| 0 <= j < i ==> !m[j],
        },
    decreases m.len(),
{
    if m.len() > 0 && !m[0] {
        let df = m.drop_first();
        lemma_first_marker_is_first(df);
        match first_marker(df) {
            Option::None => {
                assert forall|i: int| 0 <= i < m.len() implies !m[i] by {
                    if i > 0 {
                        assert(df[i - 1] == m[i]);
                    }
                }
            },
            Option::Some(k) => {
                assert(df[k] == m[k + 1]);
                assert forall|j: int| 0 <= j < k + 1 implies !m[j] by {
                    if j > 0 {
                        assert(df[j - 1] == m[j]);
                    }
                }
            },
        }
    }
}

/// If the working directory itself holds the marker, it is the root: the
/// locator takes zero upward steps.
pub proof fn lemma_marker_in_cwd(m: Seq<bool>)
    requires
        m.len() >= 1,
        m[0],
    ensures
        first_marker(m) == Some(0int),
{
}

/// If no candidate holds the marker, the locator finds no root.
pub proof fn lemma_no_marker_no_root(m: Seq<bool>)
    requires
        forall|i: int| 0 <= i < m.len() ==> !m[i],
    ensures
        first_marker(m) is None,
    decreases m.len(),
{
    if m.len() > 0 {
        assert(!m[0]);
        lemma_no_marker_no_root(m.drop_first());
    }
}

proof fn lemma_first_marker_skip(m: Seq<bool>, i: int)
    requires
        0 <= i <= m.len(),
        forall|j: int| 0 <= j < i ==> !m[j],
    ensures
        first_marker(m) == match first_marker(m.skip(i)) {
            None => None::<int>,
            Some(k) => Some(k + i),
        },
    decreases i,
{
    if i == 0 {
        assert(m.skip(0) =~= m);
    } else {
        assert(m.len() >= 1);
        assert(!m[0]);
        assert(m.drop_first() =~= m.skip(1));
        lemma_first_marker_skip(m.skip(1), i - 1);
        assert(m.skip(1).skip(i - 1) =~= m.skip(i));
    }
}

/// Walk the candidate chain and return the first directory that holds the
/// marker: the library root. `has_marker[i]` says whether `chain[i]` holds
/// the marker entry. Fails with `None` exactly when no candidate holds it.
pub fn find_lib_root(chain: &Vec<String>, has_marker: &Vec<bool>) -> (r: Option<String>)
    requires
        chain@.len() == has_marker@.len(),
    ensures
        match first_marker(has_marker@) {
            Option::None => r is None,
            Option::Some(i) => r is Some && r->0@ == chain.deep_view()[i],
        },
{
    let n = chain.len();
    let mut i: usize = 0;
    while i < n
        invariant
            i <= n,
            n == chain@.len(),
            n == has_marker@.len(),
            forall|j: int| 0 <= j < i ==> !has_marker@[j],
        decreases n - i,
    {
        if has_marker[i] {
            proof {
                lemma_first_marker_skip(has_marker@, i as int);
                assert(has_marker@.skip(i as int)[0] == has_marker@[i as int]);
            }
            return Option::Some(chain[i].clone());
        }
        i = i + 1;
    }
    proof {
        lemma_no_marker_no_root(has_marker@);
    }
    Option::None
}

} // verus!
