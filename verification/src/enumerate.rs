//! Enumerating library units under the root: a recursive walk of a directory
//! tree that pairs every file carrying the library extension with its test
//! project, in traversal order.

use crate::path_util::is_lib_file;
use crate::unit::Test;
use vstd::prelude::*;
use vstd::seq_lib::*;

verus! {

/// A directory tree as the enumerator sees it: each entry is a regular file
/// or a directory with its entries in listing order. Entries of any other
/// kind are not represented; the walk ignores them.
pub enum FsNode {
    File { path: String },
    Dir { path: String, children: Vec<FsNode> },
}

/// Paths of all files anywhere under this node, in traversal order.
pub open spec fn all_files(n: FsNode) -> Seq<Seq<char>>
    decreases n,
{
    match n {
        FsNode::File { path } => seq![path@],
        FsNode::Dir { path: _, children } => all_files_of(children@),
    }
}

/// Paths of all files under a list of sibling entries, in order.
pub open spec fn all_files_of(s: Seq<FsNode>) -> Seq<Seq<char>>
    decreases s,
{
    if s.len() == 0 {
        Seq::empty()
    } else {
        all_files(s[0]) + all_files_of(s.drop_first())
    }
}

/// The predicate that picks library unit files out of a file listing.
pub open spec fn lib_pred() -> spec_fn(Seq<char>) -> bool {
    |p: Seq<char>| is_lib_file(p)
}

/// Paths of exactly those files under `n` that carry the library extension,
/// regardless of nesting depth, in traversal order.
pub open spec fn lib_files(n: FsNode) -> Seq<Seq<char>> {
    all_files(n).filter(lib_pred())
}

/// `ts` pairs each path of `paths` with its test project, one unit per path,
/// in order.
pub open spec fn units_match(ts: Seq<Test>, paths: Seq<Seq<char>>) -> bool {
    &&& ts.len() == paths.len()
    &&& forall|i: int| 0 <= i < ts.len() ==> (#[trigger] ts[i]).wf() && ts[i].library@ == paths[i]
}

proof fn lemma_all_files_of_add(a: Seq<FsNode>, b: Seq<FsNode>)
    ensures
        all_files_of(a + b) == all_files_of(a) + all_files_of(b),
    decreases a.len(),
{
    if a.len() == 0 {
        assert(a + b =~= b);
        assert(all_files_of(a) + all_files_of(b) =~= all_files_of(b));
    } else {
        assert((a + b).drop_first() =~= a.drop_first() + b);
        assert((a + b)[0] == a[0]);
        lemma_all_files_of_add(a.drop_first(), b);
        assert(all_files(a[0]) + (all_files_of(a.drop_first()) + all_files_of(b)) =~= (all_files(
            a[0],
        ) + all_files_of(a.drop_first())) + all_files_of(b));
    }
}

proof fn lemma_all_files_of_snoc(s: Seq<FsNode>, i: int)
    requires
        0 <= i < s.len(),
    ensures
        all_files_of(s.take(i + 1)) == all_files_of(s.take(i)) + all_files(s[i]),
{
    assert(s.take(i + 1) =~= s.take(i) + seq![s[i]]);
    lemma_all_files_of_add(s.take(i), seq![s[i]]);
    assert(seq![s[i]].drop_first() =~= Seq::<FsNode>::empty());
    assert(seq![s[i]][0] == s[i]);
    assert(all_files_of(Seq::<FsNode>::empty()) =~= Seq::<Seq<char>>::empty());
    assert(all_files(s[i]) + Seq::<Seq<char>>::empty() =~= all_files(s[i]));
    assert(all_files_of(seq![s[i]]) =~= all_files(s[i]));
}

/// Walk the tree under `node` and emit one test per library unit file found
/// anywhere beneath it: exactly the files whose name carries the library
/// extension, in traversal order, each paired with its test-project path.
#[verifier::loop_isolation(false)]
pub fn enumerate_tests(node: &FsNode) -> (r: Vec<Test>)
    ensures
        units_match(r@, lib_files(*node)),
    decreases *node,
{
    broadcast use Seq::filter_distributes_over_add;

    match node {
        FsNode::File { path } => {
            let mut r: Vec<Test> = Vec::new();
            proof {
                reveal_with_fuel(Seq::<_>::filter, 2);
                assert(seq![path@].drop_last() =~= Seq::<Seq<char>>::empty());
            }
            if crate::path_util::has_lib_extension(path.as_str()) {
                r.push(Test::new(path.clone()));
            }
            r
        },
        FsNode::Dir { path: _, children } => {
            let mut r: Vec<Test> = Vec::new();
            let n = children.len();
            proof {
                assert(children@.take(0) =~= Seq::<FsNode>::empty());
                reveal_with_fuel(Seq::<_>::filter, 1);
            }
            let mut i: usize = 0;
            while i < n
                invariant
                    i <= n,
                    n == children@.len(),
                    units_match(r@, all_files_of(children@.take(i as int)).filter(lib_pred())),
                decreases n - i,
            {
                proof {
                    assert(*children == node->Dir_children);
                    assert(decreases_to!(*node => node->Dir_children));
                    assert(decreases_to!(node->Dir_children => node->Dir_children@));
                    assert(decreases_to!(node->Dir_children@ => node->Dir_children@[i as int]));
                }
                let mut sub = enumerate_tests(&children[i]);
                let ghost pre = r@;
                let ghost sub_snap = sub@;
                r.append(&mut sub);
                proof {
                    lemma_all_files_of_snoc(children@, i as int);
                    let before = all_files_of(children@.take(i as int));
                    let here = all_files(children@[i as int]);
                    Seq::filter_distributes_over_add(before, here, lib_pred());
                    assert forall|j: int|
                        0 <= j < r@.len() implies (#[trigger] r@[j]).wf() && r@[j].library@
                        == (before + here).filter(lib_pred())[j] by {
                        if j < pre.len() {
                            assert(r@[j] == pre[j]);
                            assert((before.filter(lib_pred()) + here.filter(lib_pred()))[j]
                                == before.filter(lib_pred())[j]);
                        } else {
                            assert(r@[j] == sub_snap[j - pre.len()]);
                        }
                    }
                }
                i = i + 1;
            }
            proof {
                assert(children@.take(n as int) =~= children@);
            }
            r
        },
    }
}

} // verus!
