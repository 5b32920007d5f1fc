//! Path manipulation over unicode paths, viewed as character sequences.
//!
//! A library unit is a file whose name carries the fixed library extension;
//! its test project lives at the same path with that extension replaced by the
//! fixed test-project extension. Paths here use `/` as the component
//! separator.

use vstd::prelude::*;
use vstd::string::StrSliceExecFns;
use vstd::string::StringExecFns;

verus! {

/// The extension (with its leading dot) that identifies a library unit file.
pub open spec fn lib_ext() -> Seq<char> {
    seq!['.', 'h', 'p', 'p']
}

/// The extension (with its leading dot) of a unit's test-project directory.
pub open spec fn test_ext() -> Seq<char> {
    seq!['.', 't', 'e', 's', 't']
}

/// Index of the first character of the path's file name, i.e. the position
/// just after the last separator (0 when the path has no separator).
pub open spec fn file_name_start(p: Seq<char>) -> int
    decreases p.len(),
{
    if p.len() == 0 {
        0
    } else if p[p.len() - 1] == '/' {
        p.len() as int
    } else {
        file_name_start(p.drop_last())
    }
}

pub proof fn lemma_file_name_start_bounds(p: Seq<char>)
    ensures
        0 <= file_name_start(p) <= p.len(),
    decreases p.len(),
{
    if p.len() != 0 && p[p.len() - 1] != '/' {
        lemma_file_name_start_bounds(p.drop_last());
    }
}

/// The character before the file name (when there is one) is a separator, and
/// the file name itself holds no separator.
pub proof fn lemma_file_name_start_char(p: Seq<char>)
    ensures
        file_name_start(p) > 0 ==> file_name_start(p) <= p.len() && p[file_name_start(p)
            - 1] == '/',
        forall|j: int| file_name_start(p) <= j < p.len() ==> p[j] != '/',
    decreases p.len(),
{
    lemma_file_name_start_bounds(p);
    if p.len() != 0 && p[p.len() - 1] != '/' {
        lemma_file_name_start_char(p.drop_last());
        assert forall|j: int| file_name_start(p) <= j < p.len() implies p[j] != '/' by {
            if j < p.len() - 1 {
                assert(p.drop_last()[j] == p[j]);
            }
        }
    }
}

/// A path names a library unit file: its file name is long enough to carry a
/// stem and ends in the library extension.
pub open spec fn is_lib_file(p: Seq<char>) -> bool {
    &&& p.len() >= file_name_start(p) + 5
    &&& p.subrange(p.len() - 4, p.len() as int) == lib_ext()
}

/// The test-project path of a library unit: the unit's path with its
/// extension replaced by the test-project extension.
pub open spec fn project_of(p: Seq<char>) -> Seq<char> {
    p.subrange(0, p.len() - 4) + test_ext()
}

/// Replacing the extension commutes with renaming: for every base path, the
/// unit `base + ".hpp"` is paired with the project `base + ".test"`, so
/// changing a unit's name while keeping its extension changes the project
/// path correspondingly and nothing else.
pub proof fn lemma_project_replaces_extension(base: Seq<char>)
    ensures
        project_of(base + lib_ext()) == base + test_ext(),
{
    let p = base + lib_ext();
    assert(p.subrange(0, p.len() - 4) =~= base);
    assert(project_of(p) =~= base + test_ext());
}

/// Index of the first character of `s`'s file name (see [`file_name_start`]).
pub fn find_name_start(s: &str) -> (k: usize)
    ensures
        k as int == file_name_start(s@),
{
    let n = s.unicode_len();
    let mut i: usize = n;
    proof {
        assert(s@.take(n as int) =~= s@);
    }
    while i > 0
        invariant
            i <= n,
            n as int == s@.len(),
            file_name_start(s@) == file_name_start(s@.take(i as int)),
        decreases i,
    {
        if s.get_char(i - 1) == '/' {
            proof {
                assert(s@.take(i as int)[i - 1] == s@[i - 1]);
            }
            return i;
        }
        proof {
            assert(s@.take(i as int)[i - 1] == s@[i - 1]);
            assert(s@.take(i as int).drop_last() =~= s@.take(i as int - 1));
        }
        i = i - 1;
    }
    proof {
        assert(s@.take(0) =~= Seq::<char>::empty());
    }
    0
}

/// Does `s` name a library unit file?
pub fn has_lib_extension(s: &str) -> (b: bool)
    ensures
        b == is_lib_file(s@),
{
    let n = s.unicode_len();
    let k = find_name_start(s);
    proof {
        lemma_file_name_start_bounds(s@);
    }
    if n < 5 || n - k < 5 {
        return false;
    }
    let b = s.get_char(n - 4) == '.' && s.get_char(n - 3) == 'h' && s.get_char(n - 2) == 'p'
        && s.get_char(n - 1) == 'p';
    proof {
        let tail = s@.subrange(n as int - 4, n as int);
        assert(tail[0] == s@[n as int - 4]);
        assert(tail[1] == s@[n as int - 3]);
        assert(tail[2] == s@[n as int - 2]);
        assert(tail[3] == s@[n as int - 1]);
        if b {
            assert(tail =~= lib_ext());
        }
    }
    b
}

/// Compute a unit's test-project path: the path with its library extension
/// replaced by the test-project extension.
pub fn with_test_extension(s: &str) -> (r: String)
    requires
        is_lib_file(s@),
    ensures
        r@ == project_of(s@),
{
    proof {
        lemma_file_name_start_bounds(s@);
    }
    let n = s.unicode_len();
    let stem = s.substring_char(0, n - 4);
    let r = String::from_str(stem).concat(".test");
    proof {
        reveal_strlit(".test");
        assert(".test"@ =~= test_ext());
        assert(r@ =~= project_of(s@));
    }
    r
}

/// A path rendered relative to a root: when the path starts with the root
/// followed by a separator, that prefix is removed; otherwise the path stands
/// unchanged.
pub open spec fn spec_root_removed(path: Seq<char>, root: Seq<char>) -> Seq<char> {
    let pre = root.push('/');
    if pre.is_prefix_of(path) {
        path.skip(pre.len() as int)
    } else {
        path
    }
}

fn matches_root_prefix(path: &str, root: &str) -> (b: bool)
    ensures
        b == root@.push('/').is_prefix_of(path@),
{
    let n = path.unicode_len();
    let rl = root.unicode_len();
    let ghost pre = root@.push('/');
    if n < rl || n - rl < 1 {
        return false;
    }
    let mut j: usize = 0;
    while j < rl
        invariant
            j <= rl,
            rl as int == root@.len(),
            n as int == path@.len(),
            n >= rl + 1,
            pre == root@.push('/'),
            forall|t: int| 0 <= t < j ==> path@[t] == root@[t],
        decreases rl - j,
    {
        if path.get_char(j) != root.get_char(j) {
            proof {
                assert(pre[j as int] == root@[j as int]);
                if pre.is_prefix_of(path@) {
                    assert(path@.subrange(0, pre.len() as int)[j as int] == path@[j as int]);
                }
            }
            return false;
        }
        j = j + 1;
    }
    let b = path.get_char(rl) == '/';
    proof {
        if b {
            assert(pre =~= path@.subrange(0, pre.len() as int));
        } else {
            assert(pre[rl as int] == '/');
            if pre.is_prefix_of(path@) {
                assert(path@.subrange(0, pre.len() as int)[rl as int] == path@[rl as int]);
            }
        }
    }
    b
}

/// Render `path` relative to `root` when `root/` is a prefix of it; return it
/// unchanged otherwise.
pub fn path_root_removed(path: &str, root: &str) -> (r: String)
    ensures
        r@ == spec_root_removed(path@, root@),
{
    let n = path.unicode_len();
    let rl = root.unicode_len();
    if matches_root_prefix(path, root) {
        proof {
            assert(root@.push('/').len() == rl + 1);
        }
        let rest = path.substring_char(rl + 1, n);
        proof {
            assert(rest@ =~= path@.skip(rl as int + 1));
        }
        String::from_str(rest)
    } else {
        String::from_str(path)
    }
}

/// A normalized absolute path: starts at the filesystem root, carries no
/// trailing separator (except for the root itself) and no empty component.
pub open spec fn is_normalized_abs(p: Seq<char>) -> bool {
    &&& p.len() >= 1
    &&& p[0] == '/'
    &&& (p.len() == 1 || p[p.len() - 1] != '/')
    &&& forall|i: int| 0 <= i < p.len() - 1 ==> !(p[i] == '/' && #[trigger] p[i + 1] == '/')
}

/// The parent directory of a path: everything before its file name, with the
/// filesystem root as the fixed point. `None` for the filesystem root itself.
pub open spec fn parent_of(p: Seq<char>) -> Option<Seq<char>> {
    if p.len() <= 1 {
        None
    } else {
        let k = file_name_start(p);
        if k <= 1 {
            Some(seq!['/'])
        } else {
            Some(p.take(k - 1))
        }
    }
}

/// Stepping to the parent keeps a normalized absolute path normalized and
/// strictly shortens it, so the upward walk terminates.
pub proof fn lemma_parent_normalized(p: Seq<char>)
    requires
        is_normalized_abs(p),
        parent_of(p) is Some,
    ensures
        is_normalized_abs(parent_of(p)->0),
        parent_of(p)->0.len() < p.len(),
{
    lemma_file_name_start_bounds(p);
    lemma_file_name_start_char(p);
    let k = file_name_start(p);
    if k > 1 {
        let q = p.take(k - 1);
        assert(q[0] == p[0]);
        assert(p[k - 1] == '/');
        assert(!(p[k - 2] == '/' && p[k - 2 + 1] == '/'));
        assert(q.len() == 1 || q[q.len() - 1] != '/');
    }
}

/// The parent directory of a normalized absolute path, `None` for the
/// filesystem root.
pub fn parent_dir(s: &str) -> (r: Option<String>)
    requires
        is_normalized_abs(s@),
    ensures
        match parent_of(s@) {
            Option::None => r is None,
            Option::Some(q) => r is Some && r->0@ == q,
        },
{
    let n = s.unicode_len();
    if n <= 1 {
        return Option::None;
    }
    let k = find_name_start(s);
    proof {
        lemma_file_name_start_bounds(s@);
    }
    if k <= 1 {
        let root = String::from_str("/");
        proof {
            reveal_strlit("/");
            assert(root@ =~= seq!['/']);
        }
        Option::Some(root)
    } else {
        Option::Some(String::from_str(s.substring_char(0, k - 1)))
    }
}

} // verus!
