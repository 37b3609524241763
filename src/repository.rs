//! Discovery of the repositories of a workspace.

use crate::command::texts;
use crate::order::{
    lemma_path_lt_total, lemma_path_lt_transitive, path_less, path_lt, strictly_sorted,
};
use crate::text::owned;
use vstd::prelude::*;

verus! {

/// How many levels below the workspace root a `.git` entry is looked for.
pub const MAX_REPOSITORY_SEARCH_DEPTH: usize = 3;

/// One directory-tree entry met while walking a workspace: its path relative
/// to the workspace root, as components, and whether it is a directory.
#[derive(Debug, Clone)]
pub struct WalkEntry {
    pub components: Vec<String>,
    pub is_dir: bool,
}

/// The entry is a `.git` directory within the search depth.
pub open spec fn is_marker(e: WalkEntry) -> bool {
    &&& e.is_dir
    &&& 1 <= e.components@.len() <= MAX_REPOSITORY_SEARCH_DEPTH
    &&& e.components@.last()@ == ".git"@
}

/// The repository a `.git` entry marks: its parent, relative to the root.
pub open spec fn repo_of(e: WalkEntry) -> Seq<Seq<char>> {
    texts(e.components@).drop_last()
}

/// A list of relative paths seen as component sequences.
pub open spec fn paths(r: Seq<Vec<String>>) -> Seq<Seq<Seq<char>>> {
    r.map_values(|v: Vec<String>| texts(v@))
}

/// Path `p` is marked as a repository by one of the first `n` entries.
pub open spec fn discovered(entries: Seq<WalkEntry>, n: int, p: Seq<Seq<char>>) -> bool {
    exists|k: int| 0 <= k < n && is_marker(#[trigger] entries[k]) && repo_of(entries[k]) == p
}

/// The first `n` components of `v`.
fn prefix(v: &Vec<String>, n: usize) -> (r: Vec<String>)
    requires
        n <= v@.len(),
    ensures
        texts(r@) == texts(v@).take(n as int),
{
    let mut r: Vec<String> = Vec::new();
    let mut j: usize = 0;
    while j < n
        invariant
            j <= n,
            n <= v@.len(),
            texts(r@) == texts(v@).take(j as int),
        decreases n - j,
    {
        let c = v[j].clone();
        assert(c@ == v@[j as int]@);
        r.push(c);
        assert(texts(r@) =~= texts(v@).take(j as int).push(c@));
        assert(texts(r@) =~= texts(v@).take(j as int + 1));
        j = j + 1;
    }
    r
}

/// A copy of a path.
pub(crate) fn copy_path(v: &Vec<String>) -> (r: Vec<String>)
    ensures
        texts(r@) == texts(v@),
{
    let r = prefix(v, v.len());
    assert(texts(v@).take(v@.len() as int) =~= texts(v@));
    r
}

/// Inserts `x` into the strictly sorted `v`, unless it is there already.
fn insert_sorted(v: &mut Vec<Vec<String>>, x: Vec<String>)
    requires
        strictly_sorted(paths(old(v)@)),
    ensures
        strictly_sorted(paths(final(v)@)),
        forall|p: Seq<Seq<char>>| paths(final(v)@).contains(p) <==> (paths(old(v)@).contains(p) || p == texts(x@)),
{
    let ghost tx = texts(x@);
    let ghost old_paths = paths(v@);
    let mut i: usize = 0;
    while i < v.len() && path_less(&v[i], &x)
        invariant
            i <= v@.len(),
            v@ == old(v)@,
            old_paths == paths(v@),
            tx == texts(x@),
            forall|j: int| 0 <= j < i ==> path_lt(#[trigger] old_paths[j], tx),
        decreases v@.len() - i,
    {
        i = i + 1;
    }
    if i < v.len() && !path_less(&x, &v[i]) {
        proof {
            if old_paths[i as int] != tx {
                lemma_path_lt_total(old_paths[i as int], tx);
            }
            assert(old_paths[i as int] == tx);
        }
        return;
    }
    proof {
        if i < v@.len() {
            assert forall|j: int| i < j < old_paths.len() implies path_lt(tx, #[trigger] old_paths[j]) by {
                lemma_path_lt_transitive(tx, old_paths[i as int], old_paths[j]);
            }
        }
    }
    v.insert(i, x);
    proof {
        let np = paths(v@);
        assert(np =~= old_paths.insert(i as int, tx));
        assert forall|a: int, b: int| 0 <= a < b < np.len() implies path_lt(#[trigger] np[a], #[trigger] np[b]) by {
            if b < i {
            } else if a < i && b == i {
            } else if a < i && b > i {
                assert(np[b] == old_paths[b - 1]);
                assert(path_lt(old_paths[a], old_paths[b - 1]));
            } else if a == i {
                assert(np[b] == old_paths[b - 1]);
            } else {
                assert(np[a] == old_paths[a - 1] && np[b] == old_paths[b - 1]);
            }
        }
        assert forall|p: Seq<Seq<char>>| np.contains(p) <==> (old_paths.contains(p) || p == tx) by {
            if np.contains(p) {
                let k = choose|k: int| 0 <= k < np.len() && np[k] == p;
                if k < i {
                    assert(old_paths[k] == p);
                } else if k > i {
                    assert(old_paths[k - 1] == p);
                }
            }
            if old_paths.contains(p) {
                let k = choose|k: int| 0 <= k < old_paths.len() && old_paths[k] == p;
                if k < i {
                    assert(np[k] == p);
                } else {
                    assert(np[k + 1] == p);
                }
            }
            if p == tx {
                assert(np[i as int] == p);
            }
        }
    }
}

/// The repositories of a workspace, from the entries of a walk of its tree:
/// the parent of every `.git` directory at most `MAX_REPOSITORY_SEARCH_DEPTH`
/// levels below the root, each once, in path order.
pub fn find_repositories(entries: &Vec<WalkEntry>) -> (r: Vec<Vec<String>>)
    ensures
        strictly_sorted(paths(r@)),
        forall|p: Seq<Seq<char>>| paths(r@).contains(p) <==> discovered(entries@, entries@.len() as int, p),
        forall|i: int| 0 <= i < r@.len() ==> (#[trigger] paths(r@)[i]).len() < MAX_REPOSITORY_SEARCH_DEPTH,
{
    let mut repos: Vec<Vec<String>> = Vec::new();
    let git = owned(".git");
    let mut k: usize = 0;
    while k < entries.len()
        invariant
            k <= entries@.len(),
            git@ == ".git"@,
            strictly_sorted(paths(repos@)),
            forall|p: Seq<Seq<char>>| paths(repos@).contains(p) <==> discovered(entries@, k as int, p),
        decreases entries@.len() - k,
    {
        let e = &entries[k];
        let n = e.components.len();
        if e.is_dir && n >= 1 && n <= MAX_REPOSITORY_SEARCH_DEPTH && e.components[n - 1] == git {
            let parent = prefix(&e.components, n - 1);
            proof {
                assert(is_marker(entries@[k as int]));
                assert(texts(parent@) =~= repo_of(entries@[k as int]));
            }
            insert_sorted(&mut repos, parent);
            proof {
                assert forall|p: Seq<Seq<char>>| paths(repos@).contains(p) <==> discovered(entries@, k + 1, p) by {
                    if discovered(entries@, k + 1, p) {
                        let j = choose|j: int| 0 <= j < k + 1 && is_marker(#[trigger] entries@[j]) && repo_of(entries@[j]) == p;
                        if j < k {
                            assert(discovered(entries@, k as int, p));
                        }
                    }
                    if discovered(entries@, k as int, p) {
                        let j = choose|j: int| 0 <= j < k && is_marker(#[trigger] entries@[j]) && repo_of(entries@[j]) == p;
                        assert(discovered(entries@, k + 1, p));
                    }
                }
            }
        } else {
            proof {
                assert(!is_marker(entries@[k as int]));
                assert forall|p: Seq<Seq<char>>| paths(repos@).contains(p) <==> discovered(entries@, k + 1, p) by {
                    if discovered(entries@, k + 1, p) {
                        let j = choose|j: int| 0 <= j < k + 1 && is_marker(#[trigger] entries@[j]) && repo_of(entries@[j]) == p;
                        assert(j != k);
                        assert(discovered(entries@, k as int, p));
                    }
                    if discovered(entries@, k as int, p) {
                        let j = choose|j: int| 0 <= j < k && is_marker(#[trigger] entries@[j]) && repo_of(entries@[j]) == p;
                        assert(discovered(entries@, k + 1, p));
                    }
                }
            }
        }
        k = k + 1;
    }
    proof {
        assert forall|i: int| 0 <= i < repos@.len() implies (#[trigger] paths(repos@)[i]).len() < MAX_REPOSITORY_SEARCH_DEPTH by {
            assert(paths(repos@).contains(paths(repos@)[i]));
            let j = choose|j: int| 0 <= j < entries@.len() && is_marker(#[trigger] entries@[j]) && repo_of(entries@[j]) == paths(repos@)[i];
        }
    }
    repos
}

} // verus!
