use vstd::prelude::*;

use crate::path::FsPath;

verus! {

/// One observed directory and its observed subdirectories, as the runtime's
/// listing found them.
pub struct DirTree {
    pub path: FsPath,
    pub subdirs: Vec<DirTree>,
}

/// The mathematical values of a sequence of paths.
pub open spec fn paths_view(s: Seq<FsPath>) -> Seq<Seq<Seq<char>>> {
    Seq::new(s.len(), |i: int| s[i]@)
}

/// The removal order of the first `n` subtrees of a forest, in order.
pub open spec fn prune_upto(ts: Seq<DirTree>, n: int) -> Seq<Seq<Seq<char>>>
    decreases ts, n,
{
    if n <= 0 || n > ts.len() {
        Seq::empty()
    } else {
        prune_upto(ts, n - 1) + prune_order(ts[n - 1])
    }
}

/// The post-order removal sequence of a directory tree: every subdirectory's
/// whole sequence first, the root last — so each directory is attempted only
/// after all of its descendants.
pub open spec fn prune_order(t: DirTree) -> Seq<Seq<Seq<char>>>
    decreases t, t.subdirs@.len() + 1,
{
    prune_upto(t.subdirs@, t.subdirs@.len() as int) + seq![t.path@]
}

/// The best-effort cleanup pass after a delete: the removal attempts for a
/// directory tree, in post order. Every directory appears after all of its
/// descendants, the root last; the runtime attempts each removal and discards
/// every error, since emptiness cannot be guaranteed against concurrent leaf
/// deletions.
pub fn remove_empty_dirs(dir: &DirTree) -> (r: Vec<FsPath>)
    ensures
        paths_view(r@) == prune_order(*dir),
        paths_view(r@).len() > 0,
        paths_view(r@).last() == dir.path@,
    decreases *dir,
{
    let mut out: Vec<FsPath> = Vec::new();
    let mut i: usize = 0;
    while i < dir.subdirs.len()
        invariant
            i <= dir.subdirs@.len(),
            paths_view(out@) == prune_upto(dir.subdirs@, i as int),
        decreases dir.subdirs@.len() - i,
    {
        proof {
            assert(decreases_to!(*dir => dir.subdirs@[i as int]));
        }
        let mut sub = remove_empty_dirs(&dir.subdirs[i]);
        let ghost out_pre = paths_view(out@);
        let ghost sub_v = paths_view(sub@);
        out.append(&mut sub);
        proof {
            assert(paths_view(out@) =~= out_pre + sub_v);
            assert(paths_view(out@) =~= prune_upto(dir.subdirs@, i + 1));
        }
        i = i + 1;
    }
    let ghost out_pre = paths_view(out@);
    out.push(dir.path.clone());
    proof {
        assert(paths_view(out@) =~= out_pre + seq![dir.path@]);
    }
    out
}

} // verus!
