use vstd::prelude::*;

verus! {

/// One filesystem path, held as the sequence of its components. The view of a
/// path is the sequence of its components' character sequences.
pub struct FsPath {
    pub comps: Vec<String>,
}

/// The mathematical value of a sequence of path components.
pub open spec fn comps_view(s: Seq<String>) -> Seq<Seq<char>> {
    Seq::new(s.len(), |i: int| s[i]@)
}

impl View for FsPath {
    type V = Seq<Seq<char>>;

    open spec fn view(&self) -> Seq<Seq<char>> {
        comps_view(self.comps@)
    }
}

/// The number of leading components on which the two paths agree.
pub open spec fn common_len(a: Seq<Seq<char>>, b: Seq<Seq<char>>) -> nat
    decreases a.len(),
{
    if a.len() == 0 || b.len() == 0 || a[0] != b[0] {
        0
    } else {
        1 + common_len(a.skip(1), b.skip(1))
    }
}

/// A sequence of `n` parent-directory components.
pub open spec fn dotdots(n: nat) -> Seq<Seq<char>>
    decreases n,
{
    if n == 0 {
        Seq::empty()
    } else {
        dotdots((n - 1) as nat).push("..".view())
    }
}

/// The path that reaches `a` from the directory `b`: one parent step for each
/// component of `b` past the common prefix, then the rest of `a`.
pub open spec fn rel_view(a: Seq<Seq<char>>, b: Seq<Seq<char>>) -> Seq<Seq<char>> {
    dotdots((b.len() - common_len(a, b)) as nat) + a.skip(common_len(a, b) as int)
}

pub proof fn lemma_common_len_bounds(a: Seq<Seq<char>>, b: Seq<Seq<char>>)
    ensures
        common_len(a, b) <= a.len(),
        common_len(a, b) <= b.len(),
        forall|i: int| 0 <= i < common_len(a, b) ==> a[i] == b[i],
    decreases a.len(),
{
    if a.len() == 0 || b.len() == 0 || a[0] != b[0] {
    } else {
        lemma_common_len_bounds(a.skip(1), b.skip(1));
        assert forall|i: int| 0 <= i < common_len(a, b) implies a[i] == b[i] by {
            if i > 0 {
                assert(a.skip(1)[i - 1] == b.skip(1)[i - 1]);
            }
        }
    }
}

/// A pointwise-equal prefix that ends at the length of one path or at a
/// mismatch is exactly the common prefix.
pub proof fn lemma_common_len_exact(a: Seq<Seq<char>>, b: Seq<Seq<char>>, k: nat)
    requires
        k <= a.len(),
        k <= b.len(),
        forall|i: int| 0 <= i < k ==> a[i] == b[i],
        k < a.len() && k < b.len() ==> a[k as int] != b[k as int],
    ensures
        common_len(a, b) == k,
    decreases a.len(),
{
    if a.len() == 0 || b.len() == 0 || a[0] != b[0] {
    } else {
        assert(a[0] == b[0]);
        assert forall|i: int| 0 <= i < k - 1 implies a.skip(1)[i] == b.skip(1)[i] by {
            assert(a[i + 1] == b[i + 1]);
        }
        if k == 0 {
            assert(a[0] != b[0]);
        } else {
            lemma_common_len_exact(a.skip(1), b.skip(1), (k - 1) as nat);
        }
    }
}

pub proof fn lemma_dotdots(n: nat)
    ensures
        dotdots(n).len() == n,
        forall|i: int| 0 <= i < n ==> dotdots(n)[i] == "..".view(),
    decreases n,
{
    if n > 0 {
        lemma_dotdots((n - 1) as nat);
    }
}

impl Clone for FsPath {
    fn clone(&self) -> (r: Self)
        ensures
            r@ == self@,
    {
        let comps = self.comps.clone();
        proof {
            assert forall|i: int| 0 <= i < comps@.len() implies comps@[i] == self.comps@[i] by {
                assert(cloned::<String>(self.comps@[i], comps@[i]));
            }
            assert(comps_view(comps@) =~= comps_view(self.comps@));
        }
        FsPath { comps }
    }
}

impl FsPath {
    pub fn depth(&self) -> (n: usize)
        ensures
            n == self@.len(),
    {
        self.comps.len()
    }

    /// The path of one more component: this path descended into `name`.
    pub fn join(&self, name: &String) -> (r: FsPath)
        ensures
            r@ == self@.push(name@),
    {
        let mut comps = self.comps.clone();
        proof {
            assert forall|i: int| 0 <= i < comps@.len() implies comps@[i] == self.comps@[i] by {
                assert(cloned::<String>(self.comps@[i], comps@[i]));
            }
        }
        comps.push(name.clone());
        proof {
            assert(comps_view(comps@) =~= self@.push(name@));
        }
        FsPath { comps }
    }

    /// The destination that mirrors `tail` under `root`: `root` followed by
    /// the components of `tail` past the first `skip`.
    pub fn strip_join(root: &FsPath, skip: usize, tail: &FsPath) -> (r: FsPath)
        requires
            skip <= tail@.len(),
        ensures
            r@ == root@ + tail@.skip(skip as int),
    {
        let mut comps = root.comps.clone();
        proof {
            assert forall|i: int| 0 <= i < comps@.len() implies comps@[i] == root.comps@[i] by {
                assert(cloned::<String>(root.comps@[i], comps@[i]));
            }
        }
        let mut i: usize = skip;
        while i < tail.comps.len()
            invariant
                skip <= i <= tail.comps.len(),
                comps@.len() == root.comps@.len() + i - skip,
                forall|j: int| 0 <= j < root.comps@.len() ==> comps@[j] == root.comps@[j],
                forall|j: int|
                    root.comps@.len() <= j < comps@.len() ==> comps@[j] == tail.comps@[j
                        - root.comps@.len() + skip],
            decreases tail.comps.len() - i,
        {
            comps.push(tail.comps[i].clone());
            proof {
                assert(cloned::<String>(tail.comps@[i as int], comps@[comps@.len() - 1]));
            }
            i = i + 1;
        }
        proof {
            assert(comps_view(comps@) =~= root@ + tail@.skip(skip as int));
        }
        FsPath { comps }
    }

    /// This path rewritten relative to the directory `base`: one `..` for each
    /// component of `base` past the common prefix, then the rest of this path.
    pub fn relative_to(&self, base: &FsPath) -> (r: FsPath)
        ensures
            r@ == rel_view(self@, base@),
    {
        let a = &self.comps;
        let b = &base.comps;
        let mut k: usize = 0;
        while k < a.len() && k < b.len() && a[k] == b[k]
            invariant
                k <= a.len(),
                k <= b.len(),
                forall|i: int| 0 <= i < k ==> a@[i]@ == b@[i]@,
            decreases a.len() - k,
        {
            k = k + 1;
        }
        proof {
            lemma_common_len_exact(self@, base@, k as nat);
        }
        let mut comps: Vec<String> = Vec::new();
        let mut up: usize = 0;
        let ghost n = (base@.len() - k) as nat;
        while up < b.len() - k
            invariant
                k <= b.len(),
                up <= b.len() - k,
                comps@.len() == up,
                forall|i: int| 0 <= i < up ==> comps@[i]@ == "..".view(),
            decreases b.len() - k - up,
        {
            comps.push("..".to_owned());
            up = up + 1;
        }
        let mut i: usize = k;
        while i < a.len()
            invariant
                k <= i <= a.len(),
                k <= b.len(),
                comps@.len() == b.len() - k + i - k,
                forall|j: int| 0 <= j < b@.len() - k ==> comps@[j]@ == "..".view(),
                forall|j: int|
                    b@.len() - k <= j < comps@.len() ==> comps@[j] == a@[j - (b@.len() - k) + k],
            decreases a.len() - i,
        {
            comps.push(a[i].clone());
            proof {
                assert(cloned::<String>(a@[i as int], comps@[comps@.len() - 1]));
            }
            i = i + 1;
        }
        proof {
            lemma_dotdots(n);
            lemma_common_len_bounds(self@, base@);
            assert(comps_view(comps@) =~= rel_view(self@, base@));
        }
        FsPath { comps }
    }
}

} // verus!
