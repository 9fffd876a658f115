use vstd::prelude::*;

verus! {

/// The path of `name` inside the directory `dir`.
pub open spec fn join_spec(dir: Seq<char>, name: Seq<char>) -> Seq<char> {
    dir + seq!['/'] + name
}

/// Joins a directory and a relative name with a `/` separator.
pub fn join(dir: &String, name: &String) -> (r: String)
    ensures
        r@ == join_spec(dir@, name@),
{
    proof {
        reveal_strlit("/");
    }
    let mut r = dir.clone();
    r.append("/");
    r.append(name.as_str());
    r
}

/// The paths of a sequence of strings.
pub open spec fn views_of(v: Seq<String>) -> Seq<Seq<char>> {
    v.map_values(|s: String| s@)
}

/// What is known of the filesystem at one moment: the paths that were found
/// to exist. A path not listed counts as absent.
pub struct FsView {
    pub present: Vec<String>,
}

impl View for FsView {
    type V = Set<Seq<char>>;

    open spec fn view(&self) -> Set<Seq<char>> {
        views_of(self.present@).to_set()
    }
}

impl FsView {
    /// A view in which nothing exists.
    pub fn empty() -> (r: FsView)
        ensures
            r@ == Set::<Seq<char>>::empty(),
    {
        let r = FsView { present: Vec::new() };
        proof {
            assert(views_of(r.present@) =~= Seq::<Seq<char>>::empty());
            assert(r@ =~= Set::<Seq<char>>::empty());
        }
        r
    }

    /// Records that `p` exists.
    pub fn add(&mut self, p: String)
        ensures
            final(self)@ == old(self)@.insert(p@),
    {
        let ghost before = views_of(self.present@);
        self.present.push(p);
        proof {
            let after = views_of(self.present@);
            assert(after =~= before.push(p@));
            assert forall|q: Seq<char>| after.to_set().contains(q) <==> before.to_set().insert(
                p@,
            ).contains(q) by {
                if after.to_set().contains(q) {
                    let i = choose|i: int| 0 <= i < after.len() && after[i] == q;
                    if i < before.len() {
                        assert(before[i] == q);
                    }
                }
                if before.to_set().contains(q) {
                    let i = choose|i: int| 0 <= i < before.len() && before[i] == q;
                    assert(after[i] == q);
                }
                if q == p@ {
                    assert(after[before.len() as int] == q);
                }
            }
            assert(after.to_set() =~= before.to_set().insert(p@));
        }
    }

    /// Whether `p` is known to exist.
    pub fn contains(&self, p: &String) -> (r: bool)
        ensures
            r == self@.contains(p@),
    {
        let ghost v = views_of(self.present@);
        let mut i: usize = 0;
        while i < self.present.len()
            invariant
                i <= self.present.len(),
                v == views_of(self.present@),
                forall|j: int| 0 <= j < i ==> v[j] != p@,
            decreases self.present.len() - i,
        {
            if self.present[i] == *p {
                proof {
                    assert(v[i as int] == p@);
                    assert(v.to_set().contains(p@));
                }
                return true;
            }
            i = i + 1;
        }
        proof {
            if v.to_set().contains(p@) {
                let j = choose|j: int| 0 <= j < v.len() && v[j] == p@;
                assert(false);
            }
        }
        false
    }
}

} // verus!
