use vstd::prelude::*;

verus! {

/// A filesystem path held as its components, outermost first
/// (`/opt/app/shell` is `["/", "opt", "app", "shell"]`).
pub struct FsPath {
    pub parts: Vec<String>,
}

/// The characters of each component.
pub open spec fn views_of(parts: Seq<String>) -> Seq<Seq<char>> {
    parts.map_values(|s: String| s@)
}

impl View for FsPath {
    type V = Seq<Seq<char>>;

    open spec fn view(&self) -> Seq<Seq<char>> {
        views_of(self.parts@)
    }
}

impl FsPath {
    /// The empty path, which stands for the current directory.
    pub fn new() -> (r: FsPath)
        ensures
            r@ == Seq::<Seq<char>>::empty(),
    {
        let r = FsPath { parts: Vec::new() };
        assert(r@ =~= Seq::<Seq<char>>::empty());
        r
    }

    /// A path made of the given components.
    pub fn from_parts(parts: Vec<String>) -> (r: FsPath)
        ensures
            r@ == views_of(parts@),
    {
        FsPath { parts }
    }

    /// How many components the path has.
    pub fn len(&self) -> (n: usize)
        ensures
            n == self@.len(),
    {
        self.parts.len()
    }

    /// The component at `i`.
    pub fn component(&self, i: usize) -> (r: &str)
        requires
            i < self@.len(),
        ensures
            r@ == self@[i as int],
    {
        self.parts[i].as_str()
    }

    /// The path made of the first `n` components.
    pub fn prefix(&self, n: usize) -> (r: FsPath)
        requires
            n <= self@.len(),
        ensures
            r@ == self@.take(n as int),
    {
        let mut parts: Vec<String> = Vec::new();
        let mut i: usize = 0;
        while i < n
            invariant
                n <= self@.len(),
                i <= n,
                views_of(parts@) == self@.take(i as int),
            decreases n - i,
        {
            let ghost before = parts@;
            let c = self.parts[i].clone();
            parts.push(c);
            assert(parts@ == before.push(self.parts@[i as int]));
            assert(views_of(before).len() == i);
            i = i + 1;
            assert forall|j: int| 0 <= j < i implies #[trigger] views_of(parts@)[j] == self@.take(
                i as int,
            )[j] by {
                if j < i - 1 {
                    assert(views_of(before)[j] == self@.take(i - 1)[j]);
                }
            }
            assert(views_of(parts@) =~= self@.take(i as int));
        }
        FsPath { parts }
    }

    /// This path with `name` appended as its last component.
    pub fn join(&self, name: &str) -> (r: FsPath)
        ensures
            r@ == self@.push(name@),
    {
        let mut r = self.prefix(self.parts.len());
        assert(self@.take(self@.len() as int) =~= self@);
        r.parts.push(name.to_owned());
        assert(r@ =~= self@.push(name@));
        r
    }
}

} // verus!
