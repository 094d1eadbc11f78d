//! Paths and sets of files as plain values.
//!
//! A path is the list of its components; which files exist is a set of
//! paths that the caller has found on disk.

use vstd::prelude::*;

verus! {

/// A path as the sequence of its components.
pub type PathView = Seq<Seq<char>>;

/// A path: its components from the outermost directory inwards.
#[derive(Debug, Clone)]
pub struct FilePath {
    pub parts: Vec<String>,
}

impl View for FilePath {
    type V = PathView;

    open spec fn view(&self) -> PathView {
        self.parts@.map_values(|s: String| s@)
    }
}

impl FilePath {
    /// The path with no component.
    pub fn new() -> (r: FilePath)
        ensures
            r@ == PathView::empty(),
    {
        FilePath { parts: Vec::new() }
    }

    /// The number of components.
    pub fn len(&self) -> (n: usize)
        ensures
            n == self@.len(),
    {
        self.parts.len()
    }

    /// The first `depth` components of this path; the whole path where
    /// it has no more than that.
    pub fn ancestor(&self, depth: usize) -> (r: FilePath)
        ensures
            r@ == self@.take(
                if depth <= self@.len() {
                    depth as int
                } else {
                    self@.len() as int
                },
            ),
    {
        let depth: usize = if depth <= self.parts.len() {
            depth
        } else {
            self.parts.len()
        };
        let mut parts: Vec<String> = Vec::new();
        let mut i: usize = 0;
        while i < depth
            invariant
                i <= depth <= self.parts@.len(),
                parts@.len() == i,
                forall|k: int| 0 <= k < i ==> parts@[k]@ == self.parts@[k]@,
            decreases depth - i,
        {
            parts.push(self.parts[i].clone());
            i += 1;
        }
        FilePath { parts }
    }

    /// This path with one more component, `name`, at its end.
    pub fn join(&self, name: &str) -> (r: FilePath)
        ensures
            r@ == self@.push(name@),
    {
        let mut r = self.ancestor(self.parts.len());
        let ghost before = r@;
        r.parts.push(name.to_owned());
        assert(r@ =~= before.push(name@));
        r
    }

    /// Whether two paths have the same components.
    pub fn same(&self, other: &FilePath) -> (r: bool)
        ensures
            r == (self@ == other@),
    {
        if self.parts.len() != other.parts.len() {
            assert(self@.len() != other@.len());
            return false;
        }
        let mut i: usize = 0;
        while i < self.parts.len()
            invariant
                i <= self.parts@.len(),
                self.parts@.len() == other.parts@.len(),
                forall|k: int| 0 <= k < i ==> self@[k] == other@[k],
            decreases self.parts.len() - i,
        {
            if self.parts[i] != other.parts[i] {
                assert(self@[i as int] != other@[i as int]);
                return false;
            }
            i += 1;
        }
        assert(self@ =~= other@);
        true
    }

    /// Whether this path lies at or below `base`.
    pub fn starts_with(&self, base: &FilePath) -> (r: bool)
        ensures
            r == base@.is_prefix_of(self@),
    {
        if base.parts.len() > self.parts.len() {
            return false;
        }
        let mut i: usize = 0;
        while i < base.parts.len()
            invariant
                i <= base.parts@.len() <= self.parts@.len(),
                forall|k: int| 0 <= k < i ==> self@[k] == base@[k],
            decreases base.parts.len() - i,
        {
            if self.parts[i] != base.parts[i] {
                assert(self@.subrange(0, base@.len() as int)[i as int] != base@[i as int]);
                return false;
            }
            i += 1;
        }
        true
    }
}

/// The files that were found to exist.
#[derive(Debug, Clone)]
pub struct FileSet {
    pub paths: Vec<FilePath>,
}

impl View for FileSet {
    type V = Set<PathView>;

    open spec fn view(&self) -> Set<PathView> {
        Set::new(|p: PathView| exists|i: int| 0 <= i < self.paths@.len() && self.paths@[i]@ == p)
    }
}

impl FileSet {
    /// The set with no file.
    pub fn new() -> (r: FileSet)
        ensures
            r@ == Set::<PathView>::empty(),
    {
        FileSet { paths: Vec::new() }
    }

    /// Records that `path` exists.
    pub fn insert(&mut self, path: FilePath)
        ensures
            final(self)@ == old(self)@.insert(path@),
    {
        let ghost before = self.paths@;
        self.paths.push(path);
        assert forall|p: PathView| final(self)@.contains(p) == old(self)@.insert(path@).contains(
            p,
        ) by {
            if old(self)@.contains(p) {
                let i = choose|i: int| 0 <= i < before.len() && before[i]@ == p;
                assert(self.paths@[i]@ == p);
            }
            if p == path@ {
                assert(self.paths@[before.len() as int]@ == p);
            }
        }
    }

    /// Whether `path` is among the files that exist.
    pub fn contains(&self, path: &FilePath) -> (r: bool)
        ensures
            r == self@.contains(path@),
    {
        let mut i: usize = 0;
        while i < self.paths.len()
            invariant
                i <= self.paths@.len(),
                forall|k: int| 0 <= k < i ==> self.paths@[k]@ != path@,
            decreases self.paths.len() - i,
        {
            if self.paths[i].same(path) {
                return true;
            }
            i += 1;
        }
        false
    }
}

} // verus!
