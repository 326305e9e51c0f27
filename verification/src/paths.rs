//! Filesystem paths as the library reasons about them: an optional root
//! (`/`, or a drive prefix with its root) and a sequence of components.

use vstd::prelude::*;

verus! {

/// A path: `root` is present for an absolute path and holds its text;
/// `parts` are its components after the root, in order.
#[derive(Debug)]
pub struct FsPath {
    pub root: Option<String>,
    pub parts: Vec<String>,
}

/// The mathematical model of a path.
pub struct PathModel {
    pub root: Option<Seq<char>>,
    pub parts: Seq<Seq<char>>,
}

/// Text of an optional string.
pub open spec fn opt_text(o: Option<String>) -> Option<Seq<char>> {
    match o {
        Some(s) => Some(s@),
        None => None,
    }
}

impl View for FsPath {
    type V = PathModel;

    open spec fn view(&self) -> PathModel {
        PathModel { root: opt_text(self.root), parts: self.parts.deep_view() }
    }
}

/// `base` joined with `p`: an absolute `p` replaces `base`; a relative one
/// extends it.
pub open spec fn join_spec(base: PathModel, p: PathModel) -> PathModel {
    if p.root is Some {
        p
    } else {
        PathModel { root: base.root, parts: base.parts + p.parts }
    }
}

/// `base` extended by one component.
pub open spec fn child_spec(base: PathModel, name: Seq<char>) -> PathModel {
    PathModel { root: base.root, parts: base.parts.push(name) }
}

fn clone_opt(o: &Option<String>) -> (r: Option<String>)
    ensures
        opt_text(r) == opt_text(*o),
{
    match o {
        Some(s) => Some(s.clone()),
        None => None,
    }
}

/// Copies of the strings of `v`, in order.
pub fn clone_strings(v: &Vec<String>) -> (r: Vec<String>)
    ensures
        r.deep_view() == v.deep_view(),
        r@.len() == v@.len(),
        forall|j: int| 0 <= j < v@.len() ==> #[trigger] r@[j]@ == v@[j]@,
{
    let mut r: Vec<String> = Vec::new();
    let mut i: usize = 0;
    while i < v.len()
        invariant
            i <= v.len(),
            r@.len() == i,
            forall|j: int| 0 <= j < i ==> #[trigger] r@[j]@ == v@[j]@,
        decreases v.len() - i,
    {
        let ghost prev = r@;
        r.push(v[i].clone());
        assert(r@ == prev.push(v@[i as int]));
        i = i + 1;
    }
    assert(r.deep_view() =~= v.deep_view());
    r
}

impl FsPath {
    /// A copy of the path.
    pub fn duplicate(&self) -> (r: FsPath)
        ensures
            r@ == self@,
    {
        FsPath { root: clone_opt(&self.root), parts: clone_strings(&self.parts) }
    }

    /// Whether the path is relative.
    pub fn is_relative(&self) -> (r: bool)
        ensures
            r == (self@.root is None),
    {
        self.root.is_none()
    }

    /// `self` joined with `p`.
    pub fn join(&self, p: &FsPath) -> (r: FsPath)
        ensures
            r@ == join_spec(self@, p@),
    {
        if p.root.is_some() {
            p.duplicate()
        } else {
            let mut parts = clone_strings(&self.parts);
            let n = parts.len();
            let mut i: usize = 0;
            while i < p.parts.len()
                invariant
                    i <= p.parts.len(),
                    n == self.parts@.len(),
                    parts@.len() == n + i,
                    forall|j: int| 0 <= j < n ==> #[trigger] parts@[j]@ == self.parts@[j]@,
                    forall|j: int| 0 <= j < i ==> #[trigger] parts@[n + j]@ == p.parts@[j]@,
                decreases p.parts.len() - i,
            {
                let ghost prev = parts@;
                parts.push(p.parts[i].clone());
                assert(parts@ == prev.push(p.parts@[i as int]));
                i = i + 1;
            }
            assert forall|j: int| 0 <= j < parts@.len() implies #[trigger] parts.deep_view()[j] == (
            self.parts.deep_view() + p.parts.deep_view())[j] by {
                if j >= n {
                    assert(parts@[n + (j - n)]@ == p.parts@[j - n]@);
                }
            }
            assert(parts.deep_view() =~= self.parts.deep_view() + p.parts.deep_view());
            FsPath { root: clone_opt(&self.root), parts }
        }
    }

    /// `self` extended by the component `name`.
    pub fn child(&self, name: &str) -> (r: FsPath)
        ensures
            r@ == child_spec(self@, name@),
    {
        let mut parts = clone_strings(&self.parts);
        let ghost prev = parts@;
        parts.push(name.to_string());
        assert(parts@ == prev.push(parts@[prev.len() as int]));
        assert(parts.deep_view() =~= self.parts.deep_view().push(name@));
        FsPath { root: clone_opt(&self.root), parts }
    }
}

/// Whether two paths are the same.
pub fn paths_equal(a: &FsPath, b: &FsPath) -> (r: bool)
    ensures
        r == (a@ == b@),
{
    let roots_equal = match (&a.root, &b.root) {
        (Some(x), Some(y)) => crate::text::str_eq(x.as_str(), y.as_str()),
        (None, None) => true,
        _ => false,
    };
    if !roots_equal {
        return false;
    }
    if a.parts.len() != b.parts.len() {
        assert(a@.parts.len() != b@.parts.len());
        return false;
    }
    let mut i: usize = 0;
    while i < a.parts.len()
        invariant
            i <= a.parts.len(),
            a.parts.len() == b.parts.len(),
            forall|k: int| 0 <= k < i ==> #[trigger] a@.parts[k] == b@.parts[k],
        decreases a.parts.len() - i,
    {
        if !crate::text::str_eq(a.parts[i].as_str(), b.parts[i].as_str()) {
            assert(a@.parts[i as int] != b@.parts[i as int]);
            return false;
        }
        i = i + 1;
    }
    assert(a@.parts =~= b@.parts);
    true
}

} // verus!
