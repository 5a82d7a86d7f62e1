//! Paths as the engine sees them: a configured root and the names below it.

use vstd::prelude::*;
use vstd::string::StringExecFns;

verus! {

/// The mathematical value of a [`SyncPath`].
pub struct PathModel {
    pub root: Seq<char>,
    pub parts: Seq<Seq<char>>,
}

/// The values held by a sequence, each taken by its view.
pub open spec fn views<T: View>(items: Seq<T>) -> Seq<T::V> {
    Seq::new(items.len(), |i: int| items[i]@)
}

/// The text shown for a path: the root, then each name behind a `/`.
pub open spec fn path_text(p: PathModel) -> Seq<char>
    decreases p.parts.len(),
{
    if p.parts.len() == 0 {
        p.root
    } else {
        path_text(PathModel { root: p.root, parts: p.parts.drop_last() }) + seq!['/']
            + p.parts.last()
    }
}

/// The path of the entry `name` inside the directory `dir`.
pub open spec fn child_of(dir: PathModel, name: Seq<char>) -> PathModel {
    PathModel { root: dir.root, parts: dir.parts.push(name) }
}

/// A path below one of the configured roots.
///
/// The root is kept as the caller wrote it; `parts` are the entry names that
/// lead from the root to the path, outermost first.
#[derive(Debug, PartialEq, Eq)]
pub struct SyncPath {
    pub root: String,
    pub parts: Vec<String>,
}

impl View for SyncPath {
    type V = PathModel;

    open spec fn view(&self) -> PathModel {
        PathModel { root: self.root@, parts: views(self.parts@) }
    }
}

impl Clone for SyncPath {
    fn clone(&self) -> (r: Self)
        ensures
            r@ == self@,
    {
        let mut parts: Vec<String> = Vec::new();
        let mut i: usize = 0;
        while i < self.parts.len()
            invariant
                i <= self.parts.len(),
                parts@.len() == i,
                forall|j: int| 0 <= j < i ==> parts@[j]@ == self.parts@[j]@,
            decreases self.parts.len() - i,
        {
            parts.push(self.parts[i].clone());
            i = i + 1;
        }
        assert(views(parts@) =~= views(self.parts@));
        SyncPath { root: self.root.clone(), parts }
    }
}

impl SyncPath {
    /// The path of a configured root itself.
    pub fn new(root: String) -> (r: Self)
        ensures
            r@ == (PathModel { root: root@, parts: Seq::empty() }),
    {
        let r = SyncPath { root, parts: Vec::new() };
        assert(views(r.parts@) =~= Seq::empty());
        r
    }

    /// The path of the entry `name` inside this directory.
    pub fn child(&self, name: &String) -> (r: Self)
        ensures
            r@ == child_of(self@, name@),
    {
        let mut r = self.clone();
        r.parts.push(name.clone());
        assert(views(r.parts@) =~= views(self.parts@).push(name@));
        r
    }

    /// The name of the entry itself, if the path is below its root.
    pub fn file_name(&self) -> (r: Option<&String>)
        ensures
            self@.parts.len() == 0 <==> r is None,
            r matches Some(n) ==> n@ == self@.parts.last(),
    {
        let n = self.parts.len();
        if n == 0 {
            None
        } else {
            Some(&self.parts[n - 1])
        }
    }

    /// The text shown for the path in log messages.
    pub fn display(&self) -> (r: String)
        ensures
            r@ == path_text(self@),
    {
        let mut r = self.root.clone();
        let mut i: usize = 0;
        while i < self.parts.len()
            invariant
                i <= self.parts.len(),
                r@ == path_text(PathModel { root: self.root@, parts: views(self.parts@).take(i as int) }),
            decreases self.parts.len() - i,
        {
            proof {
                reveal_strlit("/");
                let next = views(self.parts@).take(i + 1);
                assert(next.drop_last() == views(self.parts@).take(i as int));
                assert(next.last() == self.parts@[i as int]@);
                assert("/"@ == seq!['/']);
            }
            r.append("/");
            r.append(self.parts[i].as_str());
            i = i + 1;
        }
        proof {
            assert(views(self.parts@).take(self.parts.len() as int) == views(self.parts@));
        }
        r
    }
}

} // verus!
