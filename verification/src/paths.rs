//! Paths kept as the directory the platform names and the names below it.
use vstd::prelude::*;

use crate::history::string_views;
use crate::text::copy_str;

verus! {

/// A path: a directory the platform names (which this library does not look
/// into), followed by names below it.
#[derive(Debug)]
pub struct PathParts {
    /// The directory the path starts from.
    pub root: std::path::PathBuf,
    /// The names below it, outermost first.
    pub parts: Vec<String>,
}

impl PathParts {
    /// The names below the root, as character sequences.
    pub open spec fn names(&self) -> Seq<Seq<char>> {
        string_views(self.parts@)
    }

    /// The root directory itself.
    pub fn new(root: std::path::PathBuf) -> (p: PathParts)
        ensures
            p.root == root,
            p.names() == Seq::<Seq<char>>::empty(),
    {
        let p = PathParts { root, parts: Vec::new() };
        assert(p.names() =~= Seq::<Seq<char>>::empty());
        p
    }

    /// The path one name further down.
    pub fn join(self, name: &str) -> (p: PathParts)
        ensures
            p.root == self.root,
            p.names() == self.names().push(name@),
    {
        let ghost before = self.names();
        let mut parts = self.parts;
        parts.push(copy_str(name));
        let p = PathParts { root: self.root, parts };
        assert(p.names() =~= before.push(name@));
        p
    }
}

} // verus!
