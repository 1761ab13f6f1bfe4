//! Places in the file system.

use crate::text::{self, owned};
use std::path::PathBuf;
use vstd::prelude::*;

verus! {

/// `std::path::PathBuf`, carried through unread.
#[verifier::external_type_specification]
#[verifier::external_body]
pub struct ExPathBuf(std::path::PathBuf);

/// `Clone` of `std::path::PathBuf`: the copy is the same path.
pub assume_specification[ <std::path::PathBuf as Clone>::clone ](
    p: &std::path::PathBuf,
) -> (r: std::path::PathBuf)
    ensures
        r == *p,
;

/// `directories::BaseDirs::cache_dir`: the user's cache directory, if there is a home directory.
/// Nothing is claimed of it: it depends on the environment.
#[verifier::external_body]
pub(crate) fn system_cache_dir() -> (r: Option<PathBuf>)
{
    match directories::BaseDirs::new() {
        Some(dirs) => Some(dirs.cache_dir().to_path_buf()),
        None => None,
    }
}

/// `directories::BaseDirs::config_dir`: the user's configuration directory, if there is a home
/// directory. Nothing is claimed of it: it depends on the environment.
#[verifier::external_body]
pub(crate) fn system_config_dir() -> (r: Option<PathBuf>)
{
    match directories::BaseDirs::new() {
        Some(dirs) => Some(dirs.config_dir().to_path_buf()),
        None => None,
    }
}

/// A directory, and the names that lead from it to a place below, one inside the other.
#[derive(Debug, PartialEq, Eq)]
pub struct FilePath {
    pub root: PathBuf,
    pub parts: Vec<String>,
}

/// What a path says.
#[verifier::ext_equal]
pub struct PathSpec {
    pub root: PathBuf,
    pub parts: Seq<Seq<char>>,
}

impl PathSpec {
    /// The entry with this name below the path.
    pub open spec fn entry(self, name: Seq<char>) -> PathSpec {
        PathSpec { root: self.root, parts: self.parts.push(name) }
    }
}

/// A directory itself.
pub open spec fn dir(root: PathBuf) -> PathSpec {
    PathSpec { root, parts: Seq::empty() }
}

/// An optional path.
pub open spec fn path_view(p: Option<FilePath>) -> Option<PathSpec> {
    match p {
        Some(p) => Some(p@),
        None => None,
    }
}

impl View for FilePath {
    type V = PathSpec;

    open spec fn view(&self) -> PathSpec {
        PathSpec { root: self.root, parts: text::texts(self.parts@) }
    }
}

impl Clone for FilePath {
    fn clone(&self) -> (r: Self)
        ensures
            r@ == self@,
    {
        let mut parts: Vec<String> = Vec::new();
        let mut i: usize = 0;
        while i < self.parts.len()
            invariant
                i <= self.parts.len(),
                text::texts(parts@) == text::texts(self.parts@).take(i as int),
            decreases self.parts.len() - i,
        {
            let ghost before = parts@;
            parts.push(self.parts[i].clone());
            assert(text::texts(parts@) =~= text::texts(before).push(self.parts@[i as int]@));
            assert(text::texts(self.parts@).take(i + 1) =~= text::texts(self.parts@).take(
                i as int,
            ).push(self.parts@[i as int]@));
            i = i + 1;
        }
        assert(text::texts(parts@) =~= text::texts(self.parts@));
        FilePath { root: self.root.clone(), parts }
    }
}

impl FilePath {
    /// A directory itself.
    pub fn new(root: PathBuf) -> (r: Self)
        ensures
            r@ == dir(root),
    {
        let r = FilePath { root, parts: Vec::new() };
        assert(r@ =~= dir(root));
        r
    }

    /// The entry with this name below the path.
    pub fn entry(self, name: &str) -> (r: Self)
        ensures
            r@ == self@.entry(name@),
    {
        let mut parts = self.parts;
        parts.push(owned(name));
        let r = FilePath { root: self.root, parts };
        assert(r@ =~= self@.entry(name@));
        r
    }

    /// The directory that holds the entry that the path leads to, if it leads below its root.
    pub fn parent(&self) -> (r: Option<Self>)
        ensures
            r is Some <==> self@.parts.len() > 0,
            r matches Some(p) ==> p@ == (PathSpec {
                root: self@.root,
                parts: self@.parts.drop_last(),
            }),
    {
        let mut p = self.clone();
        assert(p.parts@.len() == p@.parts.len());
        match p.parts.pop() {
            Some(_) => {
                assert(p@.parts =~= self@.parts.drop_last());
                Some(p)
            },
            None => None,
        }
    }
}

} // verus!
