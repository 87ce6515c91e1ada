//! Lazy traversal state for the source tree.
//!
//! The enumerator owns an explicit stack of pending directories and a
//! buffer of discovered files — iterative, not recursive, so deep trees
//! cost no call depth.  The caller reads each pending directory and
//! reports what it holds; a symlinked entry is never recorded, so
//! nothing reached only through a symlink — and no symlink itself — is
//! ever yielded.  Yield order follows the stacks and is deliberately
//! unspecified.  A directory that cannot be read is simply never
//! reported, which matches the traversal skipping it silently.

use vstd::prelude::*;

verus! {

/// What a directory entry turned out to be.  Symlinks are told apart
/// first: an entry whose link read succeeds counts as a symlink
/// whatever it points at.
#[derive(Clone, Copy, PartialEq, Eq, Structural, Debug)]
pub enum EntryKind {
    /// An entry readable as a link; never followed, never yielded.
    Symlink,
    /// A directory, to be read in turn.
    Directory,
    /// A regular file, to be yielded.
    File,
    /// Anything else; skipped.
    Other,
}

/// Iterator state over the files under a root directory.
pub struct FilesIter {
    dirs: Vec<String>,
    files: Vec<String>,
}

impl FilesIter {
    /// The directories still waiting to be read, next-to-read last.
    pub closed spec fn spec_dirs(&self) -> Seq<String> {
        self.dirs@
    }

    /// The discovered files not yet yielded, next-to-yield last.
    pub closed spec fn spec_files(&self) -> Seq<String> {
        self.files@
    }

    /// A fresh traversal: one pending directory — the root — and no
    /// discovered files yet.
    pub fn new(dir: String) -> (r: FilesIter)
        ensures
            r.spec_dirs() =~= seq![dir],
            r.spec_files() =~= Seq::<String>::empty(),
    {
        FilesIter { dirs: vec![dir], files: Vec::new() }
    }

    /// Whether the traversal is exhausted: nothing pending, nothing
    /// buffered.
    pub fn is_done(&self) -> (r: bool)
        ensures
            r == (self.spec_dirs().len() == 0 && self.spec_files().len() == 0),
    {
        self.dirs.len() == 0 && self.files.len() == 0
    }

    /// Yields one discovered file, if any is buffered.  Only paths
    /// recorded as plain files ever come out of here.
    pub fn pop_file(&mut self) -> (r: Option<String>)
        ensures
            final(self).spec_dirs() == old(self).spec_dirs(),
            old(self).spec_files().len() == 0 ==> r is None && final(self).spec_files() == old(self).spec_files(),
            old(self).spec_files().len() > 0 ==> r == Some(old(self).spec_files().last())
                && final(self).spec_files() == old(self).spec_files().drop_last(),
    {
        self.files.pop()
    }

    /// Hands out one pending directory for the caller to read, if any.
    pub fn pop_dir(&mut self) -> (r: Option<String>)
        ensures
            final(self).spec_files() == old(self).spec_files(),
            old(self).spec_dirs().len() == 0 ==> r is None && final(self).spec_dirs() == old(self).spec_dirs(),
            old(self).spec_dirs().len() > 0 ==> r == Some(old(self).spec_dirs().last())
                && final(self).spec_dirs() == old(self).spec_dirs().drop_last(),
    {
        self.dirs.pop()
    }

    /// Records one entry found while reading a directory.  Directories
    /// queue for reading, files queue for yielding; a symlink — or
    /// anything that is neither — leaves the state exactly as it was.
    pub fn record_entry(&mut self, path: String, kind: EntryKind)
        ensures
            kind == EntryKind::Directory ==> final(self).spec_dirs() == old(self).spec_dirs().push(path)
                && final(self).spec_files() == old(self).spec_files(),
            kind == EntryKind::File ==> final(self).spec_files() == old(self).spec_files().push(path)
                && final(self).spec_dirs() == old(self).spec_dirs(),
            kind == EntryKind::Symlink || kind == EntryKind::Other ==> final(self).spec_dirs()
                == old(self).spec_dirs() && final(self).spec_files() == old(self).spec_files(),
    {
        match kind {
            EntryKind::Directory => self.dirs.push(path),
            EntryKind::File => self.files.push(path),
            EntryKind::Symlink => (),
            EntryKind::Other => (),
        }
    }
}

} // verus!
