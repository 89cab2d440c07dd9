//! Identities and positions that the compiler assigns to sources and nodes.

use vstd::prelude::*;

verus! {

/// Identifies one package of the workspace.
#[derive(Clone, Copy, Debug, PartialEq, Eq, Hash, Structural)]
pub struct PackageId(pub u64);

/// Uniquely identifies a source file.
///
/// Each source file has a parent [`PackageId`], which defines which package it
/// belongs to.
#[derive(Clone, Copy, Debug, PartialEq, Eq, Hash, Structural)]
pub struct SourceFileId(pub PackageId, pub usize);

/// Identifies one node of a package's high-level representation.
#[derive(Clone, Copy, Debug, PartialEq, Eq, Hash, Structural)]
pub struct NodeId {
    pub package: PackageId,
    pub index: usize,
}

/// A byte range `[start, end)` within one source file.
#[derive(Clone, Copy, Debug, PartialEq, Eq, Hash, Structural)]
pub struct Location {
    pub file: SourceFileId,
    pub start: usize,
    pub end: usize,
}

impl Location {
    /// The number of bytes the range covers; an inverted range covers none.
    pub open spec fn span(self) -> nat {
        if self.end >= self.start {
            (self.end - self.start) as nat
        } else {
            0
        }
    }

    /// Whether the byte offset `offset` of `file` lies on the range, both
    /// ends included.
    pub open spec fn holds(self, file: SourceFileId, offset: usize) -> bool {
        self.file == file && self.start <= offset && offset <= self.end
    }

    pub fn len(&self) -> (n: usize)
        ensures
            n == self.span(),
    {
        if self.end >= self.start {
            self.end - self.start
        } else {
            0
        }
    }

    pub fn contains(&self, file: SourceFileId, offset: usize) -> (b: bool)
        ensures
            b == self.holds(file, offset),
    {
        self.file == file && self.start <= offset && offset <= self.end
    }
}

/// The name under which the compiler knows a source file: a path, relative
/// to the root of its package or absolute.
#[derive(Debug, Hash)]
pub enum FileName {
    Real(String),
}

impl FileName {
    /// The path that the name stands for.
    pub open spec fn path(self) -> Seq<char> {
        match self {
            FileName::Real(path) => path@,
        }
    }

    pub fn as_str(&self) -> (r: &str)
        ensures
            r@ == self.path(),
    {
        match self {
            FileName::Real(path) => path.as_str(),
        }
    }

    /// A copy of the same name.
    pub fn duplicate(&self) -> (r: FileName)
        ensures
            r == *self,
    {
        match self {
            FileName::Real(path) => FileName::Real(path.clone()),
        }
    }
}

impl Clone for FileName {
    fn clone(&self) -> (r: Self)
        ensures
            r == *self,
    {
        self.duplicate()
    }
}

/// A source file as the compiler holds it: its identity and its content.
#[derive(Debug, Hash)]
pub struct SourceFile {
    pub id: SourceFileId,
    pub name: FileName,
    pub content: String,
    pub package: PackageId,
}

impl SourceFile {
    /// A copy with the same identity and content.
    pub fn duplicate(&self) -> (r: SourceFile)
        ensures
            r == *self,
    {
        SourceFile {
            id: self.id,
            name: self.name.duplicate(),
            content: self.content.clone(),
            package: self.package,
        }
    }
}

impl Clone for SourceFile {
    fn clone(&self) -> (r: Self)
        ensures
            r == *self,
    {
        self.duplicate()
    }
}

} // verus!
