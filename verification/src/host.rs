//! What the crate is told about the machine it runs on.
//!
//! The browser strategies name the places below the home directory where a
//! cookie store may lie (`ProfilePath`). The caller looks there and reports
//! what it found as `HostFacts`; every availability decision is a function of
//! that report.

use crate::text::same_text;
use vstd::prelude::*;
use vstd::string::StringExecFns;

verus! {

/// The family of operating systems that a machine belongs to. It decides
/// where below the home directory a browser keeps its cookies.
#[derive(Debug, Clone, Copy, PartialEq, Eq, Structural)]
pub enum OsFamily {
    Linux,
    MacOs,
    Windows,
}

/// What a path is expected to lead to.
#[derive(Debug, Clone, Copy, PartialEq, Eq, Structural)]
pub enum EntryKind {
    File,
    Directory,
}

/// A place below the home directory, as the names to descend through, and
/// the kind of entry expected there.
#[derive(Debug, PartialEq, Eq)]
pub struct ProfilePath {
    pub segments: Vec<String>,
    pub kind: EntryKind,
}

/// A `ProfilePath` with its names as character sequences.
#[verifier::ext_equal]
pub struct PathView {
    pub segments: Seq<Seq<char>>,
    pub kind: EntryKind,
}

/// The texts of a sequence of strings.
pub open spec fn texts(strings: Seq<String>) -> Seq<Seq<char>> {
    Seq::new(strings.len(), |i: int| strings[i]@)
}

impl View for ProfilePath {
    type V = PathView;

    open spec fn view(&self) -> PathView {
        PathView { segments: texts(self.segments@), kind: self.kind }
    }
}

impl ProfilePath {
    /// The home directory itself, expected to be of `kind`.
    pub fn home(kind: EntryKind) -> (path: ProfilePath)
        ensures
            path@ == (PathView { segments: Seq::empty(), kind }),
    {
        let path = ProfilePath { segments: Vec::new(), kind };
        path
    }

    /// This path extended by one more name.
    pub fn join(self, segment: &str) -> (path: ProfilePath)
        ensures
            path@ == (PathView { segments: self@.segments.push(segment@), kind: self@.kind }),
    {
        let mut segments = self.segments;
        segments.push(String::from_str(segment));
        let path = ProfilePath { segments, kind: self.kind };
        path
    }

    /// Whether two paths name the same place and expect the same kind.
    pub fn same_as(&self, other: &ProfilePath) -> (same: bool)
        ensures
            same == (self@ == other@),
    {
        if self.kind != other.kind || self.segments.len() != other.segments.len() {
            assert(other@.segments.len() == other.segments@.len());
            return false;
        }
        let mut i: usize = 0;
        while i < self.segments.len()
            invariant
                i <= self.segments.len(),
                self.segments.len() == other.segments.len(),
                self.kind == other.kind,
                forall|j: int| 0 <= j < i ==> self@.segments[j] == other@.segments[j],
            decreases self.segments.len() - i,
        {
            if !same_text(self.segments[i].as_str(), other.segments[i].as_str()) {
                assert(self@.segments[i as int] != other@.segments[i as int]);
                return false;
            }
            i += 1;
        }
        assert(self@.segments =~= other@.segments);
        true
    }
}

/// The report on the machine: its family of operating systems and what was
/// found below the home directory.
#[derive(Debug, PartialEq, Eq)]
pub struct HostFacts {
    /// The family that the machine belongs to.
    pub family: OsFamily,
    /// `None` where the home directory cannot be resolved; otherwise the
    /// entries that exist below it with the kind given.
    pub home: Option<Vec<ProfilePath>>,
}

/// A `HostFacts` with its paths as views.
#[verifier::ext_equal]
pub struct HostView {
    pub family: OsFamily,
    pub home: Option<Seq<PathView>>,
}

/// The views of a sequence of paths.
pub open spec fn path_views(paths: Seq<ProfilePath>) -> Seq<PathView> {
    Seq::new(paths.len(), |i: int| paths[i]@)
}

impl HostView {
    /// The entry `path` was found below the home directory.
    pub open spec fn holds(self, path: PathView) -> bool {
        self.home matches Some(found) && found.contains(path)
    }
}

impl View for HostFacts {
    type V = HostView;

    open spec fn view(&self) -> HostView {
        HostView {
            family: self.family,
            home: match self.home {
                Some(found) => Some(path_views(found@)),
                None => None,
            },
        }
    }
}

impl HostFacts {
    /// A report for a machine whose home directory holds `found`.
    pub fn new(family: OsFamily, found: Vec<ProfilePath>) -> (host: HostFacts)
        ensures
            host@ == (HostView { family, home: Some(path_views(found@)) }),
    {
        HostFacts { family, home: Some(found) }
    }

    /// A report for a machine whose home directory cannot be resolved.
    pub fn without_home(family: OsFamily) -> (host: HostFacts)
        ensures
            host@ == (HostView { family, home: None }),
    {
        HostFacts { family, home: None }
    }

    /// Whether `path` was found below the home directory.
    pub fn holds(&self, path: &ProfilePath) -> (yes: bool)
        ensures
            yes == self@.holds(path@),
    {
        match &self.home {
            None => false,
            Some(found) => {
                let mut i: usize = 0;
                while i < found.len()
                    invariant
                        i <= found.len(),
                        self.home == Some(*found),
                        forall|j: int| 0 <= j < i ==> path_views(found@)[j] != path@,
                    decreases found.len() - i,
                {
                    if found[i].same_as(path) {
                        assert(path_views(found@)[i as int] == path@);
                        return true;
                    }
                    i += 1;
                }
                false
            },
        }
    }
}

} // verus!
