//! Entry kinds, the type filters that select them, and the items a walk yields.

use vstd::prelude::*;

verus! {

/// A kind that the type filter may ask for.
#[derive(Debug, Clone, Copy, PartialEq, Eq, Structural)]
pub enum EntryType {
    Dir,
    File,
    Link,
}

/// What a walked entry is, as the walk classifies it.
#[derive(Debug, Clone, Copy, PartialEq, Eq, Structural)]
pub enum EntryKind {
    Dir,
    File,
    Link,
    Other,
}

/// The type filter that a command-line token stands for: `d`, `f` or `l`.
pub open spec fn token_type(t: Seq<char>) -> Option<EntryType> {
    if t.len() != 1 {
        None
    } else if t[0] == 'd' {
        Some(EntryType::Dir)
    } else if t[0] == 'f' {
        Some(EntryType::File)
    } else if t[0] == 'l' {
        Some(EntryType::Link)
    } else {
        None
    }
}

/// Whether a type filter selects entries of the given kind.
pub open spec fn type_selects(t: EntryType, k: EntryKind) -> bool {
    match t {
        EntryType::Dir => k == EntryKind::Dir,
        EntryType::File => k == EntryKind::File,
        EntryType::Link => k == EntryKind::Link,
    }
}

/// The type filter that selects exactly the entries of a kind, if there is one.
pub open spec fn kind_type(k: EntryKind) -> Option<EntryType> {
    match k {
        EntryKind::Dir => Some(EntryType::Dir),
        EntryKind::File => Some(EntryType::File),
        EntryKind::Link => Some(EntryType::Link),
        EntryKind::Other => None,
    }
}

impl EntryType {
    /// Reads a type token: `d` for directories, `f` for regular files and
    /// `l` for symbolic links; any other token gives `None`.
    pub fn from_token(t: &str) -> (r: Option<EntryType>)
        ensures
            r == token_type(t@),
    {
        if t.unicode_len() != 1 {
            return None;
        }
        let c = t.get_char(0);
        if c == 'd' {
            Some(EntryType::Dir)
        } else if c == 'f' {
            Some(EntryType::File)
        } else if c == 'l' {
            Some(EntryType::Link)
        } else {
            None
        }
    }

    /// Whether this filter selects entries of kind `k`.
    pub fn selects(&self, k: EntryKind) -> (r: bool)
        ensures
            r == type_selects(*self, k),
    {
        match self {
            EntryType::Dir => k == EntryKind::Dir,
            EntryType::File => k == EntryKind::File,
            EntryType::Link => k == EntryKind::Link,
        }
    }
}

/// An entry that a walk yielded.
pub struct EntryInfo {
    /// The path as it is displayed.
    pub path: String,
    /// The base name: the last component of the path.
    pub name: String,
    pub kind: EntryKind,
}

/// One item of a walk: an entry, or the description of an error that the
/// walk met in its place.
pub enum WalkEvent {
    Entry(EntryInfo),
    Failed(String),
}

/// What is done with one item of a walk.
#[derive(Debug, PartialEq, Eq)]
pub enum Action {
    /// Write this path as a line to standard output.
    Print(String),
    /// Write this description as a line to standard error.
    Report(String),
    /// Write nothing.
    Skip,
}

} // verus!
