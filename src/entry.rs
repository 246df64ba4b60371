use vstd::prelude::*;

verus! {

/// What a stat of a path reports when symbolic links are followed.
#[derive(Clone, Copy, Debug, PartialEq, Eq)]
pub struct Metadata {
    /// Size in bytes.
    pub size: u64,
    /// Modification time: whole seconds since the Unix epoch.
    pub mtime_seconds: i64,
    /// Modification time: nanoseconds within that second.
    pub mtime_nanos: u32,
    /// Permission bits.
    pub permissions: u32,
}

impl Metadata {
    pub fn new(size: u64, mtime_seconds: i64, mtime_nanos: u32, permissions: u32) -> (r: Metadata)
        ensures
            r == (Metadata { size, mtime_seconds, mtime_nanos, permissions }),
    {
        Metadata { size, mtime_seconds, mtime_nanos, permissions }
    }

    /// The modification time as a single count of nanoseconds.
    pub open spec fn mtime(self) -> int {
        self.mtime_seconds * 1_000_000_000 + self.mtime_nanos
    }
}

/// What a path is when symbolic links are not followed.
#[derive(Debug, PartialEq, Eq)]
pub enum LinkState {
    /// Nothing exists at the path.
    Missing,
    /// A symbolic link, with the target string it holds (it may dangle).
    Link { target: String },
    /// A regular file, a directory, or anything else that is not a link.
    NotLink,
}

/// One side of a matched pair: a label for reports, a path, and the snapshot
/// of what the path held when the pair was inspected.
#[derive(Debug, PartialEq, Eq)]
pub struct Entry {
    pub label: String,
    pub path: String,
    /// `None` when the path, links followed, does not exist.
    pub metadata: Option<Metadata>,
    pub link: LinkState,
}

impl Entry {
    pub fn new(label: String, path: String, metadata: Option<Metadata>, link: LinkState) -> (r: Entry)
        ensures
            r == (Entry { label, path, metadata, link }),
    {
        Entry { label, path, metadata, link }
    }

    /// Whether the path exists, links followed.
    pub fn is_present(&self) -> (r: bool)
        ensures
            r == self.metadata is Some,
    {
        self.metadata.is_some()
    }

    /// Whether the path itself is a symbolic link.
    pub fn is_link(&self) -> (r: bool)
        ensures
            r == self.link is Link,
    {
        match &self.link {
            LinkState::Link { .. } => true,
            _ => false,
        }
    }

    /// The label used when reporting on this entry.
    pub fn description(&self) -> (r: &String)
        ensures
            *r == self.label,
    {
        &self.label
    }
}

} // verus!
