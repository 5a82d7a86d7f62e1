//! What a scan has read of the file system, as plain values.

use vstd::prelude::*;

verus! {

/// What kind of thing a directory entry is. Symbolic links and special files
/// are `Other`.
#[derive(Clone, Copy, Debug, PartialEq, Eq, Structural)]
pub enum EntryKind {
    File,
    Dir,
    Other,
}

/// A point in time, counted from the Unix epoch.
#[derive(Clone, Copy, Debug, PartialEq, Eq, Structural)]
pub struct FileTime {
    pub secs: i64,
    pub nanos: u32,
}

/// The metadata of one entry, as read when its directory was scanned.
///
/// A time that the platform could not give is `None`.
#[derive(Clone, Copy, Debug, PartialEq, Eq, Structural)]
pub struct FileMeta {
    pub kind: EntryKind,
    pub len: u64,
    pub modified: Option<FileTime>,
    pub created: Option<FileTime>,
}

/// The outcome of asking the file system about one path.
#[derive(Debug, Clone, PartialEq, Eq)]
pub enum Stat {
    /// The path exists and this is its metadata.
    Found(FileMeta),
    /// Nothing exists at the path.
    Missing,
    /// The file system refused; the text is its message.
    Failed(String),
}

/// The mathematical value of a [`Stat`].
pub enum StatModel {
    Found(FileMeta),
    Missing,
    Failed(Seq<char>),
}

impl View for Stat {
    type V = StatModel;

    open spec fn view(&self) -> StatModel {
        match self {
            Stat::Found(meta) => StatModel::Found(*meta),
            Stat::Missing => StatModel::Missing,
            Stat::Failed(text) => StatModel::Failed(text@),
        }
    }
}

/// One entry of a directory listing: its name and what asking about it gave.
#[derive(Debug, Clone, PartialEq, Eq)]
pub struct DirEntry {
    pub name: String,
    pub stat: Stat,
}

/// The mathematical value of a [`DirEntry`].
pub struct EntryModel {
    pub name: Seq<char>,
    pub stat: StatModel,
}

impl View for DirEntry {
    type V = EntryModel;

    open spec fn view(&self) -> EntryModel {
        EntryModel { name: self.name@, stat: self.stat@ }
    }
}

} // verus!
