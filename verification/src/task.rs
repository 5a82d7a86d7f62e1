//! The two kinds of work that the engine queues: directories to scan and
//! file operations to carry out.

use vstd::prelude::*;
use crate::entry::FileMeta;
use crate::path::{PathModel, SyncPath};

verus! {

/// A source directory and the destination directory that is to mirror it.
#[derive(Debug, Clone, PartialEq, Eq)]
pub struct DirTask {
    pub src: SyncPath,
    pub dest: SyncPath,
}

/// The mathematical value of a [`DirTask`].
pub struct DirTaskModel {
    pub src: PathModel,
    pub dest: PathModel,
}

impl View for DirTask {
    type V = DirTaskModel;

    open spec fn view(&self) -> DirTaskModel {
        DirTaskModel { src: self.src@, dest: self.dest@ }
    }
}

/// A source file that may have to be copied over its destination.
///
/// The metadata is what the scan saw. `dest_meta` is `None` where nothing
/// usable stands at the destination. `replaces_dir` is set where a directory
/// stands there: it is removed, with all below it, before the file is written,
/// by the same operation, so that no other worker can run between the two.
#[derive(Debug, Clone, PartialEq, Eq)]
pub struct CopyTask {
    pub src: SyncPath,
    pub dest: SyncPath,
    pub src_meta: FileMeta,
    pub dest_meta: Option<FileMeta>,
    pub replaces_dir: bool,
}

/// The mathematical value of a [`CopyTask`].
pub struct CopyTaskModel {
    pub src: PathModel,
    pub dest: PathModel,
    pub src_meta: FileMeta,
    pub dest_meta: Option<FileMeta>,
    pub replaces_dir: bool,
}

impl View for CopyTask {
    type V = CopyTaskModel;

    open spec fn view(&self) -> CopyTaskModel {
        CopyTaskModel {
            src: self.src@,
            dest: self.dest@,
            src_meta: self.src_meta,
            dest_meta: self.dest_meta,
            replaces_dir: self.replaces_dir,
        }
    }
}

/// One file-level operation.
#[derive(Debug, Clone, PartialEq, Eq)]
pub enum IoOperation {
    /// Remove a directory and all below it.
    DeleteTree(SyncPath),
    /// Remove one file.
    DeleteFile(SyncPath),
    /// Copy a file unless the destination already matches.
    CopyIfNeeded(CopyTask),
}

/// The mathematical value of an [`IoOperation`].
pub enum OpModel {
    DeleteTree(PathModel),
    DeleteFile(PathModel),
    CopyIfNeeded(CopyTaskModel),
}

impl View for IoOperation {
    type V = OpModel;

    open spec fn view(&self) -> OpModel {
        match self {
            IoOperation::DeleteTree(path) => OpModel::DeleteTree(path@),
            IoOperation::DeleteFile(path) => OpModel::DeleteFile(path@),
            IoOperation::CopyIfNeeded(task) => OpModel::CopyIfNeeded(task@),
        }
    }
}

} // verus!
