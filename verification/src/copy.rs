//! The copier and the deleter: carrying out one file operation.
//!
//! Like the probe, the copier is a state machine: it names the next step, the
//! caller takes it and reports how it went. No step is tried twice.

use vstd::prelude::*;
use vstd::string::StringExecFns;
use crate::config::{ConfigModel, SyncBuilder};
use crate::decide::CopyReason;
use crate::entry::FileTime;
use crate::log::{
    failure_note, note_about, note_view, report_view, LogNote, NoteModel, SyncLogLevel,
};
use crate::path::{path_text, PathModel, SyncPath};
use crate::task::{CopyTask, CopyTaskModel};

verus! {

/// Where a copy stands, and with it the step that the caller is to take
/// next.
#[derive(Clone, Copy, Debug, PartialEq, Eq, Structural)]
pub enum CopyStage {
    /// Remove the directory that stands at the destination, with all below it.
    RemoveTree,
    /// Open the source for reading.
    OpenSource,
    /// Open the destination for writing, cut to nothing.
    CreateDest,
    /// Copy the bytes across.
    Stream,
    /// Set the created time of the destination.
    StampCreated,
    /// Set the modified time of the destination.
    StampModified,
    /// Nothing is left to do.
    Done,
}

/// One copy in progress.
#[derive(Clone, Copy, Debug, PartialEq, Eq, Structural)]
pub struct Copier {
    pub stage: CopyStage,
    /// Why the file is copied.
    pub reason: CopyReason,
    /// The created time to set once the bytes are across, if any.
    pub created: Option<FileTime>,
    /// The modified time to set once the bytes are across, if any.
    pub modified: Option<FileTime>,
}

/// The name under which a reason appears in the log.
pub open spec fn reason_text(reason: CopyReason) -> Seq<char> {
    match reason {
        CopyReason::Missing => "Missing"@,
        CopyReason::DateMismatched => "DateMismatched"@,
        CopyReason::SizeMismatched => "SizeMismatched"@,
        CopyReason::HeadTailMismatched => "HeadTailMismatched"@,
        CopyReason::NotNeeded => "NotNeeded"@,
    }
}

/// The copy of `task` before its first step. A file that needs no copy is
/// done at once. A time is set on the copy only where the configuration asks
/// for it and the source has it.
pub open spec fn copier_start(config: ConfigModel, task: CopyTaskModel, reason: CopyReason)
    -> Copier {
    Copier {
        stage: if reason == CopyReason::NotNeeded {
            CopyStage::Done
        } else if task.replaces_dir {
            CopyStage::RemoveTree
        } else {
            CopyStage::OpenSource
        },
        reason,
        created: if config.copy_created_date {
            task.src_meta.created
        } else {
            None
        },
        modified: if config.copy_modified_date {
            task.src_meta.modified
        } else {
            None
        },
    }
}

/// What the log is told when a copy starts: only that a file needs none.
pub open spec fn start_note(task: CopyTaskModel, reason: CopyReason) -> Option<NoteModel> {
    if reason == CopyReason::NotNeeded {
        Some(note_about(SyncLogLevel::Debug, "No need to copy "@, task.src))
    } else {
        None
    }
}

/// The stage that follows the streaming of the bytes and the setting of the
/// created time.
pub open spec fn stamp_stage(copier: Copier, created_done: bool) -> CopyStage {
    if !created_done && copier.created is Some {
        CopyStage::StampCreated
    } else if copier.modified is Some {
        CopyStage::StampModified
    } else {
        CopyStage::Done
    }
}

/// The stage that follows `copier.stage` when the step went as `ok` says. A
/// failure to open or to stream ends the copy; a failure to remove what was in
/// the way or to set a time does not.
pub open spec fn stage_after(copier: Copier, ok: bool) -> CopyStage {
    match copier.stage {
        CopyStage::RemoveTree => CopyStage::OpenSource,
        CopyStage::OpenSource => if ok {
            CopyStage::CreateDest
        } else {
            CopyStage::Done
        },
        CopyStage::CreateDest => if ok {
            CopyStage::Stream
        } else {
            CopyStage::Done
        },
        CopyStage::Stream => if ok {
            stamp_stage(copier, false)
        } else {
            CopyStage::Done
        },
        CopyStage::StampCreated => stamp_stage(copier, true),
        CopyStage::StampModified => CopyStage::Done,
        CopyStage::Done => CopyStage::Done,
    }
}

/// The copy after the caller reported on its step.
pub open spec fn copier_after(copier: Copier, ok: bool) -> Copier {
    Copier { stage: stage_after(copier, ok), ..copier }
}

/// What the log is told when the caller reports on a step: every failure,
/// the removal of what was in the way, and the start of the streaming, with the
/// reason for the copy.
pub open spec fn step_note(copier: Copier, task: CopyTaskModel, report: Result<(), Seq<char>>)
    -> Option<NoteModel> {
    match copier.stage {
        CopyStage::RemoveTree => match report {
            Ok(_) => Some(note_about(SyncLogLevel::Info, "Deleted directory "@, task.dest)),
            Err(text) => Some(failure_note("Failed to delete directory "@, task.dest, text)),
        },
        CopyStage::OpenSource => match report {
            Ok(_) => None,
            Err(text) => Some(failure_note("Failed to open "@, task.src, text)),
        },
        CopyStage::CreateDest => match report {
            Ok(_) => Some(
                NoteModel {
                    level: SyncLogLevel::Info,
                    text: reason_text(copier.reason) + ": Starting to copy "@ + path_text(task.src),
                },
            ),
            Err(text) => Some(failure_note("Failed to open "@, task.dest, text)),
        },
        CopyStage::Stream => match report {
            Ok(_) => None,
            Err(text) => Some(failure_note("Failed to copy "@, task.src, text)),
        },
        CopyStage::StampCreated => match report {
            Ok(_) => None,
            Err(text) => Some(failure_note("Failed to set created date of "@, task.dest, text)),
        },
        CopyStage::StampModified => match report {
            Ok(_) => None,
            Err(text) => Some(failure_note("Failed to set modified date of "@, task.dest, text)),
        },
        CopyStage::Done => None,
    }
}

/// The note on the removal of a file or of a directory tree.
pub open spec fn removal_note(tree: bool, path: PathModel, report: Result<(), Seq<char>>)
    -> NoteModel {
    match report {
        Ok(_) => note_about(
            SyncLogLevel::Info,
            if tree {
                "Deleted directory "@
            } else {
                "Deleted file "@
            },
            path,
        ),
        Err(text) => failure_note(
            if tree {
                "Failed to delete directory "@
            } else {
                "Failed to delete file "@
            },
            path,
            text,
        ),
    }
}

/// The name under which a reason appears in the log.
pub fn reason_name(reason: CopyReason) -> (r: &'static str)
    ensures
        r@ == reason_text(reason),
{
    match reason {
        CopyReason::Missing => "Missing",
        CopyReason::DateMismatched => "DateMismatched",
        CopyReason::SizeMismatched => "SizeMismatched",
        CopyReason::HeadTailMismatched => "HeadTailMismatched",
        CopyReason::NotNeeded => "NotNeeded",
    }
}

/// Tells the log how the removal of a file (`tree` unset) or of a directory
/// with all below it (`tree` set) went.
pub fn note_removal(tree: bool, path: &SyncPath, report: &Result<(), String>) -> (note: LogNote)
    ensures
        note@ == removal_note(tree, path@, report_view(*report)),
{
    match report {
        Ok(_) => LogNote::about(
            SyncLogLevel::Info,
            if tree {
                "Deleted directory "
            } else {
                "Deleted file "
            },
            path,
        ),
        Err(text) => LogNote::failure(
            if tree {
                "Failed to delete directory "
            } else {
                "Failed to delete file "
            },
            path,
            text.as_str(),
        ),
    }
}

impl Copier {
    /// Starts the copy of `task`, which the decider wants for `reason`.
    pub fn start(config: &SyncBuilder, task: &CopyTask, reason: CopyReason) -> (r: (
        Copier,
        Option<LogNote>,
    ))
        ensures
            r.0 == copier_start(config@, task@, reason),
            note_view(r.1) == start_note(task@, reason),
    {
        let created = if config.stamps_created() {
            task.src_meta.created
        } else {
            None
        };
        let modified = if config.stamps_modified() {
            task.src_meta.modified
        } else {
            None
        };
        if reason == CopyReason::NotNeeded {
            let note = LogNote::about(SyncLogLevel::Debug, "No need to copy ", &task.src);
            (Copier { stage: CopyStage::Done, reason, created, modified }, Some(note))
        } else if task.replaces_dir {
            (Copier { stage: CopyStage::RemoveTree, reason, created, modified }, None)
        } else {
            (Copier { stage: CopyStage::OpenSource, reason, created, modified }, None)
        }
    }

    /// The stage that follows the streaming of the bytes.
    fn stamping(&self, created_done: bool) -> (stage: CopyStage)
        ensures
            stage == stamp_stage(*self, created_done),
    {
        if !created_done && self.created.is_some() {
            CopyStage::StampCreated
        } else if self.modified.is_some() {
            CopyStage::StampModified
        } else {
            CopyStage::Done
        }
    }

    /// Takes the caller's report on the step that `self.stage` named and
    /// moves on.
    pub fn advance(self, task: &CopyTask, report: Result<(), String>) -> (r: (
        Copier,
        Option<LogNote>,
    ))
        ensures
            r.0 == copier_after(self, report is Ok),
            note_view(r.1) == step_note(self, task@, report_view(report)),
    {
        let (stage, note) = match self.stage {
            CopyStage::RemoveTree => (
                CopyStage::OpenSource,
                Some(note_removal(true, &task.dest, &report)),
            ),
            CopyStage::OpenSource => match report {
                Ok(_) => (CopyStage::CreateDest, None),
                Err(text) => (
                    CopyStage::Done,
                    Some(LogNote::failure("Failed to open ", &task.src, text.as_str())),
                ),
            },
            CopyStage::CreateDest => match report {
                Ok(_) => {
                    let mut message = String::from_str(reason_name(self.reason));
                    message.append(": Starting to copy ");
                    let shown = task.src.display();
                    message.append(shown.as_str());
                    (CopyStage::Stream, Some(LogNote { level: SyncLogLevel::Info, message }))
                },
                Err(text) => (
                    CopyStage::Done,
                    Some(LogNote::failure("Failed to open ", &task.dest, text.as_str())),
                ),
            },
            CopyStage::Stream => match report {
                Ok(_) => (self.stamping(false), None),
                Err(text) => (
                    CopyStage::Done,
                    Some(LogNote::failure("Failed to copy ", &task.src, text.as_str())),
                ),
            },
            CopyStage::StampCreated => (
                self.stamping(true),
                match report {
                    Ok(_) => None,
                    Err(text) => Some(
                        LogNote::failure("Failed to set created date of ", &task.dest, text.as_str()),
                    ),
                },
            ),
            CopyStage::StampModified => (
                CopyStage::Done,
                match report {
                    Ok(_) => None,
                    Err(text) => Some(
                        LogNote::failure(
                            "Failed to set modified date of ",
                            &task.dest,
                            text.as_str(),
                        ),
                    ),
                },
            ),
            CopyStage::Done => (CopyStage::Done, None),
        };
        (Copier { stage, reason: self.reason, created: self.created, modified: self.modified }, note)
    }
}

} // verus!
