//! Log entries: what the engine tells its observers.

use vstd::prelude::*;
use vstd::string::StringExecFns;
use std::time::Instant;
use crate::path::{path_text, PathModel, SyncPath};

verus! {

/// How much an entry matters to an observer.
#[derive(Debug, Clone, Copy, PartialEq, Eq, Structural)]
pub enum SyncLogLevel {
    Info,
    Debug,
    Error,
}

/// A message that still waits for its time stamp.
#[derive(Debug, Clone, PartialEq, Eq)]
pub struct LogNote {
    pub level: SyncLogLevel,
    pub message: String,
}

/// The mathematical value of a [`LogNote`].
pub struct NoteModel {
    pub level: SyncLogLevel,
    pub text: Seq<char>,
}

impl View for LogNote {
    type V = NoteModel;

    open spec fn view(&self) -> NoteModel {
        NoteModel { level: self.level, text: self.message@ }
    }
}

/// The note that says `prefix` of `path`.
pub open spec fn note_about(level: SyncLogLevel, prefix: Seq<char>, path: PathModel) -> NoteModel {
    NoteModel { level, text: prefix + path_text(path) }
}

/// The error note that says `prefix` of `path`, a colon, and what went wrong.
pub open spec fn failure_note(prefix: Seq<char>, path: PathModel, detail: Seq<char>) -> NoteModel {
    NoteModel { level: SyncLogLevel::Error, text: prefix + path_text(path) + seq![':', ' '] + detail }
}

/// The mathematical value of a note that may be absent.
pub open spec fn note_view(note: Option<LogNote>) -> Option<NoteModel> {
    match note {
        Some(n) => Some(n@),
        None => None,
    }
}

/// The mathematical value of a report on a step: nothing, or the message of
/// the error.
pub open spec fn report_view(report: Result<(), String>) -> Result<(), Seq<char>> {
    match report {
        Ok(_) => Ok(()),
        Err(text) => Err(text@),
    }
}

impl LogNote {
    /// A note with the given text.
    pub fn new(level: SyncLogLevel, message: &str) -> (r: LogNote)
        ensures
            r@ == (NoteModel { level, text: message@ }),
    {
        LogNote { level, message: String::from_str(message) }
    }

    /// A note that names a path behind a fixed text.
    pub fn about(level: SyncLogLevel, prefix: &str, path: &SyncPath) -> (r: LogNote)
        ensures
            r@ == note_about(level, prefix@, path@),
    {
        let mut message = String::from_str(prefix);
        let shown = path.display();
        message.append(shown.as_str());
        LogNote { level, message }
    }

    /// An error note that names a path and carries the underlying message.
    pub fn failure(prefix: &str, path: &SyncPath, detail: &str) -> (r: LogNote)
        ensures
            r@ == failure_note(prefix@, path@, detail@),
    {
        let mut message = String::from_str(prefix);
        let shown = path.display();
        message.append(shown.as_str());
        proof {
            reveal_strlit(": ");
            assert(": "@ =~= seq![':', ' ']);
        }
        message.append(": ");
        message.append(detail);
        LogNote { level: SyncLogLevel::Error, message }
    }
}

/// `Instant` of std: a reading of the monotonic clock. The library carries it
/// from the clock to the observer and never looks inside.
#[verifier::external_type_specification]
#[verifier::external_body]
pub struct ExInstant(Instant);

/// `Instant::now` of std: the reading of the monotonic clock at the call.
/// Nothing is claimed of the value.
#[verifier::external_body]
fn now() -> Instant {
    Instant::now()
}

/// One entry of the log stream.
#[derive(Debug)]
pub struct SyncLogEntry {
    pub time: Instant,
    pub level: SyncLogLevel,
    pub message: String,
}

impl SyncLogEntry {
    /// The entry for `note`, stamped with the time of the call.
    pub fn stamp(note: LogNote) -> (r: SyncLogEntry)
        ensures
            r.level == note.level,
            r.message@ == note.message@,
    {
        SyncLogEntry { time: now(), level: note.level, message: note.message }
    }
}

} // verus!
