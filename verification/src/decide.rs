//! The file-equality decider: whether a file has to be copied, and why.

use vstd::prelude::*;
use crate::config::{ConfigModel, SyncBuilder};
use crate::log::{note_about, note_view, LogNote, NoteModel, SyncLogLevel};
use crate::entry::FileTime;
use crate::task::{CopyTask, CopyTaskModel};

verus! {

/// Why a file is copied. `NotNeeded` means that it is left alone.
#[derive(Clone, Copy, Debug, PartialEq, Eq, Structural)]
pub enum CopyReason {
    /// Nothing usable stands at the destination.
    Missing,
    /// The modified times differ, or one of them could not be read.
    DateMismatched,
    /// The sizes differ.
    SizeMismatched,
    /// The first or the last bytes differ, or could not be compared.
    HeadTailMismatched,
    /// The destination counts as up to date.
    NotNeeded,
}

/// What a head/tail probe of two files found.
#[derive(Clone, Copy, Debug, PartialEq, Eq, Structural)]
pub enum ProbeVerdict {
    /// The first and the last bytes agree.
    Equal,
    /// The first or the last bytes differ.
    Different,
    /// One of the files could not be opened, read or positioned.
    Failed,
}

/// How far the metadata alone decides.
#[derive(Clone, Copy, Debug, PartialEq, Eq, Structural)]
pub enum Gate {
    /// The metadata settles the reason.
    Decided(CopyReason),
    /// The metadata agrees as far as it is looked at: compare this many bytes
    /// at the start and at the end of the two files.
    Probe(u64),
}

/// The smaller of two numbers.
pub open spec fn least(a: int, b: int) -> int {
    if a <= b {
        a
    } else {
        b
    }
}

/// How many bytes a head/tail probe compares at each end: as many as the
/// configuration asks for, but no more than either file holds.
pub open spec fn probe_size(config: ConfigModel, task: CopyTaskModel) -> int {
    let wanted = least(
        config.copy_contents_if_start_end_mismatched_size as int,
        task.src_meta.len as int,
    );
    match task.dest_meta {
        Some(dest_meta) => least(wanted, dest_meta.len as int),
        None => wanted,
    }
}

/// Whether two modified times are known to be the same. A time that could
/// not be read is not known to equal any other.
pub open spec fn same_time(a: Option<FileTime>, b: Option<FileTime>) -> bool {
    a is Some && a == b
}

/// What the metadata decides: the reason, or that the two files have to be
/// probed.
pub open spec fn gate_of(config: ConfigModel, task: CopyTaskModel) -> Gate {
    match task.dest_meta {
        None => Gate::Decided(CopyReason::Missing),
        Some(dest_meta) => {
            if config.copy_contents_if_date_mismatched && !same_time(
                task.src_meta.modified,
                dest_meta.modified,
            ) {
                Gate::Decided(CopyReason::DateMismatched)
            } else if config.copy_contents_if_size_mismatched && task.src_meta.len
                != dest_meta.len {
                Gate::Decided(CopyReason::SizeMismatched)
            } else if config.copy_contents_if_start_end_mismatched_size > 0 {
                Gate::Probe(probe_size(config, task) as u64)
            } else {
                Gate::Decided(CopyReason::NotNeeded)
            }
        },
    }
}

/// The reason that a probe's verdict stands for: only equal ends spare the
/// copy.
pub open spec fn probe_reason(verdict: ProbeVerdict) -> CopyReason {
    match verdict {
        ProbeVerdict::Equal => CopyReason::NotNeeded,
        ProbeVerdict::Different => CopyReason::HeadTailMismatched,
        ProbeVerdict::Failed => CopyReason::HeadTailMismatched,
    }
}

/// Why the file of `task` is copied, where a probe of the two files would
/// give `verdict`.
pub open spec fn copy_reason(config: ConfigModel, task: CopyTaskModel, verdict: ProbeVerdict)
    -> CopyReason {
    match gate_of(config, task) {
        Gate::Decided(reason) => reason,
        Gate::Probe(_) => probe_reason(verdict),
    }
}

/// What the decider tells the log: an error where the date gate is on and
/// a modified time could not be read, the source's first.
pub open spec fn gate_note(config: ConfigModel, task: CopyTaskModel) -> Option<NoteModel> {
    match task.dest_meta {
        None => None,
        Some(dest_meta) => {
            if !config.copy_contents_if_date_mismatched {
                None
            } else if task.src_meta.modified is None {
                Some(
                    note_about(SyncLogLevel::Error, "Failed to get modified date of "@, task.src),
                )
            } else if dest_meta.modified is None {
                Some(
                    note_about(SyncLogLevel::Error, "Failed to get modified date of "@, task.dest),
                )
            } else {
                None
            }
        },
    }
}

/// Decides from the metadata whether the file of `task` has to be copied.
///
/// The gates are taken in order: a missing destination, the modified times
/// where the date gate is on, the sizes where the size gate is on. A modified
/// time that could not be read counts as a mismatch and is reported. Where no
/// gate asks for a copy and the configuration asks for a head/tail comparison,
/// the answer is the number of bytes to compare.
pub fn should_copy_file(config: &SyncBuilder, task: &CopyTask) -> (r: (Gate, Option<LogNote>))
    ensures
        r.0 == gate_of(config@, task@),
        note_view(r.1) == gate_note(config@, task@),
{
    let dest_meta = match task.dest_meta {
        None => {
            return (Gate::Decided(CopyReason::Missing), None);
        },
        Some(dest_meta) => dest_meta,
    };
    if config.checks_date() {
        let src_modified = match task.src_meta.modified {
            None => {
                let note = LogNote::about(
                    SyncLogLevel::Error,
                    "Failed to get modified date of ",
                    &task.src,
                );
                return (Gate::Decided(CopyReason::DateMismatched), Some(note));
            },
            Some(time) => time,
        };
        let dest_modified = match dest_meta.modified {
            None => {
                let note = LogNote::about(
                    SyncLogLevel::Error,
                    "Failed to get modified date of ",
                    &task.dest,
                );
                return (Gate::Decided(CopyReason::DateMismatched), Some(note));
            },
            Some(time) => time,
        };
        if src_modified != dest_modified {
            return (Gate::Decided(CopyReason::DateMismatched), None);
        }
    }
    if config.checks_size() && task.src_meta.len != dest_meta.len {
        (Gate::Decided(CopyReason::SizeMismatched), None)
    } else if config.head_tail_bytes() > 0 {
        let mut size: u64 = config.head_tail_bytes() as u64;
        if task.src_meta.len < size {
            size = task.src_meta.len;
        }
        if dest_meta.len < size {
            size = dest_meta.len;
        }
        (Gate::Probe(size), None)
    } else {
        (Gate::Decided(CopyReason::NotNeeded), None)
    }
}

/// The reason that a probe's verdict stands for.
pub fn reason_after_probe(verdict: ProbeVerdict) -> (r: CopyReason)
    ensures
        r == probe_reason(verdict),
{
    match verdict {
        ProbeVerdict::Equal => CopyReason::NotNeeded,
        ProbeVerdict::Different => CopyReason::HeadTailMismatched,
        ProbeVerdict::Failed => CopyReason::HeadTailMismatched,
    }
}

/// With every gate off, a file that has a destination is never copied: not on
/// its times, not on its size, and no probe is asked for.
pub proof fn lemma_no_gate_no_copy(config: ConfigModel, task: CopyTaskModel, verdict: ProbeVerdict)
    requires
        !config.copy_contents_if_date_mismatched,
        !config.copy_contents_if_size_mismatched,
        config.copy_contents_if_start_end_mismatched_size == 0,
        task.dest_meta is Some,
    ensures
        gate_of(config, task) == Gate::Decided(CopyReason::NotNeeded),
        copy_reason(config, task, verdict) == CopyReason::NotNeeded,
{
}

/// The size gate alone lets a destination of the same size stand, whatever
/// the two files hold.
pub proof fn lemma_same_size_passes_size_gate(
    config: ConfigModel,
    task: CopyTaskModel,
    verdict: ProbeVerdict,
)
    requires
        !config.copy_contents_if_date_mismatched,
        config.copy_contents_if_start_end_mismatched_size == 0,
        task.dest_meta matches Some(dest_meta) && dest_meta.len == task.src_meta.len,
    ensures
        copy_reason(config, task, verdict) == CopyReason::NotNeeded,
{
}

/// A file is left alone only where something stands at the destination and
/// every gate that is on was passed; every other reason names the first gate
/// that was not.
pub proof fn lemma_reason_names_the_first_gate(
    config: ConfigModel,
    task: CopyTaskModel,
    verdict: ProbeVerdict,
)
    ensures
        copy_reason(config, task, verdict) == CopyReason::Missing <==> task.dest_meta is None,
        copy_reason(config, task, verdict) == CopyReason::NotNeeded ==> {
            &&& task.dest_meta matches Some(dest_meta)
            &&& config.copy_contents_if_date_mismatched ==> same_time(
                task.src_meta.modified,
                dest_meta.modified,
            )
            &&& config.copy_contents_if_size_mismatched ==> task.src_meta.len == dest_meta.len
            &&& config.copy_contents_if_start_end_mismatched_size > 0 ==> verdict
                == ProbeVerdict::Equal
        },
{
}

} // verus!
