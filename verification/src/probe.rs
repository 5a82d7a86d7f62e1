//! The head/tail probe: comparing the first and the last bytes of two files.
//!
//! The probe is a state machine. It names the next thing to do with the two
//! files; the caller does it and reports how it went.

use vstd::prelude::*;
use crate::decide::ProbeVerdict;
use crate::log::{failure_note, note_view, LogNote, NoteModel};
use crate::path::{PathModel, SyncPath};

verus! {

/// Which of the two files.
#[derive(Clone, Copy, Debug, PartialEq, Eq, Structural)]
pub enum Side {
    Source,
    Dest,
}

/// What the caller is to do next.
#[derive(Clone, Copy, Debug, PartialEq, Eq, Structural)]
pub enum ProbeAction {
    /// Open the file for reading.
    Open(Side),
    /// Read exactly this many bytes from where the file stands.
    Read(Side, u64),
    /// Move to this many bytes before the end of the file.
    SeekFromEnd(Side, u64),
    /// Nothing: the probe has come to this verdict.
    Finish(ProbeVerdict),
}

/// Where a probe stands.
#[derive(Debug, PartialEq, Eq)]
pub enum ProbeStage {
    OpenSource,
    OpenDest,
    ReadSourceHead,
    /// Holds the first bytes of the source.
    ReadDestHead(Vec<u8>),
    SeekSource,
    SeekDest,
    ReadSourceTail,
    /// Holds the last bytes of the source.
    ReadDestTail(Vec<u8>),
    Done(ProbeVerdict),
}

/// The mathematical value of a [`ProbeStage`].
pub enum StageModel {
    OpenSource,
    OpenDest,
    ReadSourceHead,
    ReadDestHead(Seq<u8>),
    SeekSource,
    SeekDest,
    ReadSourceTail,
    ReadDestTail(Seq<u8>),
    Done(ProbeVerdict),
}

impl View for ProbeStage {
    type V = StageModel;

    open spec fn view(&self) -> StageModel {
        match self {
            ProbeStage::OpenSource => StageModel::OpenSource,
            ProbeStage::OpenDest => StageModel::OpenDest,
            ProbeStage::ReadSourceHead => StageModel::ReadSourceHead,
            ProbeStage::ReadDestHead(held) => StageModel::ReadDestHead(held@),
            ProbeStage::SeekSource => StageModel::SeekSource,
            ProbeStage::SeekDest => StageModel::SeekDest,
            ProbeStage::ReadSourceTail => StageModel::ReadSourceTail,
            ProbeStage::ReadDestTail(held) => StageModel::ReadDestTail(held@),
            ProbeStage::Done(verdict) => StageModel::Done(*verdict),
        }
    }
}

/// A head/tail probe in progress.
#[derive(Debug, PartialEq, Eq)]
pub struct Probe {
    /// How many bytes are compared at each end.
    pub size: u64,
    pub stage: ProbeStage,
}

/// The mathematical value of a [`Probe`].
pub struct ProbeModel {
    pub size: u64,
    pub stage: StageModel,
}

impl View for Probe {
    type V = ProbeModel;

    open spec fn view(&self) -> ProbeModel {
        ProbeModel { size: self.size, stage: self.stage@ }
    }
}

/// What the caller reports: the bytes that were read (none for opening and
/// positioning), or the message of the error.
pub type EventModel = Result<Seq<u8>, Seq<char>>;

/// The mathematical value of an event.
pub open spec fn event_view(event: Result<Vec<u8>, String>) -> EventModel {
    match event {
        Ok(bytes) => Ok(bytes@),
        Err(text) => Err(text@),
    }
}

/// The probe of `size` bytes before anything was done. A probe of no bytes
/// is over at once: there is nothing that could differ.
pub open spec fn probe_start(size: u64) -> ProbeModel {
    ProbeModel {
        size,
        stage: if size == 0 {
            StageModel::Done(ProbeVerdict::Equal)
        } else {
            StageModel::OpenSource
        },
    }
}

/// What the caller is to do next.
pub open spec fn action_of(probe: ProbeModel) -> ProbeAction {
    match probe.stage {
        StageModel::OpenSource => ProbeAction::Open(Side::Source),
        StageModel::OpenDest => ProbeAction::Open(Side::Dest),
        StageModel::ReadSourceHead => ProbeAction::Read(Side::Source, probe.size),
        StageModel::ReadDestHead(_) => ProbeAction::Read(Side::Dest, probe.size),
        StageModel::SeekSource => ProbeAction::SeekFromEnd(Side::Source, probe.size),
        StageModel::SeekDest => ProbeAction::SeekFromEnd(Side::Dest, probe.size),
        StageModel::ReadSourceTail => ProbeAction::Read(Side::Source, probe.size),
        StageModel::ReadDestTail(_) => ProbeAction::Read(Side::Dest, probe.size),
        StageModel::Done(verdict) => ProbeAction::Finish(verdict),
    }
}

/// The stage that follows `stage` when the caller reports `event`. Any error
/// ends the probe as failed; bytes of the destination that differ from those
/// of the source end it as different.
pub open spec fn stage_after(stage: StageModel, event: EventModel) -> StageModel {
    match stage {
        StageModel::Done(verdict) => StageModel::Done(verdict),
        _ => match event {
            Err(_) => StageModel::Done(ProbeVerdict::Failed),
            Ok(bytes) => match stage {
                StageModel::OpenSource => StageModel::OpenDest,
                StageModel::OpenDest => StageModel::ReadSourceHead,
                StageModel::ReadSourceHead => StageModel::ReadDestHead(bytes),
                StageModel::ReadDestHead(held) => if held == bytes {
                    StageModel::SeekSource
                } else {
                    StageModel::Done(ProbeVerdict::Different)
                },
                StageModel::SeekSource => StageModel::SeekDest,
                StageModel::SeekDest => StageModel::ReadSourceTail,
                StageModel::ReadSourceTail => StageModel::ReadDestTail(bytes),
                StageModel::ReadDestTail(held) => if held == bytes {
                    StageModel::Done(ProbeVerdict::Equal)
                } else {
                    StageModel::Done(ProbeVerdict::Different)
                },
                StageModel::Done(verdict) => StageModel::Done(verdict),
            },
        },
    }
}

/// The probe after the caller reported `event`.
pub open spec fn probe_after(probe: ProbeModel, event: EventModel) -> ProbeModel {
    ProbeModel { size: probe.size, stage: stage_after(probe.stage, event) }
}

/// What the log is told when the caller reports `event`: an error on the
/// source is logged, one on the destination is not.
pub open spec fn event_note(stage: StageModel, event: EventModel, src: PathModel) -> Option<
    NoteModel,
> {
    match event {
        Ok(_) => None,
        Err(text) => match stage {
            StageModel::OpenSource => Some(failure_note("Failed to open "@, src, text)),
            StageModel::ReadSourceHead => Some(failure_note("Failed to read "@, src, text)),
            StageModel::SeekSource => Some(failure_note("Failed to seek "@, src, text)),
            StageModel::ReadSourceTail => Some(failure_note("Failed to read "@, src, text)),
            _ => None,
        },
    }
}

/// Whether two byte strings are the same.
fn same_bytes(a: &Vec<u8>, b: &Vec<u8>) -> (r: bool)
    ensures
        r == (a@ == b@),
{
    if a.len() != b.len() {
        return false;
    }
    let mut i: usize = 0;
    while i < a.len()
        invariant
            i <= a.len(),
            a.len() == b.len(),
            forall|k: int| 0 <= k < i ==> a@[k] == b@[k],
        decreases a.len() - i,
    {
        if a[i] != b[i] {
            return false;
        }
        i = i + 1;
    }
    assert(a@ =~= b@);
    true
}

impl Probe {
    /// Starts a probe that compares `size` bytes at each end.
    pub fn start(size: u64) -> (probe: Probe)
        ensures
            probe@ == probe_start(size),
    {
        if size == 0 {
            Probe { size, stage: ProbeStage::Done(ProbeVerdict::Equal) }
        } else {
            Probe { size, stage: ProbeStage::OpenSource }
        }
    }

    /// What the caller is to do next.
    pub fn action(&self) -> (action: ProbeAction)
        ensures
            action == action_of(self@),
    {
        match &self.stage {
            ProbeStage::OpenSource => ProbeAction::Open(Side::Source),
            ProbeStage::OpenDest => ProbeAction::Open(Side::Dest),
            ProbeStage::ReadSourceHead => ProbeAction::Read(Side::Source, self.size),
            ProbeStage::ReadDestHead(_) => ProbeAction::Read(Side::Dest, self.size),
            ProbeStage::SeekSource => ProbeAction::SeekFromEnd(Side::Source, self.size),
            ProbeStage::SeekDest => ProbeAction::SeekFromEnd(Side::Dest, self.size),
            ProbeStage::ReadSourceTail => ProbeAction::Read(Side::Source, self.size),
            ProbeStage::ReadDestTail(_) => ProbeAction::Read(Side::Dest, self.size),
            ProbeStage::Done(verdict) => ProbeAction::Finish(*verdict),
        }
    }

    /// Takes the caller's report on the action that [`Probe::action`] named
    /// and moves on. `src` is the path of the source, for the log.
    pub fn advance(self, event: Result<Vec<u8>, String>, src: &SyncPath) -> (r: (
        Probe,
        Option<LogNote>,
    ))
        ensures
            r.0@ == probe_after(self@, event_view(event)),
            note_view(r.1) == event_note(self@.stage, event_view(event), src@),
    {
        let size = self.size;
        match self.stage {
            ProbeStage::Done(verdict) => {
                let note = match event {
                    Ok(_) => None,
                    Err(_) => None,
                };
                (Probe { size, stage: ProbeStage::Done(verdict) }, note)
            },
            ProbeStage::OpenSource => match event {
                Ok(_) => (Probe { size, stage: ProbeStage::OpenDest }, None),
                Err(text) => (
                    Probe { size, stage: ProbeStage::Done(ProbeVerdict::Failed) },
                    Some(LogNote::failure("Failed to open ", src, text.as_str())),
                ),
            },
            ProbeStage::OpenDest => match event {
                Ok(_) => (Probe { size, stage: ProbeStage::ReadSourceHead }, None),
                Err(_) => (Probe { size, stage: ProbeStage::Done(ProbeVerdict::Failed) }, None),
            },
            ProbeStage::ReadSourceHead => match event {
                Ok(bytes) => (Probe { size, stage: ProbeStage::ReadDestHead(bytes) }, None),
                Err(text) => (
                    Probe { size, stage: ProbeStage::Done(ProbeVerdict::Failed) },
                    Some(LogNote::failure("Failed to read ", src, text.as_str())),
                ),
            },
            ProbeStage::ReadDestHead(held) => match event {
                Ok(bytes) => {
                    if same_bytes(&held, &bytes) {
                        (Probe { size, stage: ProbeStage::SeekSource }, None)
                    } else {
                        (Probe { size, stage: ProbeStage::Done(ProbeVerdict::Different) }, None)
                    }
                },
                Err(_) => (Probe { size, stage: ProbeStage::Done(ProbeVerdict::Failed) }, None),
            },
            ProbeStage::SeekSource => match event {
                Ok(_) => (Probe { size, stage: ProbeStage::SeekDest }, None),
                Err(text) => (
                    Probe { size, stage: ProbeStage::Done(ProbeVerdict::Failed) },
                    Some(LogNote::failure("Failed to seek ", src, text.as_str())),
                ),
            },
            ProbeStage::SeekDest => match event {
                Ok(_) => (Probe { size, stage: ProbeStage::ReadSourceTail }, None),
                Err(_) => (Probe { size, stage: ProbeStage::Done(ProbeVerdict::Failed) }, None),
            },
            ProbeStage::ReadSourceTail => match event {
                Ok(bytes) => (Probe { size, stage: ProbeStage::ReadDestTail(bytes) }, None),
                Err(text) => (
                    Probe { size, stage: ProbeStage::Done(ProbeVerdict::Failed) },
                    Some(LogNote::failure("Failed to read ", src, text.as_str())),
                ),
            },
            ProbeStage::ReadDestTail(held) => match event {
                Ok(bytes) => {
                    if same_bytes(&held, &bytes) {
                        (Probe { size, stage: ProbeStage::Done(ProbeVerdict::Equal) }, None)
                    } else {
                        (Probe { size, stage: ProbeStage::Done(ProbeVerdict::Different) }, None)
                    }
                },
                Err(_) => (Probe { size, stage: ProbeStage::Done(ProbeVerdict::Failed) }, None),
            },
        }
    }
}

/// What two readable files answer to the action of a probe in `stage`: the
/// bytes asked for, and nothing for opening and positioning.
pub open spec fn answer_of(stage: StageModel, size: u64, src: Seq<u8>, dest: Seq<u8>)
    -> EventModel {
    match stage {
        StageModel::ReadSourceHead => Ok(src.take(size as int)),
        StageModel::ReadDestHead(_) => Ok(dest.take(size as int)),
        StageModel::ReadSourceTail => Ok(src.skip(src.len() - size)),
        StageModel::ReadDestTail(_) => Ok(dest.skip(dest.len() - size)),
        _ => Ok(Seq::empty()),
    }
}

/// The probe after `steps` actions on two readable files with the contents
/// `src` and `dest`.
pub open spec fn probe_run(probe: ProbeModel, src: Seq<u8>, dest: Seq<u8>, steps: nat)
    -> ProbeModel
    decreases steps,
{
    if steps == 0 {
        probe
    } else {
        probe_run(
            probe_after(probe, answer_of(probe.stage, probe.size, src, dest)),
            src,
            dest,
            (steps - 1) as nat,
        )
    }
}

/// Whether two contents agree in their first `size` and in their last `size`
/// bytes.
pub open spec fn ends_agree(src: Seq<u8>, dest: Seq<u8>, size: int) -> bool {
    src.take(size) == dest.take(size) && src.skip(src.len() - size) == dest.skip(
        dest.len() - size,
    )
}

/// The verdict of a probe of `size` bytes on two readable files.
pub open spec fn verdict_on(src: Seq<u8>, dest: Seq<u8>, size: int) -> ProbeVerdict {
    if ends_agree(src, dest, size) {
        ProbeVerdict::Equal
    } else {
        ProbeVerdict::Different
    }
}

/// A probe of two readable files, each of at least `size` bytes, is over
/// after eight actions at most, and finds the files equal exactly when their
/// first `size` bytes and their last `size` bytes agree.
pub proof fn lemma_probe_compares_the_ends(size: u64, src: Seq<u8>, dest: Seq<u8>)
    requires
        size <= src.len(),
        size <= dest.len(),
    ensures
        probe_run(probe_start(size), src, dest, 8).stage == StageModel::Done(
            verdict_on(src, dest, size as int),
        ),
{
    reveal_with_fuel(probe_run, 9);
    if size == 0 {
        assert(src.take(0) =~= dest.take(0));
        assert(src.skip(src.len() - 0) =~= dest.skip(dest.len() - 0));
    }
}

/// A probe never tells two files with the same contents apart.
pub proof fn lemma_same_contents_agree(contents: Seq<u8>, size: int)
    ensures
        verdict_on(contents, contents, size) == ProbeVerdict::Equal,
{
}

/// A probe that covers two files of the same length whole finds them equal
/// only if their contents are the same.
pub proof fn lemma_whole_probe_is_exact(src: Seq<u8>, dest: Seq<u8>)
    requires
        src.len() == dest.len(),
    ensures
        verdict_on(src, dest, src.len() as int) == ProbeVerdict::Equal <==> src == dest,
{
    assert(src.take(src.len() as int) =~= src);
    assert(dest.take(dest.len() as int) =~= dest);
}

/// Whatever the caller reports, an error ends a probe that is not over as
/// failed, and a probe that is over stays as it is.
pub proof fn lemma_probe_fails_closed(probe: ProbeModel, text: Seq<char>)
    ensures
        probe.stage is Done ==> probe_after(probe, Err(text)) == probe,
        !(probe.stage is Done) ==> probe_after(probe, Err(text)).stage == StageModel::Done(
            ProbeVerdict::Failed,
        ),
{
}

} // verus!
