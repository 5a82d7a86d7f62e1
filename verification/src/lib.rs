//! One-way directory mirroring: the decisions of the sync core.
//!
//! The library holds everything the mirroring engine decides: how one
//! destination directory is reconciled against its source, whether a file has
//! to be copied again, how a head/tail probe of two files runs, in which order
//! a worker takes work, and when the pool of workers may stop. The file system
//! itself and the worker threads are driven by the caller, which reports what
//! it found and carries out what the library asks for.

pub mod barrier;
pub mod config;
pub mod copy;
pub mod decide;
pub mod entry;
pub mod laws;
pub mod log;
pub mod operation;
pub mod path;
pub mod pool;
pub mod probe;
pub mod scan;
pub mod scan_laws;
pub mod task;
pub mod work;

pub use barrier::{BarrierAction, TerminationState};
pub use config::{PathFilter, SyncBuilder};
pub use copy::{note_removal, reason_name, Copier, CopyStage};
pub use decide::{reason_after_probe, should_copy_file, CopyReason, Gate, ProbeVerdict};
pub use entry::{DirEntry, EntryKind, FileMeta, FileTime, Stat};
pub use log::{LogNote, SyncLogEntry, SyncLogLevel};
pub use operation::SyncOperation;
pub use path::SyncPath;
pub use probe::{Probe, ProbeAction, ProbeStage, Side};
pub use scan::{
    ask_filter, note_preparation, plan_scan, prepare_dest, reconcile, scan_directory, Preparation,
    ScanPlan,
};
pub use task::{CopyTask, DirTask, IoOperation};
pub use work::{choose_job, seeds, Job};
