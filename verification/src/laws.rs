//! Laws that hold across the decider and the probe.

use vstd::prelude::*;
use crate::config::ConfigModel;
use crate::decide::{copy_reason, gate_of, probe_size, same_time, CopyReason, Gate};
use crate::probe::{lemma_probe_compares_the_ends, probe_run, probe_start, verdict_on, StageModel};
use crate::task::CopyTaskModel;

verus! {

/// A second run copies nothing. Take a file whose destination holds the same
/// bytes as the source, as it does after a copy, and, where the date gate is
/// on, the same modified time, as it does after the copy was stamped. Then the
/// decider leaves the file alone, whatever the other settings are: where it
/// asks for a probe, the probe finds the ends equal.
pub proof fn lemma_second_run_copies_nothing(
    config: ConfigModel,
    task: CopyTaskModel,
    contents: Seq<u8>,
)
    requires
        task.src_meta.len == contents.len(),
        task.dest_meta matches Some(dest_meta) && dest_meta.len == contents.len() && (
        config.copy_contents_if_date_mismatched ==> same_time(
            task.src_meta.modified,
            dest_meta.modified,
        )),
    ensures
        copy_reason(
            config,
            task,
            verdict_on(contents, contents, probe_size(config, task)),
        ) == CopyReason::NotNeeded,
        gate_of(config, task) matches Gate::Probe(size) ==> probe_run(
            probe_start(size),
            contents,
            contents,
            8,
        ).stage == StageModel::Done(verdict_on(contents, contents, probe_size(config, task))),
{
    if let Gate::Probe(size) = gate_of(config, task) {
        lemma_probe_compares_the_ends(size, contents, contents);
    }
}

} // verus!
