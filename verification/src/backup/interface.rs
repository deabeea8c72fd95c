//! The entry point of backup runs.
use crate::config::config_file::Config;
use vstd::prelude::*;

verus! {

/// The backup service of one configuration.
#[derive(Clone, Debug)]
pub struct BackupInterface(pub Config);

impl BackupInterface {
    /// The backup service of `cfg`.
    pub fn init(cfg: Config) -> (r: Self)
        ensures
            r.0 == cfg,
    {
        BackupInterface(cfg)
    }
}

/// The steps of a backup run, in the order they are taken: write the
/// tarballs, set up the store, upload, remove the tarballs; then the run is
/// done, or it failed.
#[derive(Clone, Copy, Debug, PartialEq, Eq, Structural)]
pub enum RunStep {
    WriteTarballs,
    SetUpStore,
    Upload,
    RemoveTarballs,
    Done,
    Failed,
}

/// The step that follows `step` when it succeeded or not. Only a store that
/// cannot be set up stops a run; the other steps go on whatever came of
/// them. A finished run stays where it is.
pub open spec fn run_step_after(step: RunStep, succeeded: bool) -> RunStep {
    match step {
        RunStep::WriteTarballs => RunStep::SetUpStore,
        RunStep::SetUpStore => if succeeded {
            RunStep::Upload
        } else {
            RunStep::Failed
        },
        RunStep::Upload => RunStep::RemoveTarballs,
        RunStep::RemoveTarballs => RunStep::Done,
        RunStep::Done => RunStep::Done,
        RunStep::Failed => RunStep::Failed,
    }
}

/// The step a run has reached after its steps came to `outcomes`, in order.
pub open spec fn run_step_after_all(outcomes: Seq<bool>) -> RunStep
    decreases outcomes.len(),
{
    if outcomes.len() == 0 {
        RunStep::WriteTarballs
    } else {
        run_step_after(run_step_after_all(outcomes.drop_last()), outcomes.last())
    }
}

/// The step of a backup run that comes after `step`, given whether `step`
/// succeeded.
pub fn next_run_step(step: RunStep, succeeded: bool) -> (next: RunStep)
    ensures
        next == run_step_after(step, succeeded),
        step is Upload ==> next is RemoveTarballs,
        step is RemoveTarballs ==> next is Done,
        !(step is SetUpStore) ==> next == run_step_after(step, !succeeded),
{
    match step {
        RunStep::WriteTarballs => RunStep::SetUpStore,
        RunStep::SetUpStore => if succeeded {
            RunStep::Upload
        } else {
            RunStep::Failed
        },
        RunStep::Upload => RunStep::RemoveTarballs,
        RunStep::RemoveTarballs => RunStep::Done,
        RunStep::Done => RunStep::Done,
        RunStep::Failed => RunStep::Failed,
    }
}

/// A backup run fails exactly when its store cannot be set up: after its four
/// steps, whatever came of writing, uploading and removing the tarballs, the
/// run is done when the second step (setting up the store) succeeded and
/// failed otherwise; and it stays so.
pub proof fn lemma_run_fails_only_without_store(outcomes: Seq<bool>)
    requires
        outcomes.len() >= 4,
    ensures
        run_step_after_all(outcomes) == (if outcomes[1] {
            RunStep::Done
        } else {
            RunStep::Failed
        }),
    decreases outcomes.len(),
{
    if outcomes.len() > 4 {
        lemma_run_fails_only_without_store(outcomes.drop_last());
        assert(outcomes.drop_last()[1] == outcomes[1]);
    } else {
        let o3 = outcomes.drop_last();
        let o2 = o3.drop_last();
        let o1 = o2.drop_last();
        assert(run_step_after_all(o1.drop_last()) == RunStep::WriteTarballs);
        assert(run_step_after_all(o1) == RunStep::SetUpStore);
        assert(o2.last() == outcomes[1]);
        assert(run_step_after_all(o2) == (if outcomes[1] {
            RunStep::Upload
        } else {
            RunStep::Failed
        }));
        assert(run_step_after_all(o3) == (if outcomes[1] {
            RunStep::RemoveTarballs
        } else {
            RunStep::Failed
        }));
    }
}

/// Every run that sets up its store removes its tarballs: after writing the
/// tarballs, setting up the store successfully and uploading, whatever came
/// of the writing and the upload, the next step is removing the tarballs.
/// Only the store's set-up decides where a run goes.
pub proof fn lemma_run_with_store_removes_tarballs(outcomes: Seq<bool>)
    requires
        outcomes.len() == 3,
        outcomes[1],
    ensures
        run_step_after_all(outcomes) == RunStep::RemoveTarballs,
        forall|step: RunStep, a: bool, b: bool|
            #![trigger run_step_after(step, a), run_step_after(step, b)]
            !(step is SetUpStore) ==> run_step_after(step, a) == run_step_after(step, b),
{
    let o2 = outcomes.drop_last();
    let o1 = o2.drop_last();
    assert(run_step_after_all(o1.drop_last()) == RunStep::WriteTarballs);
    assert(run_step_after_all(o1) == RunStep::SetUpStore);
    assert(o2.last() == outcomes[1]);
    assert(run_step_after_all(o2) == RunStep::Upload);
}

} // verus!
