//! Training for the regression task.

use crate::device::Device;
use crate::model::Task;
use crate::train::config::TrainingConfig;
use crate::train::run::TrainingRun;
use vstd::prelude::*;

verus! {

/// Sets out a run that trains a regressor with its artifacts in
/// `artifact_dir`. `dir_exists` says whether that directory exists; `fresh`
/// asks for a new run whatever is found there.
pub fn train(
    artifact_dir: &str,
    config: TrainingConfig,
    device: Device,
    fresh: bool,
    dir_exists: bool,
) -> (run: TrainingRun)
    ensures
        run.artifact_dir@ == artifact_dir@,
        run == TrainingRun::started(
            run.artifact_dir,
            config,
            device,
            Task::Regression,
            fresh,
            dir_exists,
        ),
        run.well_formed(),
{
    TrainingRun::start(artifact_dir, config, device, Task::Regression, fresh, dir_exists)
}

} // verus!
