//! What holds of every training run.

use crate::device::Device;
use crate::error::Failure;
use crate::model::Task;
use crate::train::checkpoint::{
    epoch_of_name, last_epoch_of, lemma_last_epoch_of_joined, lemma_written_entries_recover,
    names_of, written_names,
};
use crate::train::config::{loaded, ConfigFile, TrainingConfig};
use crate::train::run::{command_after, remaining_epochs, Command, Event, Stage, TrainingRun};
use vstd::prelude::*;

verus! {

/// Every event keeps a well-formed run well formed.
pub proof fn lemma_step_keeps_well_formed(run: TrainingRun, event: Event)
    requires
        run.well_formed(),
    ensures
        run.step(event).well_formed(),
{
}

/// A run that is finalized or failed stays as it is, whatever is reported.
pub proof fn lemma_over_is_final(run: TrainingRun, event: Event)
    requires
        run.command is Finish || run.command is Abort,
    ensures
        run.step(event) == run,
{
}

/// A failure is never retried: once a run has failed it keeps its failure.
pub proof fn lemma_failure_is_kept(run: TrainingRun, event: Event)
    requires
        run.stage == Stage::Failed,
        run.well_formed(),
    ensures
        run.step(event) == run,
{
}

/// A run never goes back to an earlier stage. An event leaves it in its
/// stage, takes it to the next one, fails it, or, where no epoch remains,
/// takes it from a ready learner straight to the end.
pub proof fn lemma_stages_follow_in_order(run: TrainingRun, event: Event)
    requires
        run.well_formed(),
    ensures
        run.step(event).stage.place() >= run.stage.place(),
        run.step(event).stage == run.stage || run.step(event).stage == Stage::Failed
            || run.step(event).stage.place() == run.stage.place() + 1 || (run.stage
            == Stage::LearnerReady && run.step(event).stage == Stage::Finalized
            && run.last_epoch >= run.config.num_epochs),
{
}

/// The engine is seeded once: the command to seed is outstanding only while
/// the configuration record has just been persisted, and carrying it out
/// leads on to the building of the pipelines.
pub proof fn lemma_seed_is_asked_once(run: TrainingRun, event: Event)
    requires
        run.well_formed(),
    ensures
        run.step(event).command is Seed ==> run.step(event).stage == Stage::ConfigPersisted && (
        run.stage == Stage::FreshInit || run.step(event) == run),
        run.command is Seed && event is Done ==> run.step(event).command is BuildPipelines,
{
}

/// No event changes where a run keeps its artifacts, what it trains for,
/// where it computes, or whether it takes up an earlier run.
pub proof fn lemma_setting_is_fixed(run: TrainingRun, event: Event)
    ensures
        run.step(event).artifact_dir == run.artifact_dir,
        run.step(event).task == run.task,
        run.step(event).device == run.device,
        run.step(event).resume == run.resume,
{
}

/// Once the configuration record is persisted, no event changes it.
pub proof fn lemma_config_is_fixed_once_persisted(run: TrainingRun, event: Event)
    requires
        run.well_formed(),
        run.stage != Stage::FreshInit,
    ensures
        run.step(event).config == run.config,
{
}

/// A run that takes up an earlier one goes on with the persisted
/// configuration record and with nothing of the record that it was called
/// with: two such runs that differ in that record alone are the same run
/// once the persisted record is read.
pub proof fn lemma_resume_goes_by_persisted_config(
    artifact_dir: String,
    first: TrainingConfig,
    second: TrainingConfig,
    device: Device,
    task: Task,
    file: ConfigFile,
)
    ensures
        ({
            let a = TrainingRun::started(artifact_dir, first, device, task, false, true);
            let b = TrainingRun::started(artifact_dir, second, device, task, false, true);
            &&& a.command == Command::LoadConfig
            &&& loaded(file) is Ok ==> a.step(Event::ConfigRead(file)) == b.step(
                Event::ConfigRead(file),
            ) && a.step(Event::ConfigRead(file)).config == loaded(file)->Ok_0
            &&& loaded(file) matches Err(e) ==> a.step(Event::ConfigRead(file)).command
                == (Command::Abort { failure: Failure::ConfigLoadError(e) })
        }),
{
}

/// A run that starts afresh, or finds no artifact directory, has the
/// directory made anew and persists the record that it was called with.
pub proof fn lemma_fresh_run_persists_its_config(
    artifact_dir: String,
    config: TrainingConfig,
    device: Device,
    task: Task,
    fresh: bool,
    dir_exists: bool,
)
    requires
        fresh || !dir_exists,
    ensures
        ({
            let run = TrainingRun::started(artifact_dir, config, device, task, fresh, dir_exists);
            &&& run.command == Command::CreateArtifactDir
            &&& run.step(Event::Done).command == Command::SaveConfig
            &&& run.step(Event::Done).step(Event::Done).stage == Stage::ConfigPersisted
            &&& run.step(Event::Done).step(Event::Done).config == config
        }),
{
}

/// The engine is seeded from the record in force, and before any pipeline is
/// built or any parameter made.
pub proof fn lemma_seed_comes_first(run: TrainingRun, event: Event)
    requires
        run.well_formed(),
        run.stage == Stage::FreshInit,
        run.step(event).stage != Stage::FreshInit,
        run.step(event).stage != Stage::Failed,
    ensures
        run.step(event).command == (Command::Seed { seed: run.step(event).config.seed }),
{
}

/// The count of completed epochs never goes down, and the only checkpoint
/// that a run is asked to write is that of the epoch after the last one
/// completed.
pub proof fn lemma_epochs_are_monotonic(run: TrainingRun, event: Event)
    requires
        run.well_formed(),
    ensures
        run.step(event).last_epoch >= run.last_epoch,
        run.command matches Command::WriteCheckpoint { epoch } ==> epoch == run.last_epoch + 1,
        run.command is WriteCheckpoint && event is Done ==> run.step(event).last_epoch
            == run.last_epoch + 1,
{
}

/// A listing in which no checkpoint is found lets a resumed run number its
/// epochs as a fresh run does: both go on to the same command, with no epoch
/// complete and nothing to restore.
pub proof fn lemma_resume_from_nothing_is_a_fresh_start(
    resumed: TrainingRun,
    fresh: TrainingRun,
    entries: Vec<String>,
)
    requires
        resumed.well_formed(),
        fresh.well_formed(),
        resumed.command == Command::ScanCheckpoints,
        fresh.command == Command::AssembleLearner,
        !fresh.resume,
        resumed.config.num_epochs == fresh.config.num_epochs,
        last_epoch_of(names_of(entries@)) == 0,
    ensures
        resumed.step(Event::Listing(entries)).command == fresh.step(Event::Done).command,
        resumed.step(Event::Listing(entries)).stage == fresh.step(Event::Done).stage,
        resumed.step(Event::Listing(entries)).last_epoch == 0,
        fresh.step(Event::Done).last_epoch == 0,
        fresh.step(Event::Done).command == command_after(0, fresh.config.num_epochs),
{
}

/// Carrying out `a` commands and then `b` more is carrying out `a + b`.
pub proof fn lemma_after_done_adds(run: TrainingRun, a: nat, b: nat)
    ensures
        run.after_done(a + b) == run.after_done(a).after_done(b),
    decreases a,
{
    if a > 0 {
        lemma_after_done_adds(run.step(Event::Done), (a - 1) as nat, b);
        assert(run.after_done(a + b) == run.step(Event::Done).after_done((a + b - 1) as nat));
    }
}

/// Each epoch takes three commands: train, validate, write the checkpoint.
/// A run that is about to train an epoch and has `k` or more epochs left has,
/// after `3 * k` commands, completed `k` more epochs and changed nothing else.
pub proof fn lemma_epochs_advance(run: TrainingRun, k: nat)
    requires
        run.well_formed(),
        run.command is TrainEpoch,
        run.last_epoch + k <= run.config.num_epochs,
    ensures
        run.after_done(3 * k) == (TrainingRun {
            stage: if k == 0 {
                run.stage
            } else {
                Stage::EpochLoop
            },
            command: command_after((run.last_epoch + k) as usize, run.config.num_epochs),
            last_epoch: (run.last_epoch + k) as usize,
            ..run
        }),
    decreases k,
{
    if k > 0 {
        let trained = run.step(Event::Done);
        let validated = trained.step(Event::Done);
        let written = validated.step(Event::Done);
        assert(run.after_done(3) == written) by {
            assert(run.after_done(3) == trained.after_done(2));
            assert(trained.after_done(2) == validated.after_done(1));
            assert(validated.after_done(1) == written.after_done(0));
        }
        lemma_after_done_adds(run, 3, (3 * (k - 1)) as nat);
        assert(3 + 3 * (k - 1) == 3 * k);
        if k > 1 {
            lemma_epochs_advance(written, (k - 1) as nat);
        } else {
            assert(written.after_done(0) == written);
        }
    } else {
        assert(run.after_done(0) == run);
    }
}

/// A run whose learner is ready and whose every command is carried out
/// completes all epochs that remain and is then finalized.
pub proof fn lemma_loop_runs_to_completion(run: TrainingRun)
    requires
        run.well_formed(),
        run.stage == Stage::LearnerReady,
    ensures
        ({
            let left = if run.last_epoch < run.config.num_epochs {
                (run.config.num_epochs - run.last_epoch) as nat
            } else {
                0
            };
            let end = run.after_done(3 * left + 1);
            &&& end.stage == Stage::Finalized
            &&& end.command == Command::Finish
            &&& end.config == run.config
            &&& end.last_epoch == if left == 0 {
                run.last_epoch
            } else {
                run.config.num_epochs
            }
        }),
{
    let left = if run.last_epoch < run.config.num_epochs {
        (run.config.num_epochs - run.last_epoch) as nat
    } else {
        0
    };
    lemma_after_done_adds(run, 3 * left, 1);
    let before = run.after_done(3 * left);
    if left > 0 {
        lemma_epochs_advance(run, left);
    } else {
        assert(run.after_done(0) == run);
    }
    assert(before.command == Command::SaveModel);
    assert(before.after_done(1) == before.step(Event::Done).after_done(0));
}

/// A fresh run whose every command is carried out is finalized after
/// `3 * num_epochs + 6` commands, with every epoch complete and under the
/// record that it was called with.
pub proof fn lemma_fresh_run_completes(
    artifact_dir: String,
    config: TrainingConfig,
    device: Device,
    task: Task,
)
    ensures
        ({
            let run = TrainingRun::started(artifact_dir, config, device, task, true, false);
            let end = run.after_done((3 * config.num_epochs + 6) as nat);
            &&& end.stage == Stage::Finalized
            &&& end.config == config
            &&& end.last_epoch == config.num_epochs
        }),
{
    let run = TrainingRun::started(artifact_dir, config, device, task, true, false);
    let s1 = run.step(Event::Done);
    let s2 = s1.step(Event::Done);
    let s3 = s2.step(Event::Done);
    let s4 = s3.step(Event::Done);
    let s5 = s4.step(Event::Done);
    assert(run.after_done(5) == s5) by {
        assert(run.after_done(5) == s1.after_done(4));
        assert(s1.after_done(4) == s2.after_done(3));
        assert(s2.after_done(3) == s3.after_done(2));
        assert(s3.after_done(2) == s4.after_done(1));
        assert(s4.after_done(1) == s5.after_done(0));
    }
    assert(s5 == s4.learner_ready(0));
    lemma_after_done_adds(run, 5, (3 * config.num_epochs + 1) as nat);
    lemma_loop_runs_to_completion(s5);
}

/// Stopping and resuming does not change the numbering of epochs. An
/// uninterrupted run that has completed `k` epochs, and a run that restores
/// the checkpoint of epoch `k` under the same record, await the same command
/// with the same count of completed epochs.
pub proof fn lemma_resumed_run_joins_uninterrupted_run(
    uninterrupted: TrainingRun,
    resumed: TrainingRun,
    k: nat,
)
    requires
        uninterrupted.well_formed(),
        uninterrupted.stage == Stage::LearnerReady,
        uninterrupted.last_epoch == 0,
        resumed.well_formed(),
        resumed.command == (Command::RestoreCheckpoint { epoch: k as usize }),
        resumed.config == uninterrupted.config,
        1 <= k <= uninterrupted.config.num_epochs,
    ensures
        uninterrupted.after_done(3 * k).command == resumed.step(Event::Done).command,
        uninterrupted.after_done(3 * k).last_epoch == resumed.step(Event::Done).last_epoch,
        uninterrupted.after_done(3 * k).last_epoch == k,
        uninterrupted.after_done(3 * k).config == resumed.step(Event::Done).config,
{
    lemma_epochs_advance(uninterrupted, k);
}

/// The epochs that remain after `a` are those that remain up to `b` followed
/// by those that remain after `b`: training `c` epochs in one run, or `b`
/// epochs in one run and the rest in another, passes through the same epochs
/// in the same order.
pub proof fn lemma_remaining_epochs_split(a: nat, b: nat, c: nat)
    requires
        a <= b <= c,
    ensures
        remaining_epochs(a, c) == remaining_epochs(a, b) + remaining_epochs(b, c),
{
    assert(remaining_epochs(a, c) =~= remaining_epochs(a, b) + remaining_epochs(b, c));
}

/// After `done` epochs the run trains epoch `done + 1` next where an epoch
/// remains, and saves the model where none does.
pub proof fn lemma_command_follows_remaining_epochs(done: usize, total: usize)
    ensures
        remaining_epochs(done as nat, total as nat).len() > 0 ==> command_after(done, total) == (
        Command::TrainEpoch { epoch: remaining_epochs(done as nat, total as nat)[0] as usize }),
        remaining_epochs(done as nat, total as nat).len() == 0 ==> command_after(done, total)
            == Command::SaveModel,
{
}

/// An interrupted run leaves the checkpoints of the epochs that it has
/// completed. A run that takes it up, and finds the entries of epochs 1 to
/// `k` beside entries that are no checkpoints, restores the checkpoint of
/// epoch `k` and goes on with epoch `k + 1`, or saves the model where `k`
/// epochs are all.
pub proof fn lemma_resume_continues_after_last_written(
    run: TrainingRun,
    entries: Vec<String>,
    k: nat,
    others: Seq<Seq<char>>,
)
    requires
        run.well_formed(),
        run.command == Command::ScanCheckpoints,
        1 <= k <= usize::MAX,
        forall|i: int| 0 <= i < others.len() ==> epoch_of_name(#[trigger] others[i]) is None,
        names_of(entries@) == written_names(k) + others,
    ensures
        run.step(Event::Listing(entries)).command == (Command::RestoreCheckpoint {
            epoch: k as usize,
        }),
        run.step(Event::Listing(entries)).step(Event::Done).last_epoch == k,
        run.step(Event::Listing(entries)).step(Event::Done).command == command_after(
            k as usize,
            run.config.num_epochs,
        ),
        run.step(Event::Listing(entries)).step(Event::Done).stage == Stage::LearnerReady,
{
    lemma_written_entries_recover(k);
    lemma_last_epoch_of_joined(written_names(k), others);
    crate::train::checkpoint::lemma_no_checkpoint_recovers_zero(others);
}

} // verus!
