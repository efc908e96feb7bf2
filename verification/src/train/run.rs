//! The lifecycle of a training run, as a machine that is told what happened
//! and answers what to do next.
//!
//! The machine performs nothing itself. It holds the run's state and one
//! outstanding command. Whoever drives it carries the command out (writes the
//! file, seeds the engine, trains the epoch) and reports the outcome as an
//! event; the machine then moves on and holds the next command. An event that
//! does not answer the outstanding command leaves the run as it is.
//!
//! A run passes through the stages `FreshInit`, `ConfigPersisted`,
//! `DataReady`, `LearnerReady` and `EpochLoop` to `Finalized`. Any failure
//! ends it in `Failed`; nothing is retried.

use crate::device::Device;
use crate::error::{ConfigLoadError, Failure, ModelLoadError, ShapeMismatchError};
use crate::model::Task;
use crate::train::checkpoint::{get_last_epoch, last_epoch_of, names_of};
use crate::train::config::{loaded, ConfigFile, TrainingConfig};
use vstd::prelude::*;
use vstd::string::*;

verus! {

/// The milestone that a run has reached.
#[derive(Clone, Copy, Debug, PartialEq, Eq, Structural)]
pub enum Stage {
    /// Nothing is settled yet.
    FreshInit,
    /// The configuration record of the run is fixed and on disk.
    ConfigPersisted,
    /// The engine is seeded and both data pipelines are built.
    DataReady,
    /// The learner is assembled and, on a resume, restored.
    LearnerReady,
    /// At least one epoch has been trained by this run.
    EpochLoop,
    /// The trained model is saved.
    Finalized,
    /// The run was aborted.
    Failed,
}

impl Stage {
    /// The place of the stage in the course of a run.
    pub open spec fn place(self) -> nat {
        match self {
            Stage::FreshInit => 0,
            Stage::ConfigPersisted => 1,
            Stage::DataReady => 2,
            Stage::LearnerReady => 3,
            Stage::EpochLoop => 4,
            Stage::Finalized => 5,
            Stage::Failed => 6,
        }
    }
}

/// What the driver of a run is asked to do.
#[derive(Clone, Copy, Debug, PartialEq, Eq, Structural)]
pub enum Command {
    /// Remove the artifact directory with all it holds and create it anew.
    CreateArtifactDir,
    /// Write the run's configuration record to its file.
    SaveConfig,
    /// Read the persisted configuration record.
    LoadConfig,
    /// Seed the numeric engine.
    Seed { seed: u64 },
    /// Build the training and the validation pipeline, each with these
    /// settings; the validation pipeline feeds a model in evaluation mode.
    BuildPipelines { batch_size: usize, seed: u64, num_workers: usize },
    /// Build a fresh model and its optimizer from the configuration record.
    AssembleLearner,
    /// List the entries of the training-history directory.
    ScanCheckpoints,
    /// Restore model and optimizer from the checkpoint of `epoch`.
    RestoreCheckpoint { epoch: usize },
    /// Run every training batch of `epoch`, updating after each.
    TrainEpoch { epoch: usize },
    /// Run every validation batch of `epoch`, updating nothing.
    ValidateEpoch { epoch: usize },
    /// Write the checkpoint of `epoch`: model and optimizer state.
    WriteCheckpoint { epoch: usize },
    /// Write the trained model.
    SaveModel,
    /// Nothing is left to do: the run is finalized.
    Finish,
    /// Nothing can be done: the run has failed.
    Abort { failure: Failure },
}

/// What the driver reports of the outstanding command.
#[derive(Debug, PartialEq, Eq)]
pub enum Event {
    /// The command was carried out.
    Done,
    /// The persisted configuration record was read, and this is it.
    ConfigRead(ConfigFile),
    /// The training-history directory was listed, and these are its entries.
    Listing(Vec<String>),
    /// A file or a directory could not be read or written.
    Failed,
    /// The model met a width other than the one it was built for.
    ShapeMismatch(ShapeMismatchError),
}

/// A training run.
#[derive(Debug, PartialEq, Eq)]
pub struct TrainingRun {
    /// The milestone reached.
    pub stage: Stage,
    /// The outstanding command.
    pub command: Command,
    /// The root of the run's artifacts.
    pub artifact_dir: String,
    /// The objective.
    pub task: Task,
    /// The placement of all numeric buffers of the run.
    pub device: Device,
    /// Whether the run takes up an earlier one: it was not asked to start
    /// afresh and the artifact directory exists.
    pub resume: bool,
    /// The configuration record in force.
    pub config: TrainingConfig,
    /// The last epoch whose checkpoint exists, or 0.
    pub last_epoch: usize,
}

/// The command that follows once `last_epoch` epochs out of `num_epochs` are
/// complete.
pub open spec fn command_after(last_epoch: usize, num_epochs: usize) -> Command {
    if last_epoch < num_epochs {
        Command::TrainEpoch { epoch: (last_epoch + 1) as usize }
    } else {
        Command::SaveModel
    }
}

/// The epochs that remain once `done` epochs out of `total` are complete:
/// `done + 1`, ..., `total`, in this order.
pub open spec fn remaining_epochs(done: nat, total: nat) -> Seq<nat> {
    if done < total {
        Seq::new((total - done) as nat, |i: int| (done + 1 + i) as nat)
    } else {
        Seq::empty()
    }
}

impl TrainingRun {
    /// The run as `train` sets it out.
    pub open spec fn started(
        artifact_dir: String,
        config: TrainingConfig,
        device: Device,
        task: Task,
        fresh: bool,
        dir_exists: bool,
    ) -> TrainingRun {
        let resume = !fresh && dir_exists;
        TrainingRun {
            stage: Stage::FreshInit,
            command: if resume {
                Command::LoadConfig
            } else {
                Command::CreateArtifactDir
            },
            artifact_dir,
            task,
            device,
            resume,
            config,
            last_epoch: 0,
        }
    }

    /// The run, failed.
    pub open spec fn failed(self, failure: Failure) -> TrainingRun {
        TrainingRun { stage: Stage::Failed, command: Command::Abort { failure }, ..self }
    }

    /// The run with its configuration record fixed to `config`.
    pub open spec fn persisted(self, config: TrainingConfig) -> TrainingRun {
        TrainingRun {
            stage: Stage::ConfigPersisted,
            command: Command::Seed { seed: config.seed },
            config,
            ..self
        }
    }

    /// The run with its learner ready and `last_epoch` epochs complete.
    pub open spec fn learner_ready(self, last_epoch: usize) -> TrainingRun {
        TrainingRun {
            stage: Stage::LearnerReady,
            command: command_after(last_epoch, self.config.num_epochs),
            last_epoch,
            ..self
        }
    }

    /// The run after `event`.
    pub open spec fn step(self, event: Event) -> TrainingRun {
        match self.command {
            Command::CreateArtifactDir => match event {
                Event::Done => TrainingRun { command: Command::SaveConfig, ..self },
                _ => self,
            },
            Command::SaveConfig => match event {
                Event::Done => self.persisted(self.config),
                Event::Failed => self.failed(Failure::ConfigSaveError),
                _ => self,
            },
            Command::LoadConfig => match event {
                Event::ConfigRead(file) => match loaded(file) {
                    Ok(config) => self.persisted(config),
                    Err(e) => self.failed(Failure::ConfigLoadError(e)),
                },
                Event::Failed => self.failed(
                    Failure::ConfigLoadError(ConfigLoadError::Unreadable),
                ),
                _ => self,
            },
            Command::Seed { .. } => match event {
                Event::Done => TrainingRun {
                    command: Command::BuildPipelines {
                        batch_size: self.config.batch_size,
                        seed: self.config.seed,
                        num_workers: self.config.num_workers,
                    },
                    ..self
                },
                _ => self,
            },
            Command::BuildPipelines { .. } => match event {
                Event::Done => TrainingRun {
                    stage: Stage::DataReady,
                    command: Command::AssembleLearner,
                    ..self
                },
                _ => self,
            },
            Command::AssembleLearner => match event {
                Event::Done => if self.resume {
                    TrainingRun { command: Command::ScanCheckpoints, ..self }
                } else {
                    self.learner_ready(0)
                },
                _ => self,
            },
            Command::ScanCheckpoints => match event {
                Event::Listing(entries) => {
                    let epoch = last_epoch_of(names_of(entries@)) as usize;
                    if epoch == 0 {
                        self.learner_ready(0)
                    } else {
                        TrainingRun { command: Command::RestoreCheckpoint { epoch }, ..self }
                    }
                },
                Event::Failed => self.failed(Failure::DirectoryError),
                _ => self,
            },
            Command::RestoreCheckpoint { epoch } => match event {
                Event::Done => self.learner_ready(epoch),
                Event::Failed => self.failed(Failure::ModelLoadError(ModelLoadError::Unreadable)),
                Event::ShapeMismatch(e) => self.failed(
                    Failure::ModelLoadError(ModelLoadError::Shape(e)),
                ),
                _ => self,
            },
            Command::TrainEpoch { epoch } => match event {
                Event::Done => TrainingRun {
                    stage: Stage::EpochLoop,
                    command: Command::ValidateEpoch { epoch },
                    ..self
                },
                Event::ShapeMismatch(e) => self.failed(Failure::ShapeMismatchError(e)),
                _ => self,
            },
            Command::ValidateEpoch { epoch } => match event {
                Event::Done => TrainingRun { command: Command::WriteCheckpoint { epoch }, ..self },
                Event::ShapeMismatch(e) => self.failed(Failure::ShapeMismatchError(e)),
                _ => self,
            },
            Command::WriteCheckpoint { epoch } => match event {
                Event::Done => TrainingRun {
                    command: command_after(epoch, self.config.num_epochs),
                    last_epoch: epoch,
                    ..self
                },
                Event::Failed => self.failed(Failure::ModelSaveError),
                _ => self,
            },
            Command::SaveModel => match event {
                Event::Done => TrainingRun {
                    stage: Stage::Finalized,
                    command: Command::Finish,
                    ..self
                },
                Event::Failed => self.failed(Failure::ModelSaveError),
                _ => self,
            },
            Command::Finish => self,
            Command::Abort { .. } => self,
        }
    }

    /// The run after `k` commands in a row were carried out.
    pub open spec fn after_done(self, k: nat) -> TrainingRun
        decreases k,
    {
        if k == 0 {
            self
        } else {
            self.step(Event::Done).after_done((k - 1) as nat)
        }
    }

    /// Stage, command and progress agree with each other and with the
    /// configuration record. Every run that `train` sets out is well formed,
    /// and every event keeps it so.
    pub open spec fn well_formed(self) -> bool {
        match self.command {
            Command::CreateArtifactDir => self.stage == Stage::FreshInit && !self.resume
                && self.last_epoch == 0,
            Command::SaveConfig => self.stage == Stage::FreshInit && !self.resume
                && self.last_epoch == 0,
            Command::LoadConfig => self.stage == Stage::FreshInit && self.resume && self.last_epoch
                == 0,
            Command::Seed { seed } => self.stage == Stage::ConfigPersisted && seed
                == self.config.seed && self.last_epoch == 0,
            Command::BuildPipelines { batch_size, seed, num_workers } => self.stage
                == Stage::ConfigPersisted && batch_size == self.config.batch_size && seed
                == self.config.seed && num_workers == self.config.num_workers && self.last_epoch
                == 0,
            Command::AssembleLearner => self.stage == Stage::DataReady && self.last_epoch == 0,
            Command::ScanCheckpoints => self.stage == Stage::DataReady && self.resume
                && self.last_epoch == 0,
            Command::RestoreCheckpoint { epoch } => self.stage == Stage::DataReady && self.resume
                && epoch >= 1 && self.last_epoch == 0,
            Command::TrainEpoch { epoch } => (self.stage == Stage::LearnerReady || self.stage
                == Stage::EpochLoop) && epoch == self.last_epoch + 1 && epoch
                <= self.config.num_epochs,
            Command::ValidateEpoch { epoch } => self.stage == Stage::EpochLoop && epoch
                == self.last_epoch + 1 && epoch <= self.config.num_epochs,
            Command::WriteCheckpoint { epoch } => self.stage == Stage::EpochLoop && epoch
                == self.last_epoch + 1 && epoch <= self.config.num_epochs,
            Command::SaveModel => (self.stage == Stage::LearnerReady || self.stage
                == Stage::EpochLoop) && self.last_epoch >= self.config.num_epochs,
            Command::Finish => self.stage == Stage::Finalized && self.last_epoch
                >= self.config.num_epochs,
            Command::Abort { .. } => self.stage == Stage::Failed,
        }
    }

    /// Sets out a run in `artifact_dir`. The run takes up an earlier one where
    /// it is not asked to start afresh and the directory exists; it then asks
    /// for the persisted configuration record and lets `config` go. Else it
    /// asks for the directory to be made anew and keeps `config`.
    pub fn start(
        artifact_dir: &str,
        config: TrainingConfig,
        device: Device,
        task: Task,
        fresh: bool,
        dir_exists: bool,
    ) -> (run: TrainingRun)
        ensures
            run.artifact_dir@ == artifact_dir@,
            run == TrainingRun::started(run.artifact_dir, config, device, task, fresh, dir_exists),
            run.well_formed(),
    {
        let resume = !fresh && dir_exists;
        TrainingRun {
            stage: Stage::FreshInit,
            command: if resume {
                Command::LoadConfig
            } else {
                Command::CreateArtifactDir
            },
            artifact_dir: String::from_str(artifact_dir),
            task,
            device,
            resume,
            config,
            last_epoch: 0,
        }
    }

    /// The outstanding command.
    pub fn command(&self) -> (command: Command)
        ensures
            command == self.command,
    {
        self.command
    }

    /// The milestone reached.
    pub fn stage(&self) -> (stage: Stage)
        ensures
            stage == self.stage,
    {
        self.stage
    }

    /// The configuration record in force.
    pub fn config(&self) -> (config: &TrainingConfig)
        ensures
            *config == self.config,
    {
        &self.config
    }

    /// The last epoch whose checkpoint exists, or 0.
    pub fn last_epoch(&self) -> (epoch: usize)
        ensures
            epoch == self.last_epoch,
    {
        self.last_epoch
    }

    /// Whether the run is over, finalized or failed.
    pub fn is_over(&self) -> (over: bool)
        ensures
            over == (self.command is Finish || self.command is Abort),
    {
        match self.command {
            Command::Finish => true,
            Command::Abort { .. } => true,
            _ => false,
        }
    }

    /// The failure that ended the run, if one did.
    pub fn failure(&self) -> (failure: Option<Failure>)
        ensures
            failure == (match self.command {
                Command::Abort { failure } => Some(failure),
                _ => None,
            }),
    {
        match self.command {
            Command::Abort { failure } => Some(failure),
            _ => None,
        }
    }

    /// The run, failed.
    fn fail(self, failure: Failure) -> (next: TrainingRun)
        ensures
            next == self.failed(failure),
    {
        TrainingRun { stage: Stage::Failed, command: Command::Abort { failure }, ..self }
    }

    /// The run with its configuration record fixed to `config`.
    fn persist(self, config: TrainingConfig) -> (next: TrainingRun)
        ensures
            next == self.persisted(config),
    {
        let seed = config.seed;
        TrainingRun {
            stage: Stage::ConfigPersisted,
            command: Command::Seed { seed },
            config,
            ..self
        }
    }

    /// The run with its learner ready and `last_epoch` epochs complete.
    fn enter_loop(self, last_epoch: usize) -> (next: TrainingRun)
        ensures
            next == self.learner_ready(last_epoch),
    {
        let command = next_command(last_epoch, self.config.num_epochs);
        TrainingRun { stage: Stage::LearnerReady, command, last_epoch, ..self }
    }

    /// Takes note of `event` and moves on to the next command.
    pub fn advance(self, event: Event) -> (next: TrainingRun)
        ensures
            next == self.step(event),
            self.well_formed() ==> next.well_formed(),
    {
        match self.command {
            Command::CreateArtifactDir => match event {
                Event::Done => TrainingRun { command: Command::SaveConfig, ..self },
                _ => self,
            },
            Command::SaveConfig => match event {
                Event::Done => {
                    let config = self.config.clone();
                    self.persist(config)
                },
                Event::Failed => self.fail(Failure::ConfigSaveError),
                _ => self,
            },
            Command::LoadConfig => match event {
                Event::ConfigRead(file) => match TrainingConfig::load(file) {
                    Ok(config) => self.persist(config),
                    Err(e) => self.fail(Failure::ConfigLoadError(e)),
                },
                Event::Failed => self.fail(Failure::ConfigLoadError(ConfigLoadError::Unreadable)),
                _ => self,
            },
            Command::Seed { .. } => match event {
                Event::Done => {
                    let command = Command::BuildPipelines {
                        batch_size: self.config.batch_size,
                        seed: self.config.seed,
                        num_workers: self.config.num_workers,
                    };
                    TrainingRun { command, ..self }
                },
                _ => self,
            },
            Command::BuildPipelines { .. } => match event {
                Event::Done => TrainingRun {
                    stage: Stage::DataReady,
                    command: Command::AssembleLearner,
                    ..self
                },
                _ => self,
            },
            Command::AssembleLearner => match event {
                Event::Done => if self.resume {
                    TrainingRun { command: Command::ScanCheckpoints, ..self }
                } else {
                    self.enter_loop(0)
                },
                _ => self,
            },
            Command::ScanCheckpoints => match event {
                Event::Listing(entries) => {
                    let epoch = get_last_epoch(&entries);
                    if epoch == 0 {
                        self.enter_loop(0)
                    } else {
                        TrainingRun { command: Command::RestoreCheckpoint { epoch }, ..self }
                    }
                },
                Event::Failed => self.fail(Failure::DirectoryError),
                _ => self,
            },
            Command::RestoreCheckpoint { epoch } => match event {
                Event::Done => self.enter_loop(epoch),
                Event::Failed => self.fail(Failure::ModelLoadError(ModelLoadError::Unreadable)),
                Event::ShapeMismatch(e) => self.fail(
                    Failure::ModelLoadError(ModelLoadError::Shape(e)),
                ),
                _ => self,
            },
            Command::TrainEpoch { epoch } => match event {
                Event::Done => TrainingRun {
                    stage: Stage::EpochLoop,
                    command: Command::ValidateEpoch { epoch },
                    ..self
                },
                Event::ShapeMismatch(e) => self.fail(Failure::ShapeMismatchError(e)),
                _ => self,
            },
            Command::ValidateEpoch { epoch } => match event {
                Event::Done => TrainingRun { command: Command::WriteCheckpoint { epoch }, ..self },
                Event::ShapeMismatch(e) => self.fail(Failure::ShapeMismatchError(e)),
                _ => self,
            },
            Command::WriteCheckpoint { epoch } => match event {
                Event::Done => {
                    let command = next_command(epoch, self.config.num_epochs);
                    TrainingRun { command, last_epoch: epoch, ..self }
                },
                Event::Failed => self.fail(Failure::ModelSaveError),
                _ => self,
            },
            Command::SaveModel => match event {
                Event::Done => TrainingRun {
                    stage: Stage::Finalized,
                    command: Command::Finish,
                    ..self
                },
                Event::Failed => self.fail(Failure::ModelSaveError),
                _ => self,
            },
            Command::Finish => self,
            Command::Abort { .. } => self,
        }
    }
}

/// The command that follows once `last_epoch` epochs out of `num_epochs` are
/// complete: the training of the next epoch, or the saving of the model where
/// none is left.
pub fn next_command(last_epoch: usize, num_epochs: usize) -> (command: Command)
    ensures
        command == command_after(last_epoch, num_epochs),
{
    if last_epoch < num_epochs {
        Command::TrainEpoch { epoch: last_epoch + 1 }
    } else {
        Command::SaveModel
    }
}

} // verus!
