//! What can end a run or an inference before its result.

use vstd::prelude::*;

verus! {

/// A field of the configuration record.
#[derive(Clone, Copy, Debug, PartialEq, Eq, Structural)]
pub enum ConfigField {
    Model,
    Optimizer,
    NumEpochs,
    BatchSize,
    NumWorkers,
    StartingEpoch,
}

/// Why a persisted configuration record could not be loaded.
#[derive(Clone, Copy, Debug, PartialEq, Eq, Structural)]
pub enum ConfigLoadError {
    /// The file is missing, cannot be read, or does not hold a record.
    Unreadable,
    /// A field that has no default is absent.
    MissingField(ConfigField),
    /// A count is too large for this machine.
    OutOfRange(ConfigField),
}

/// A width that disagrees with the width that the model was built for.
#[derive(Clone, Copy, Debug, PartialEq, Eq, Structural)]
pub struct ShapeMismatchError {
    /// The width that the model expects.
    pub expected: usize,
    /// The width that was found.
    pub found: usize,
}

/// Why stored model parameters could not be loaded.
#[derive(Clone, Copy, Debug, PartialEq, Eq, Structural)]
pub enum ModelLoadError {
    /// The checkpoint is missing, cannot be read, or is corrupt.
    Unreadable,
    /// The stored parameters have another shape than the model's topology.
    Shape(ShapeMismatchError),
}

/// The fatal errors of a run. None is retried: a failed run is taken up again
/// only by running anew, resuming from its last checkpoint.
#[derive(Clone, Copy, Debug, PartialEq, Eq, Structural)]
pub enum Failure {
    /// The configuration record could not be loaded.
    ConfigLoadError(ConfigLoadError),
    /// The configuration record could not be written.
    ConfigSaveError,
    /// A checkpoint could not be loaded.
    ModelLoadError(ModelLoadError),
    /// A checkpoint or the final model could not be written.
    ModelSaveError,
    /// The training-history directory could not be listed.
    DirectoryError,
    /// A batch's feature width disagrees with the model's input width.
    ShapeMismatchError(ShapeMismatchError),
}

/// The artifact that a failure concerns.
#[derive(Clone, Copy, Debug, PartialEq, Eq, Structural)]
pub enum Artifact {
    Config,
    Checkpoint,
    Directory,
    Batch,
}

impl Failure {
    /// The artifact that the failure concerns.
    pub open spec fn concerns(self) -> Artifact {
        match self {
            Failure::ConfigLoadError(_) => Artifact::Config,
            Failure::ConfigSaveError => Artifact::Config,
            Failure::ModelLoadError(_) => Artifact::Checkpoint,
            Failure::ModelSaveError => Artifact::Checkpoint,
            Failure::DirectoryError => Artifact::Directory,
            Failure::ShapeMismatchError(_) => Artifact::Batch,
        }
    }

    /// What went wrong, in words.
    pub open spec fn description(self) -> Seq<char> {
        match self {
            Failure::ConfigLoadError(ConfigLoadError::Unreadable) => "config: the record is missing or cannot be read"@,
            Failure::ConfigLoadError(ConfigLoadError::MissingField(_)) => "config: the record lacks a field that has no default"@,
            Failure::ConfigLoadError(ConfigLoadError::OutOfRange(_)) => "config: the record holds a count that this machine cannot hold"@,
            Failure::ConfigSaveError => "config: the record cannot be written"@,
            Failure::ModelLoadError(ModelLoadError::Unreadable) => "checkpoint: the checkpoint is missing or cannot be read"@,
            Failure::ModelLoadError(ModelLoadError::Shape(_)) => "checkpoint: the stored parameters do not fit the model"@,
            Failure::ModelSaveError => "checkpoint: the model cannot be written"@,
            Failure::DirectoryError => "directory: the training history cannot be listed"@,
            Failure::ShapeMismatchError(_) => "batch: the feature width is not the width that the model expects"@,
        }
    }

    /// What went wrong, in words: the artifact concerned, then the reason.
    pub fn describe(&self) -> (text: &'static str)
        ensures
            text@ == self.description(),
    {
        match self {
            Failure::ConfigLoadError(ConfigLoadError::Unreadable) => "config: the record is missing or cannot be read",
            Failure::ConfigLoadError(ConfigLoadError::MissingField(_)) => "config: the record lacks a field that has no default",
            Failure::ConfigLoadError(ConfigLoadError::OutOfRange(_)) => "config: the record holds a count that this machine cannot hold",
            Failure::ConfigSaveError => "config: the record cannot be written",
            Failure::ModelLoadError(ModelLoadError::Unreadable) => "checkpoint: the checkpoint is missing or cannot be read",
            Failure::ModelLoadError(ModelLoadError::Shape(_)) => "checkpoint: the stored parameters do not fit the model",
            Failure::ModelSaveError => "checkpoint: the model cannot be written",
            Failure::DirectoryError => "directory: the training history cannot be listed",
            Failure::ShapeMismatchError(_) => "batch: the feature width is not the width that the model expects",
        }
    }

    /// The artifact that the failure concerns.
    pub fn artifact(&self) -> (a: Artifact)
        ensures
            a == self.concerns(),
    {
        match self {
            Failure::ConfigLoadError(_) => Artifact::Config,
            Failure::ConfigSaveError => Artifact::Config,
            Failure::ModelLoadError(_) => Artifact::Checkpoint,
            Failure::ModelSaveError => Artifact::Checkpoint,
            Failure::DirectoryError => Artifact::Directory,
            Failure::ShapeMismatchError(_) => Artifact::Batch,
        }
    }
}

} // verus!
