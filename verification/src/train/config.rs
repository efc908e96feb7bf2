//! The configuration record of a run, and the form in which it is persisted.
//!
//! A record is persisted field by field. A persisted record may lack fields:
//! one written before a field existed, or written by hand. Loading fills each
//! absent field that has a default, and fails on an absent field that has
//! none, or on a count that this machine cannot hold. Nothing else is
//! checked: a batch size of zero loads as it stands.

use crate::error::{ConfigField, ConfigLoadError};
use crate::model::{ModelConfig, DEFAULT_DROPOUT_BITS};
use crate::scalar::Scalar;
use vstd::prelude::*;

verus! {

/// The number of epochs of a record that names none.
pub const DEFAULT_NUM_EPOCHS: usize = 10;

/// The batch size of a record that names none.
pub const DEFAULT_BATCH_SIZE: usize = 64;

/// The number of data-loading workers of a record that names none.
pub const DEFAULT_NUM_WORKERS: usize = 4;

/// The seed of a record that names none.
pub const DEFAULT_SEED: u64 = 42;

/// The bit pattern of 1e-4, the learning rate of a record that names none.
pub const DEFAULT_LEARNING_RATE_BITS: u64 = 0x3F1A_36E2_EB1C_432D;

/// The starting epoch of a record that names none.
pub const DEFAULT_STARTING_EPOCH: usize = 0;

/// The optimizer's settings. The harness carries them as the text that the
/// optimizer's own library reads and writes, and never looks inside.
#[derive(Debug, PartialEq, Eq)]
pub struct OptimizerConfig {
    pub settings: String,
}

/// The hyperparameters of a run.
#[derive(Debug, PartialEq, Eq)]
pub struct TrainingConfig {
    pub model: ModelConfig,
    pub optimizer: OptimizerConfig,
    pub num_epochs: usize,
    pub batch_size: usize,
    pub num_workers: usize,
    pub seed: u64,
    pub learning_rate: Scalar,
    pub starting_epoch: usize,
}

/// The hyperparameters of a run of the classification task.
pub type ClassificationTrainingConfig = TrainingConfig;

/// The model's hyperparameters as persisted: each field present or absent.
#[derive(Clone, Copy, Debug, PartialEq, Eq, Structural)]
pub struct ModelFile {
    pub dropout: Option<Scalar>,
}

/// A configuration record as persisted: each field present or absent.
#[derive(Debug, PartialEq, Eq)]
pub struct ConfigFile {
    pub model: Option<ModelFile>,
    pub optimizer: Option<String>,
    pub num_epochs: Option<u64>,
    pub batch_size: Option<u64>,
    pub num_workers: Option<u64>,
    pub seed: Option<u64>,
    pub learning_rate: Option<Scalar>,
    pub starting_epoch: Option<u64>,
}

/// The count that a persisted field stands for: its default where absent, an
/// error where this machine cannot hold it.
pub open spec fn count_of(field: Option<u64>, default: usize, name: ConfigField) -> Result<
    usize,
    ConfigLoadError,
> {
    match field {
        None => Ok(default),
        Some(v) => if v <= usize::MAX {
            Ok(v as usize)
        } else {
            Err(ConfigLoadError::OutOfRange(name))
        },
    }
}

/// The real number that a persisted field stands for: its default where
/// absent.
pub open spec fn scalar_of(field: Option<Scalar>, default_bits: u64) -> Scalar {
    match field {
        None => Scalar { bits: default_bits },
        Some(x) => x,
    }
}

/// The model's hyperparameters that a persisted model record stands for.
pub open spec fn model_of(file: ModelFile) -> ModelConfig {
    ModelConfig { dropout: scalar_of(file.dropout, DEFAULT_DROPOUT_BITS) }
}

/// The record with `model` and `optimizer` and every other field at its
/// default.
pub open spec fn defaults(model: ModelConfig, optimizer: OptimizerConfig) -> TrainingConfig {
    TrainingConfig {
        model,
        optimizer,
        num_epochs: DEFAULT_NUM_EPOCHS,
        batch_size: DEFAULT_BATCH_SIZE,
        num_workers: DEFAULT_NUM_WORKERS,
        seed: DEFAULT_SEED,
        learning_rate: Scalar { bits: DEFAULT_LEARNING_RATE_BITS },
        starting_epoch: DEFAULT_STARTING_EPOCH,
    }
}

/// What loading `file` returns. The fields are examined in the order model,
/// optimizer, number of epochs, batch size, number of workers, starting
/// epoch, and the first at fault is reported.
pub open spec fn loaded(file: ConfigFile) -> Result<TrainingConfig, ConfigLoadError> {
    let num_epochs = count_of(file.num_epochs, DEFAULT_NUM_EPOCHS, ConfigField::NumEpochs);
    let batch_size = count_of(file.batch_size, DEFAULT_BATCH_SIZE, ConfigField::BatchSize);
    let num_workers = count_of(file.num_workers, DEFAULT_NUM_WORKERS, ConfigField::NumWorkers);
    let starting_epoch = count_of(
        file.starting_epoch,
        DEFAULT_STARTING_EPOCH,
        ConfigField::StartingEpoch,
    );
    if file.model is None {
        Err(ConfigLoadError::MissingField(ConfigField::Model))
    } else if file.optimizer is None {
        Err(ConfigLoadError::MissingField(ConfigField::Optimizer))
    } else if num_epochs is Err {
        Err(num_epochs->Err_0)
    } else if batch_size is Err {
        Err(batch_size->Err_0)
    } else if num_workers is Err {
        Err(num_workers->Err_0)
    } else if starting_epoch is Err {
        Err(starting_epoch->Err_0)
    } else {
        Ok(
            TrainingConfig {
                model: model_of(file.model->0),
                optimizer: OptimizerConfig { settings: file.optimizer->0 },
                num_epochs: num_epochs->Ok_0,
                batch_size: batch_size->Ok_0,
                num_workers: num_workers->Ok_0,
                seed: match file.seed {
                    None => DEFAULT_SEED,
                    Some(seed) => seed,
                },
                learning_rate: scalar_of(file.learning_rate, DEFAULT_LEARNING_RATE_BITS),
                starting_epoch: starting_epoch->Ok_0,
            },
        )
    }
}

impl Clone for OptimizerConfig {
    fn clone(&self) -> (copy: OptimizerConfig)
        ensures
            copy == *self,
    {
        OptimizerConfig { settings: self.settings.clone() }
    }
}

impl Clone for TrainingConfig {
    fn clone(&self) -> (copy: TrainingConfig)
        ensures
            copy == *self,
    {
        TrainingConfig {
            model: self.model,
            optimizer: self.optimizer.clone(),
            num_epochs: self.num_epochs,
            batch_size: self.batch_size,
            num_workers: self.num_workers,
            seed: self.seed,
            learning_rate: self.learning_rate,
            starting_epoch: self.starting_epoch,
        }
    }
}

impl Clone for ConfigFile {
    fn clone(&self) -> (copy: ConfigFile)
        ensures
            copy == *self,
    {
        ConfigFile {
            model: self.model,
            optimizer: match &self.optimizer {
                Some(settings) => Some(settings.clone()),
                None => None,
            },
            num_epochs: self.num_epochs,
            batch_size: self.batch_size,
            num_workers: self.num_workers,
            seed: self.seed,
            learning_rate: self.learning_rate,
            starting_epoch: self.starting_epoch,
        }
    }
}

/// Reads one persisted count.
fn load_count(field: Option<u64>, default: usize, name: ConfigField) -> (r: Result<
    usize,
    ConfigLoadError,
>)
    ensures
        r == count_of(field, default, name),
{
    match field {
        None => Ok(default),
        Some(v) => if v <= usize::MAX as u64 {
            Ok(v as usize)
        } else {
            Err(ConfigLoadError::OutOfRange(name))
        },
    }
}

/// Reads one persisted real number.
fn load_scalar(field: Option<Scalar>, default_bits: u64) -> (x: Scalar)
    ensures
        x == scalar_of(field, default_bits),
{
    match field {
        None => Scalar::from_bits(default_bits),
        Some(x) => x,
    }
}

impl OptimizerConfig {
    /// The optimizer's settings, given as the text of its own library.
    pub fn new(settings: String) -> (config: OptimizerConfig)
        ensures
            config.settings == settings,
    {
        OptimizerConfig { settings }
    }
}

impl TrainingConfig {
    /// The persisted form of the record: every field present.
    pub open spec fn saved(&self) -> ConfigFile {
        ConfigFile {
            model: Some(ModelFile { dropout: Some(self.model.dropout) }),
            optimizer: Some(self.optimizer.settings),
            num_epochs: Some(self.num_epochs as u64),
            batch_size: Some(self.batch_size as u64),
            num_workers: Some(self.num_workers as u64),
            seed: Some(self.seed),
            learning_rate: Some(self.learning_rate),
            starting_epoch: Some(self.starting_epoch as u64),
        }
    }

    /// The record with `model` and `optimizer` and every other field at its
    /// default.
    pub fn new(model: ModelConfig, optimizer: OptimizerConfig) -> (config: TrainingConfig)
        ensures
            config == defaults(model, optimizer),
    {
        TrainingConfig {
            model,
            optimizer,
            num_epochs: DEFAULT_NUM_EPOCHS,
            batch_size: DEFAULT_BATCH_SIZE,
            num_workers: DEFAULT_NUM_WORKERS,
            seed: DEFAULT_SEED,
            learning_rate: Scalar::from_bits(DEFAULT_LEARNING_RATE_BITS),
            starting_epoch: DEFAULT_STARTING_EPOCH,
        }
    }

    /// The persisted form of the record.
    pub fn save(&self) -> (file: ConfigFile)
        ensures
            file == self.saved(),
    {
        ConfigFile {
            model: Some(ModelFile { dropout: Some(self.model.dropout) }),
            optimizer: Some(self.optimizer.settings.clone()),
            num_epochs: Some(self.num_epochs as u64),
            batch_size: Some(self.batch_size as u64),
            num_workers: Some(self.num_workers as u64),
            seed: Some(self.seed),
            learning_rate: Some(self.learning_rate),
            starting_epoch: Some(self.starting_epoch as u64),
        }
    }

    /// The record that a persisted form stands for, or why it stands for
    /// none.
    pub fn load(file: ConfigFile) -> (r: Result<TrainingConfig, ConfigLoadError>)
        ensures
            r == loaded(file),
    {
        let model = match file.model {
            None => { return Err(ConfigLoadError::MissingField(ConfigField::Model)); },
            Some(model) => ModelConfig {
                dropout: load_scalar(model.dropout, DEFAULT_DROPOUT_BITS),
            },
        };
        let optimizer = match file.optimizer {
            None => { return Err(ConfigLoadError::MissingField(ConfigField::Optimizer)); },
            Some(settings) => OptimizerConfig { settings },
        };
        let num_epochs = match load_count(
            file.num_epochs,
            DEFAULT_NUM_EPOCHS,
            ConfigField::NumEpochs,
        ) {
            Err(e) => { return Err(e); },
            Ok(n) => n,
        };
        let batch_size = match load_count(
            file.batch_size,
            DEFAULT_BATCH_SIZE,
            ConfigField::BatchSize,
        ) {
            Err(e) => { return Err(e); },
            Ok(n) => n,
        };
        let num_workers = match load_count(
            file.num_workers,
            DEFAULT_NUM_WORKERS,
            ConfigField::NumWorkers,
        ) {
            Err(e) => { return Err(e); },
            Ok(n) => n,
        };
        let starting_epoch = match load_count(
            file.starting_epoch,
            DEFAULT_STARTING_EPOCH,
            ConfigField::StartingEpoch,
        ) {
            Err(e) => { return Err(e); },
            Ok(n) => n,
        };
        let seed = match file.seed {
            None => DEFAULT_SEED,
            Some(seed) => seed,
        };
        Ok(
            TrainingConfig {
                model,
                optimizer,
                num_epochs,
                batch_size,
                num_workers,
                seed,
                learning_rate: load_scalar(file.learning_rate, DEFAULT_LEARNING_RATE_BITS),
                starting_epoch,
            },
        )
    }

    /// The record with `num_epochs` epochs.
    pub fn with_num_epochs(self, num_epochs: usize) -> (config: TrainingConfig)
        ensures
            config == (TrainingConfig { num_epochs, ..self }),
    {
        TrainingConfig { num_epochs, ..self }
    }

    /// The record with batches of `batch_size` items.
    pub fn with_batch_size(self, batch_size: usize) -> (config: TrainingConfig)
        ensures
            config == (TrainingConfig { batch_size, ..self }),
    {
        TrainingConfig { batch_size, ..self }
    }

    /// The record with `num_workers` data-loading workers.
    pub fn with_num_workers(self, num_workers: usize) -> (config: TrainingConfig)
        ensures
            config == (TrainingConfig { num_workers, ..self }),
    {
        TrainingConfig { num_workers, ..self }
    }

    /// The record with `seed` as its seed.
    pub fn with_seed(self, seed: u64) -> (config: TrainingConfig)
        ensures
            config == (TrainingConfig { seed, ..self }),
    {
        TrainingConfig { seed, ..self }
    }

    /// The record with `learning_rate` as its learning rate.
    pub fn with_learning_rate(self, learning_rate: Scalar) -> (config: TrainingConfig)
        ensures
            config == (TrainingConfig { learning_rate, ..self }),
    {
        TrainingConfig { learning_rate, ..self }
    }

    /// The record with `starting_epoch` as its starting epoch.
    pub fn with_starting_epoch(self, starting_epoch: usize) -> (config: TrainingConfig)
        ensures
            config == (TrainingConfig { starting_epoch, ..self }),
    {
        TrainingConfig { starting_epoch, ..self }
    }
}

/// Loading what was saved gives the record back, whatever the record holds.
pub proof fn lemma_load_save_round_trip(config: TrainingConfig)
    ensures
        loaded(config.saved()) == Ok::<TrainingConfig, ConfigLoadError>(config),
{
    let file = config.saved();
    assert(count_of(file.num_epochs, DEFAULT_NUM_EPOCHS, ConfigField::NumEpochs) == Ok::<
        usize,
        ConfigLoadError,
    >(config.num_epochs));
    assert(count_of(file.batch_size, DEFAULT_BATCH_SIZE, ConfigField::BatchSize) == Ok::<
        usize,
        ConfigLoadError,
    >(config.batch_size));
    assert(count_of(file.num_workers, DEFAULT_NUM_WORKERS, ConfigField::NumWorkers) == Ok::<
        usize,
        ConfigLoadError,
    >(config.num_workers));
    assert(count_of(file.starting_epoch, DEFAULT_STARTING_EPOCH, ConfigField::StartingEpoch)
        == Ok::<usize, ConfigLoadError>(config.starting_epoch));
}

/// Records that differ are saved differently.
pub proof fn lemma_save_tells_records_apart(first: TrainingConfig, second: TrainingConfig)
    requires
        first.saved() == second.saved(),
    ensures
        first == second,
{
    lemma_load_save_round_trip(first);
    lemma_load_save_round_trip(second);
}

/// A persisted record that holds a model and an optimizer and nothing else
/// loads as the record of these two with every other field at its default,
/// and that record in turn survives saving and loading.
pub proof fn lemma_absent_fields_load_as_defaults(model: ModelFile, optimizer: String)
    ensures
        ({
            let file = ConfigFile {
                model: Some(model),
                optimizer: Some(optimizer),
                num_epochs: None,
                batch_size: None,
                num_workers: None,
                seed: None,
                learning_rate: None,
                starting_epoch: None,
            };
            let config = defaults(model_of(model), OptimizerConfig { settings: optimizer });
            loaded(file) == Ok::<TrainingConfig, ConfigLoadError>(config) && loaded(config.saved())
                == Ok::<TrainingConfig, ConfigLoadError>(config)
        }),
{
    lemma_load_save_round_trip(defaults(model_of(model), OptimizerConfig { settings: optimizer }));
}

/// Loading fails exactly on a persisted record that lacks the model or the
/// optimizer, or that holds a count beyond what this machine can hold.
pub proof fn lemma_load_fails_only_on_faults(file: ConfigFile)
    ensures
        loaded(file) is Err <==> (file.model is None || file.optimizer is None || (file.num_epochs
            matches Some(n) && n > usize::MAX) || (file.batch_size matches Some(n) && n
            > usize::MAX) || (file.num_workers matches Some(n) && n > usize::MAX) || (
        file.starting_epoch matches Some(n) && n > usize::MAX)),
{
}

} // verus!
