use train_harness::error::{ConfigField, ConfigLoadError};
use train_harness::model::ModelConfig;
use train_harness::scalar::Scalar;
use train_harness::train::config::{ConfigFile, ModelFile, OptimizerConfig, TrainingConfig};

fn scalar(x: f64) -> Scalar {
    Scalar::from_bits(x.to_bits())
}

fn value(x: Scalar) -> f64 {
    f64::from_bits(x.to_bits())
}

fn adam() -> OptimizerConfig {
    OptimizerConfig::new("{\"beta_1\":0.9,\"beta_2\":0.999,\"epsilon\":1e-5}".to_string())
}

fn bare_file() -> ConfigFile {
    ConfigFile {
        model: Some(ModelFile { dropout: None }),
        optimizer: Some("{}".to_string()),
        num_epochs: None,
        batch_size: None,
        num_workers: None,
        seed: None,
        learning_rate: None,
        starting_epoch: None,
    }
}

#[test]
fn new_record_has_the_documented_defaults() {
    let config = TrainingConfig::new(ModelConfig::new(), adam());
    assert_eq!(config.num_epochs, 10);
    assert_eq!(config.batch_size, 64);
    assert_eq!(config.num_workers, 4);
    assert_eq!(config.seed, 42);
    assert_eq!(value(config.learning_rate), 1.0e-4);
    assert_eq!(config.starting_epoch, 0);
    assert_eq!(value(config.model.dropout), 0.5);
    assert_eq!(config.optimizer, adam());
}

#[test]
fn builders_change_one_field() {
    let base = TrainingConfig::new(ModelConfig::new(), adam());
    let config = base.clone().with_num_epochs(3);
    assert_eq!(config.num_epochs, 3);
    assert_eq!(config.clone().with_num_epochs(10), base);
    assert_eq!(base.clone().with_batch_size(8).batch_size, 8);
    assert_eq!(base.clone().with_num_workers(1).num_workers, 1);
    assert_eq!(base.clone().with_seed(7).seed, 7);
    assert_eq!(value(base.clone().with_learning_rate(scalar(0.25)).learning_rate), 0.25);
    assert_eq!(base.clone().with_starting_epoch(2).starting_epoch, 2);
    assert_eq!(value(ModelConfig::new().with_dropout(scalar(0.1)).dropout), 0.1);
}

#[test]
fn saved_record_holds_every_field() {
    let config = TrainingConfig::new(ModelConfig::new(), adam()).with_seed(9).with_num_epochs(5);
    let file = config.save();
    assert_eq!(file.model, Some(ModelFile { dropout: Some(scalar(0.5)) }));
    assert_eq!(file.optimizer, Some(adam().settings));
    assert_eq!(file.num_epochs, Some(5));
    assert_eq!(file.batch_size, Some(64));
    assert_eq!(file.num_workers, Some(4));
    assert_eq!(file.seed, Some(9));
    assert_eq!(file.learning_rate, Some(scalar(1.0e-4)));
    assert_eq!(file.starting_epoch, Some(0));
}

#[test]
fn load_of_save_gives_the_record_back() {
    let configs = [
        TrainingConfig::new(ModelConfig::new(), adam()),
        TrainingConfig::new(ModelConfig::new().with_dropout(scalar(0.0)), adam())
            .with_num_epochs(0)
            .with_batch_size(0)
            .with_num_workers(0)
            .with_seed(0)
            .with_learning_rate(scalar(-3.5))
            .with_starting_epoch(0),
        TrainingConfig::new(
            ModelConfig::new().with_dropout(scalar(f64::NAN)),
            OptimizerConfig::new(String::new()),
        )
        .with_num_epochs(usize::MAX)
        .with_batch_size(usize::MAX)
        .with_num_workers(usize::MAX)
        .with_seed(u64::MAX)
        .with_learning_rate(scalar(f64::INFINITY))
        .with_starting_epoch(usize::MAX),
    ];
    for config in configs {
        assert_eq!(TrainingConfig::load(config.save()), Ok(config.clone()));
    }
}

#[test]
fn absent_fields_load_as_defaults() {
    let loaded = TrainingConfig::load(bare_file()).unwrap();
    let expected = TrainingConfig::new(ModelConfig::new(), OptimizerConfig::new("{}".to_string()));
    assert_eq!(loaded, expected);
    assert_eq!(TrainingConfig::load(loaded.save()), Ok(expected));
}

#[test]
fn present_fields_load_as_they_stand() {
    let mut file = bare_file();
    file.model = Some(ModelFile { dropout: Some(scalar(0.25)) });
    file.num_epochs = Some(2);
    file.batch_size = Some(0);
    file.seed = Some(1234);
    file.learning_rate = Some(scalar(0.01));
    let loaded = TrainingConfig::load(file).unwrap();
    assert_eq!(value(loaded.model.dropout), 0.25);
    assert_eq!(loaded.num_epochs, 2);
    assert_eq!(loaded.batch_size, 0);
    assert_eq!(loaded.num_workers, 4);
    assert_eq!(loaded.seed, 1234);
    assert_eq!(value(loaded.learning_rate), 0.01);
    assert_eq!(loaded.starting_epoch, 0);
}

#[test]
fn record_without_model_does_not_load() {
    let mut file = bare_file();
    file.model = None;
    assert_eq!(
        TrainingConfig::load(file),
        Err(ConfigLoadError::MissingField(ConfigField::Model))
    );
}

#[test]
fn record_without_optimizer_does_not_load() {
    let mut file = bare_file();
    file.optimizer = None;
    assert_eq!(
        TrainingConfig::load(file),
        Err(ConfigLoadError::MissingField(ConfigField::Optimizer))
    );
}

#[test]
fn model_is_reported_before_optimizer() {
    let mut file = bare_file();
    file.model = None;
    file.optimizer = None;
    assert_eq!(
        TrainingConfig::load(file),
        Err(ConfigLoadError::MissingField(ConfigField::Model))
    );
}

#[test]
fn count_beyond_the_machine_does_not_load() {
    let mut file = bare_file();
    file.batch_size = Some(u64::MAX);
    file.starting_epoch = Some(u64::MAX);
    let loaded = TrainingConfig::load(file);
    if (usize::MAX as u64) < u64::MAX {
        assert_eq!(loaded, Err(ConfigLoadError::OutOfRange(ConfigField::BatchSize)));
    } else {
        let loaded = loaded.unwrap();
        assert_eq!(loaded.batch_size, usize::MAX);
        assert_eq!(loaded.starting_epoch, usize::MAX);
    }
}

#[test]
fn greatest_count_of_the_machine_loads() {
    let mut file = bare_file();
    file.num_epochs = Some(usize::MAX as u64);
    file.num_workers = Some(usize::MAX as u64);
    let loaded = TrainingConfig::load(file).unwrap();
    assert_eq!(loaded.num_epochs, usize::MAX);
    assert_eq!(loaded.num_workers, usize::MAX);
}

#[test]
fn copies_are_equal() {
    let config = TrainingConfig::new(ModelConfig::new(), adam()).with_seed(5);
    assert_eq!(config.clone(), config);
    assert_eq!(config.save().clone(), config.save());
    assert_eq!(adam().clone(), adam());
}
