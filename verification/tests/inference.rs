use train_harness::block::Block;
use train_harness::data::classification::DatasetItem;
use train_harness::data::regression;
use train_harness::device::Device;
use train_harness::error::{Failure, ModelLoadError, ShapeMismatchError};
use train_harness::inference::classification::{infer, prepare};
use train_harness::model::{Mode, ModelConfig, ParameterShape, Task};
use train_harness::scalar::Scalar;
use train_harness::train::config::{OptimizerConfig, TrainingConfig};

fn scalar(x: f64) -> Scalar {
    Scalar::from_bits(x.to_bits())
}

fn output(scores: &[f64]) -> Block {
    let row: Vec<Scalar> = scores.iter().map(|x| scalar(*x)).collect();
    Block::from_rows(&vec![row], scores.len())
}

fn config() -> TrainingConfig {
    TrainingConfig::new(ModelConfig::new(), OptimizerConfig::new("{}".to_string()))
}

fn reference(scores: &[f64]) -> u32 {
    let mut best = 0;
    for (i, x) in scores.iter().enumerate() {
        if *x > scores[best] {
            best = i;
        }
    }
    best as u32
}

#[test]
fn tie_goes_to_the_lowest_class() {
    assert_eq!(infer(&output(&[0.5, 0.5])), 0);
    assert_eq!(infer(&output(&[0.1, 0.7, 0.7, 0.7])), 1);
    assert_eq!(infer(&output(&[0.0, -0.0])), 0);
    assert_eq!(infer(&output(&[-0.0, 0.0])), 0);
}

#[test]
fn greatest_score_is_predicted() {
    assert_eq!(infer(&output(&[0.1, 0.9])), 1);
    assert_eq!(infer(&output(&[0.9, 0.1])), 0);
    assert_eq!(infer(&output(&[-3.0, -1.0, -2.0])), 1);
    assert_eq!(infer(&output(&[1.0, 2.0, 3.0, 4.0, 5.0])), 4);
    assert_eq!(infer(&output(&[f64::NEG_INFINITY, f64::MIN])), 1);
    assert_eq!(infer(&output(&[1.0e308, f64::INFINITY, 0.0])), 1);
    assert_eq!(infer(&output(&[2.5])), 0);
}

#[test]
fn what_is_no_number_is_never_moved_to_and_never_left() {
    assert_eq!(infer(&output(&[0.5, f64::NAN, 0.25])), 0);
    assert_eq!(infer(&output(&[0.5, f64::NAN, 0.75])), 2);
    assert_eq!(infer(&output(&[f64::NAN, 1.0, 2.0])), 0);
    assert_eq!(infer(&output(&[f64::NAN])), 0);
}

#[test]
fn prediction_is_that_of_a_scan_from_the_left() {
    let pool = [0.0, -0.0, 0.5, 0.5, -0.5, 1.0, f64::NAN, f64::INFINITY, f64::NEG_INFINITY, 1.0e-4];
    for a in pool {
        for b in pool {
            for c in pool {
                let scores = [a, b, c];
                assert_eq!(infer(&output(&scores)), reference(&scores), "{scores:?}");
            }
        }
    }
}

#[test]
fn regression_prediction_is_the_single_output() {
    for x in [0.0, -0.0, 0.5, -1.25, 1.0e-4, f64::MAX, f64::INFINITY, f64::NAN, 3.141592653589793] {
        let predicted = regression::DatasetItem { inputs: Vec::new(), value: scalar(x) };
        let block = output(&[x]);
        let value = train_harness::inference::regression::infer(&block);
        assert_eq!(value.to_bits(), x.to_bits());
        assert_eq!(value, predicted.value);
    }
}

#[test]
fn forward_pass_is_made_ready_in_evaluation_mode() {
    let item = DatasetItem { inputs: vec![scalar(1.0), scalar(2.0)], label: 1 };
    let stored = ParameterShape { weight_rows: 2, weight_cols: 3, bias_len: 3 };
    let (model, batch) = prepare(&config(), Some(stored), Device::Cpu, 3, 2, item).unwrap();
    assert_eq!(model.mode, Mode::Evaluation);
    assert!(!model.applies_dropout());
    assert_eq!(model.task, Task::Classification { classes: 3 });
    assert_eq!(model.input_width, 2);
    assert_eq!(model.dropout, scalar(0.5));
    assert_eq!(batch.inputs.rows(), 1);
    assert_eq!(batch.inputs.row(0), vec![scalar(1.0), scalar(2.0)]);
    assert_eq!(batch.targets, vec![1i64]);
}

#[test]
fn missing_model_is_a_model_load_error() {
    let item = DatasetItem { inputs: vec![scalar(1.0), scalar(2.0)], label: 1 };
    assert_eq!(
        prepare(&config(), None, Device::Cpu, 3, 2, item),
        Err(Failure::ModelLoadError(ModelLoadError::Unreadable))
    );
}

#[test]
fn stored_parameters_that_do_not_fit_are_a_model_load_error() {
    let item = DatasetItem { inputs: vec![scalar(1.0), scalar(2.0)], label: 1 };
    let stored = ParameterShape { weight_rows: 2, weight_cols: 4, bias_len: 4 };
    assert_eq!(
        prepare(&config(), Some(stored), Device::Cpu, 3, 2, item),
        Err(Failure::ModelLoadError(ModelLoadError::Shape(ShapeMismatchError {
            expected: 3,
            found: 4
        })))
    );
}

#[test]
fn item_of_another_width_is_a_shape_mismatch() {
    let item = DatasetItem { inputs: vec![scalar(1.0)], label: 1 };
    let stored = ParameterShape { weight_rows: 2, weight_cols: 3, bias_len: 3 };
    assert_eq!(
        prepare(&config(), Some(stored), Device::Cpu, 3, 2, item),
        Err(Failure::ShapeMismatchError(ShapeMismatchError { expected: 2, found: 1 }))
    );
}

#[test]
fn regression_forward_pass_is_made_ready() {
    let item = regression::DatasetItem { inputs: vec![scalar(1.0)], value: scalar(0.5) };
    let stored = ParameterShape { weight_rows: 1, weight_cols: 1, bias_len: 1 };
    let (model, batch) = train_harness::inference::regression::prepare(
        &config(),
        Some(stored),
        Device::Cpu,
        1,
        item,
    )
    .unwrap();
    assert_eq!(model.mode, Mode::Evaluation);
    assert_eq!(model.task, Task::Regression);
    assert_eq!(batch.targets.rows(), 1);
    assert_eq!(batch.targets.cols(), 1);
    assert_eq!(batch.targets.get(0, 0), scalar(0.5));
    let item = regression::DatasetItem { inputs: vec![scalar(1.0)], value: scalar(0.5) };
    let stored = ParameterShape { weight_rows: 1, weight_cols: 2, bias_len: 1 };
    assert_eq!(
        train_harness::inference::regression::prepare(
            &config(),
            Some(stored),
            Device::Cpu,
            1,
            item
        ),
        Err(Failure::ModelLoadError(ModelLoadError::Shape(ShapeMismatchError {
            expected: 1,
            found: 2
        })))
    );
    let item = regression::DatasetItem { inputs: vec![scalar(1.0)], value: scalar(0.5) };
    assert_eq!(
        train_harness::inference::regression::prepare(&config(), None, Device::Cpu, 1, item),
        Err(Failure::ModelLoadError(ModelLoadError::Unreadable))
    );
    let item = regression::DatasetItem { inputs: Vec::new(), value: scalar(0.5) };
    let stored = ParameterShape { weight_rows: 1, weight_cols: 1, bias_len: 1 };
    assert_eq!(
        train_harness::inference::regression::prepare(
            &config(),
            Some(stored),
            Device::Cpu,
            1,
            item
        ),
        Err(Failure::ShapeMismatchError(ShapeMismatchError { expected: 1, found: 0 }))
    );
}
