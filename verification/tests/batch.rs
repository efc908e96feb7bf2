use train_harness::block::Block;
use train_harness::data::classification::{Data, DatasetBatcher, DatasetItem};
use train_harness::data::regression;
use train_harness::data::{copy_features, Split};
use train_harness::device::Device;
use train_harness::scalar::Scalar;

fn scalar(x: f64) -> Scalar {
    Scalar::from_bits(x.to_bits())
}

fn features(xs: &[f64]) -> Vec<Scalar> {
    xs.iter().map(|x| scalar(*x)).collect()
}

fn item(xs: &[f64], label: i64) -> DatasetItem {
    DatasetItem { inputs: features(xs), label }
}

fn sample(xs: &[f64], value: f64) -> regression::DatasetItem {
    regression::DatasetItem { inputs: features(xs), value: scalar(value) }
}

#[test]
fn block_holds_its_rows_in_order() {
    let rows = vec![features(&[1.0, 2.0, 3.0]), features(&[4.0, 5.0, 6.0])];
    let block = Block::from_rows(&rows, 3);
    assert_eq!(block.rows(), 2);
    assert_eq!(block.cols(), 3);
    for r in 0..2 {
        assert_eq!(block.row(r), rows[r]);
        for c in 0..3 {
            assert_eq!(block.get(r, c), rows[r][c]);
        }
    }
    assert_eq!(block.get(1, 0), scalar(4.0));
}

#[test]
fn block_of_no_rows_or_no_columns() {
    let none: Vec<Vec<Scalar>> = Vec::new();
    let block = Block::from_rows(&none, 5);
    assert_eq!(block.rows(), 0);
    assert_eq!(block.cols(), 5);
    let thin = Block::from_rows(&vec![Vec::new(), Vec::new(), Vec::new()], 0);
    assert_eq!(thin.rows(), 3);
    assert_eq!(thin.cols(), 0);
    assert_eq!(thin.row(2), Vec::new());
}

#[test]
fn copy_of_features_is_equal() {
    let xs = features(&[0.5, -1.5, f64::NAN]);
    assert_eq!(copy_features(&xs), xs);
    assert_eq!(copy_features(&Vec::new()), Vec::new());
}

#[test]
fn classification_batch_has_a_row_and_a_label_per_item() {
    let items = vec![item(&[1.0, 2.0], 0), item(&[3.0, 4.0], 2), item(&[5.0, 6.0], 1)];
    let batch = DatasetBatcher::new(Device::Cpu).batch(items);
    assert_eq!(batch.inputs.rows(), 3);
    assert_eq!(batch.inputs.cols(), 2);
    assert_eq!(batch.targets.len(), 3);
    assert_eq!(batch.targets, vec![0i64, 2, 1]);
    assert_eq!(batch.inputs.row(0), features(&[1.0, 2.0]));
    assert_eq!(batch.inputs.row(1), features(&[3.0, 4.0]));
    assert_eq!(batch.inputs.row(2), features(&[5.0, 6.0]));
    assert_eq!(batch.device, Device::Cpu);
}

#[test]
fn classification_batch_keeps_rows_and_labels_together() {
    let first = vec![item(&[1.0], 7), item(&[2.0], 8)];
    let second = vec![item(&[2.0], 8), item(&[1.0], 7)];
    let batcher = DatasetBatcher::new(Device::Accelerator(0));
    let a = batcher.batch(first);
    let b = batcher.batch(second);
    for r in 0..2 {
        let value = f64::from_bits(a.inputs.get(r, 0).to_bits());
        assert_eq!(a.targets[r], 6 + value as i64);
        let value = f64::from_bits(b.inputs.get(r, 0).to_bits());
        assert_eq!(b.targets[r], 6 + value as i64);
    }
    assert_eq!(a.device, Device::Accelerator(0));
}

#[test]
fn batch_of_one_item() {
    let batch = DatasetBatcher::new(Device::Cpu).batch(vec![item(&[9.0, 8.0, 7.0], -4)]);
    assert_eq!(batch.inputs.rows(), 1);
    assert_eq!(batch.inputs.cols(), 3);
    assert_eq!(batch.targets, vec![-4i64]);
}

#[test]
fn batch_of_items_without_features() {
    let batch = DatasetBatcher::new(Device::Cpu).batch(vec![item(&[], 1), item(&[], 2)]);
    assert_eq!(batch.inputs.rows(), 2);
    assert_eq!(batch.inputs.cols(), 0);
    assert_eq!(batch.targets, vec![1i64, 2]);
}

#[test]
fn regression_batch_has_a_single_column_of_targets() {
    let items = vec![sample(&[1.0, 2.0], 0.5), sample(&[3.0, 4.0], -1.25)];
    let batch = regression::DatasetBatcher::new(Device::Cpu).batch(items);
    assert_eq!(batch.inputs.rows(), 2);
    assert_eq!(batch.inputs.cols(), 2);
    assert_eq!(batch.targets.rows(), 2);
    assert_eq!(batch.targets.cols(), 1);
    assert_eq!(batch.targets.get(0, 0), scalar(0.5));
    assert_eq!(batch.targets.get(1, 0), scalar(-1.25));
    assert_eq!(batch.inputs.row(1), features(&[3.0, 4.0]));
    assert_eq!(batch.device, Device::Cpu);
}

#[test]
fn split_answers_by_index_and_length() {
    let data = Data::train(vec![item(&[1.0], 0), item(&[2.0], 1)]);
    assert_eq!(data.split(), Split::Train);
    assert_eq!(data.len(), 2);
    assert_eq!(data.get(0), Some(item(&[1.0], 0)));
    assert_eq!(data.get(1), Some(item(&[2.0], 1)));
    assert_eq!(data.get(2), None);
    assert_eq!(data.get(usize::MAX), None);
    assert_eq!(Data::valid(Vec::new()).split(), Split::Valid);
    assert_eq!(Data::valid(Vec::new()).len(), 0);
    assert_eq!(Data::valid(Vec::new()).get(0), None);
    assert_eq!(Data::test(vec![item(&[], 3)]).split(), Split::Test);
}

#[test]
fn regression_split_answers_by_index_and_length() {
    let data = regression::Data::test(vec![sample(&[1.0], 0.5)]);
    assert_eq!(data.split(), Split::Test);
    assert_eq!(data.len(), 1);
    assert_eq!(data.get(0), Some(sample(&[1.0], 0.5)));
    assert_eq!(data.get(1), None);
    assert_eq!(regression::Data::train(Vec::new()).split(), Split::Train);
    assert_eq!(regression::Data::valid(Vec::new()).split(), Split::Valid);
}

#[test]
fn items_are_copied_whole() {
    let one = item(&[1.0, 2.0], 5);
    assert_eq!(one.clone(), one);
    let two = sample(&[1.0, 2.0], 5.0);
    assert_eq!(two.clone(), two);
}
