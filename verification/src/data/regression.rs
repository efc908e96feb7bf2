//! Items, splits and batches of the regression task.

use crate::block::{uniform, Block};
use crate::data::{copy_features, Split};
use crate::device::Device;
use crate::scalar::Scalar;
use vstd::prelude::*;

verus! {

/// A raw regression item: a feature vector and the value to predict.
#[derive(Debug, PartialEq, Eq)]
pub struct DatasetItem {
    pub inputs: Vec<Scalar>,
    pub value: Scalar,
}

/// What a raw regression item holds.
pub struct ItemView {
    pub inputs: Seq<Scalar>,
    pub value: Scalar,
}

impl View for DatasetItem {
    type V = ItemView;

    open spec fn view(&self) -> ItemView {
        ItemView { inputs: self.inputs@, value: self.value }
    }
}

impl Clone for DatasetItem {
    fn clone(&self) -> (item: DatasetItem)
        ensures
            item@ == self@,
    {
        DatasetItem { inputs: copy_features(&self.inputs), value: self.value }
    }
}

/// The feature vectors of `items`, in order.
pub open spec fn inputs_of(items: Seq<DatasetItem>) -> Seq<Seq<Scalar>> {
    Seq::new(items.len(), |i: int| items[i].inputs@)
}

/// The target values of `items`, in order, one to a row.
pub open spec fn values_of(items: Seq<DatasetItem>) -> Seq<Seq<Scalar>> {
    Seq::new(items.len(), |i: int| seq![items[i].value])
}

/// Assembles regression items into batches. It holds a placement and
/// nothing that a call changes.
#[derive(Clone, Copy, Debug, PartialEq, Eq, Structural)]
pub struct DatasetBatcher {
    pub device: Device,
}

/// One batch of the regression task. Row `i` of `inputs` and row `i` of
/// `targets` come from the same item.
#[derive(Debug, PartialEq, Eq)]
pub struct Batch {
    /// One row of features per item.
    pub inputs: Block,
    /// One row per item, of a single column: the value to predict.
    pub targets: Block,
    /// Where the batch is placed.
    pub device: Device,
}

impl DatasetBatcher {
    /// A batcher that places its batches on `device`.
    pub fn new(device: Device) -> (batcher: DatasetBatcher)
        ensures
            batcher.device == device,
    {
        DatasetBatcher { device }
    }

    /// Stacks the feature vectors of `items` into the rows of an input block
    /// and their values into the rows of a target block of a single column,
    /// both in the order of `items`.
    pub fn batch(&self, items: Vec<DatasetItem>) -> (batch: Batch)
        requires
            items@.len() > 0,
            uniform(inputs_of(items@), items@[0].inputs@.len()),
        ensures
            batch.inputs.well_formed(),
            batch.inputs.height() == items@.len(),
            batch.inputs.width() == items@[0].inputs@.len(),
            batch.inputs@ == inputs_of(items@),
            batch.targets.well_formed(),
            batch.targets.height() == items@.len(),
            batch.targets.width() == 1,
            batch.targets@ == values_of(items@),
            batch.device == self.device,
    {
        let cols: usize = items[0].inputs.len();
        let mut rows: Vec<Vec<Scalar>> = Vec::new();
        let mut values: Vec<Vec<Scalar>> = Vec::new();
        let mut i: usize = 0;
        while i < items.len()
            invariant
                i <= items.len(),
                uniform(inputs_of(items@), cols as nat),
                rows@.len() == i,
                values@.len() == i,
                forall|k: int| 0 <= k < i ==> (#[trigger] rows@[k])@ == items@[k].inputs@,
                forall|k: int| 0 <= k < i ==> (#[trigger] values@[k])@ == seq![items@[k].value],
            decreases items.len() - i,
        {
            rows.push(copy_features(&items[i].inputs));
            let mut value: Vec<Scalar> = Vec::new();
            value.push(items[i].value);
            values.push(value);
            i = i + 1;
        }
        proof {
            assert forall|r: int| 0 <= r < rows@.len() implies (#[trigger] rows@[r])@.len()
                == cols by {
                assert(inputs_of(items@)[r].len() == cols);
            }
        }
        let inputs = Block::from_rows(&rows, cols);
        let targets = Block::from_rows(&values, 1);
        proof {
            assert(inputs@ == inputs_of(items@));
            assert(targets@ == values_of(items@));
        }
        Batch { inputs, targets, device: self.device }
    }
}

/// One split of the regression dataset, held in memory.
#[derive(Debug, PartialEq, Eq)]
pub struct Data {
    split: Split,
    items: Vec<DatasetItem>,
}

impl Data {
    /// The items of the split, in order.
    pub closed spec fn items(&self) -> Seq<DatasetItem> {
        self.items@
    }

    /// Which split this is.
    pub closed spec fn which(&self) -> Split {
        self.split
    }

    /// The training split, made of `items`.
    pub fn train(items: Vec<DatasetItem>) -> (data: Data)
        ensures
            data.which() == Split::Train,
            data.items() == items@,
    {
        Data { split: Split::Train, items }
    }

    /// The validation split, made of `items`.
    pub fn valid(items: Vec<DatasetItem>) -> (data: Data)
        ensures
            data.which() == Split::Valid,
            data.items() == items@,
    {
        Data { split: Split::Valid, items }
    }

    /// The test split, made of `items`.
    pub fn test(items: Vec<DatasetItem>) -> (data: Data)
        ensures
            data.which() == Split::Test,
            data.items() == items@,
    {
        Data { split: Split::Test, items }
    }

    /// Which split this is.
    pub fn split(&self) -> (split: Split)
        ensures
            split == self.which(),
    {
        self.split
    }

    /// A copy of the item at `index`, or nothing past the end.
    pub fn get(&self, index: usize) -> (item: Option<DatasetItem>)
        ensures
            index < self.items().len() ==> item is Some && item->0@ == self.items()[index as int]@,
            index >= self.items().len() ==> item is None,
    {
        if index < self.items.len() {
            Some(self.items[index].clone())
        } else {
            None
        }
    }

    /// The number of items.
    pub fn len(&self) -> (n: usize)
        ensures
            n == self.items().len(),
    {
        self.items.len()
    }
}

} // verus!
