//! Items, splits and batches of the classification task.

use crate::block::{uniform, Block};
use crate::data::{copy_features, Split};
use crate::device::Device;
use crate::scalar::Scalar;
use vstd::prelude::*;

verus! {

/// A raw classification item: a feature vector and the label of its class.
#[derive(Debug, PartialEq, Eq)]
pub struct DatasetItem {
    pub inputs: Vec<Scalar>,
    pub label: i64,
}

/// What a raw classification item holds.
pub struct ItemView {
    pub inputs: Seq<Scalar>,
    pub label: i64,
}

impl View for DatasetItem {
    type V = ItemView;

    open spec fn view(&self) -> ItemView {
        ItemView { inputs: self.inputs@, label: self.label }
    }
}

impl Clone for DatasetItem {
    fn clone(&self) -> (item: DatasetItem)
        ensures
            item@ == self@,
    {
        DatasetItem { inputs: copy_features(&self.inputs), label: self.label }
    }
}

/// The feature vectors of `items`, in order.
pub open spec fn inputs_of(items: Seq<DatasetItem>) -> Seq<Seq<Scalar>> {
    Seq::new(items.len(), |i: int| items[i].inputs@)
}

/// The labels of `items`, in order.
pub open spec fn labels_of(items: Seq<DatasetItem>) -> Seq<i64> {
    Seq::new(items.len(), |i: int| items[i].label)
}

/// Assembles classification items into batches. It holds a placement and
/// nothing that a call changes.
#[derive(Clone, Copy, Debug, PartialEq, Eq, Structural)]
pub struct DatasetBatcher {
    pub device: Device,
}

/// One batch of the classification task. Row `i` of `inputs` and entry `i` of
/// `targets` come from the same item.
#[derive(Debug, PartialEq, Eq)]
pub struct Batch {
    /// One row of features per item.
    pub inputs: Block,
    /// One class label per item.
    pub targets: Vec<i64>,
    /// Where the batch is placed.
    pub device: Device,
}

impl DatasetBatcher {
    /// A batcher that places its batches on `device`.
    pub fn new(device: Device) -> (batcher: DatasetBatcher)
        ensures
            batcher.device == device,
    {
        DatasetBatcher { device }
    }

    /// Stacks the feature vectors of `items` into the rows of an input block
    /// and their labels into a target vector, both in the order of `items`.
    pub fn batch(&self, items: Vec<DatasetItem>) -> (batch: Batch)
        requires
            items@.len() > 0,
            uniform(inputs_of(items@), items@[0].inputs@.len()),
        ensures
            batch.inputs.well_formed(),
            batch.inputs.height() == items@.len(),
            batch.inputs.width() == items@[0].inputs@.len(),
            batch.inputs@ == inputs_of(items@),
            batch.targets@ == labels_of(items@),
            batch.device == self.device,
    {
        let cols: usize = items[0].inputs.len();
        let mut rows: Vec<Vec<Scalar>> = Vec::new();
        let mut targets: Vec<i64> = Vec::new();
        let mut i: usize = 0;
        while i < items.len()
            invariant
                i <= items.len(),
                uniform(inputs_of(items@), cols as nat),
                rows@.len() == i,
                targets@.len() == i,
                forall|k: int| 0 <= k < i ==> (#[trigger] rows@[k])@ == items@[k].inputs@,
                forall|k: int| 0 <= k < i ==> #[trigger] targets@[k] == items@[k].label,
            decreases items.len() - i,
        {
            rows.push(copy_features(&items[i].inputs));
            targets.push(items[i].label);
            i = i + 1;
        }
        proof {
            assert forall|r: int| 0 <= r < rows@.len() implies (#[trigger] rows@[r])@.len()
                == cols by {
                assert(inputs_of(items@)[r].len() == cols);
            }
        }
        let inputs = Block::from_rows(&rows, cols);
        proof {
            assert(inputs@ == inputs_of(items@));
            assert(targets@ == labels_of(items@));
        }
        Batch { inputs, targets, device: self.device }
    }
}

/// One split of the classification dataset, held in memory.
#[derive(Debug, PartialEq, Eq)]
pub struct Data {
    split: Split,
    items: Vec<DatasetItem>,
}

impl Data {
    /// The items of the split, in order.
    pub closed spec fn items(&self) -> Seq<DatasetItem> {
        self.items@
    }

    /// Which split this is.
    pub closed spec fn which(&self) -> Split {
        self.split
    }

    /// The training split, made of `items`.
    pub fn train(items: Vec<DatasetItem>) -> (data: Data)
        ensures
            data.which() == Split::Train,
            data.items() == items@,
    {
        Data { split: Split::Train, items }
    }

    /// The validation split, made of `items`.
    pub fn valid(items: Vec<DatasetItem>) -> (data: Data)
        ensures
            data.which() == Split::Valid,
            data.items() == items@,
    {
        Data { split: Split::Valid, items }
    }

    /// The test split, made of `items`.
    pub fn test(items: Vec<DatasetItem>) -> (data: Data)
        ensures
            data.which() == Split::Test,
            data.items() == items@,
    {
        Data { split: Split::Test, items }
    }

    /// Which split this is.
    pub fn split(&self) -> (split: Split)
        ensures
            split == self.which(),
    {
        self.split
    }

    /// A copy of the item at `index`, or nothing past the end.
    pub fn get(&self, index: usize) -> (item: Option<DatasetItem>)
        ensures
            index < self.items().len() ==> item is Some && item->0@ == self.items()[index as int]@,
            index >= self.items().len() ==> item is None,
    {
        if index < self.items.len() {
            Some(self.items[index].clone())
        } else {
            None
        }
    }

    /// The number of items.
    pub fn len(&self) -> (n: usize)
        ensures
            n == self.items().len(),
    {
        self.items.len()
    }
}

} // verus!
