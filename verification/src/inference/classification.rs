//! Inference for the classification task: the predicted class is the column
//! of the greatest raw score, and the lowest such column where several share
//! it.

use crate::block::Block;
use crate::data::classification::{inputs_of, Batch, DatasetBatcher, DatasetItem};
use crate::device::Device;
use crate::error::{Failure, ModelLoadError};
use crate::model::{Mode, Model, ParameterShape, Task};
use crate::scalar::Scalar;
use crate::train::config::TrainingConfig;
use vstd::prelude::*;

verus! {

/// The column that a scan from the left selects: it starts at column 0 and
/// moves on to a later column only where that column's score exceeds the
/// score of the column selected so far.
pub open spec fn selected(scores: Seq<Scalar>) -> nat
    decreases scores.len(),
{
    if scores.len() <= 1 {
        0
    } else {
        let best = selected(scores.drop_last());
        if scores.last().exceeds(scores[best as int]) {
            (scores.len() - 1) as nat
        } else {
            best
        }
    }
}

/// Whether every score is a number.
pub open spec fn all_numbers(scores: Seq<Scalar>) -> bool {
    forall|i: int| 0 <= i < scores.len() ==> !(#[trigger] scores[i]).is_nan()
}

/// The selected column is a column.
pub proof fn lemma_selected_in_range(scores: Seq<Scalar>)
    requires
        scores.len() > 0,
    ensures
        selected(scores) < scores.len(),
    decreases scores.len(),
{
    if scores.len() > 1 {
        lemma_selected_in_range(scores.drop_last());
    }
}

/// Among numbers, the selected column holds the greatest score, and every
/// column before it holds a smaller one: ties go to the lowest column.
pub proof fn lemma_selected_is_first_maximum(scores: Seq<Scalar>)
    requires
        scores.len() > 0,
        all_numbers(scores),
    ensures
        selected(scores) < scores.len(),
        forall|j: int|
            0 <= j < scores.len() ==> (#[trigger] scores[j]).rank() <= scores[selected(
                scores,
            ) as int].rank(),
        forall|j: int|
            0 <= j < selected(scores) ==> (#[trigger] scores[j]).rank() < scores[selected(
                scores,
            ) as int].rank(),
    decreases scores.len(),
{
    if scores.len() > 1 {
        let init = scores.drop_last();
        assert forall|i: int| 0 <= i < init.len() implies !(#[trigger] init[i]).is_nan() by {
            assert(init[i] == scores[i]);
        }
        lemma_selected_is_first_maximum(init);
        let best = selected(init) as int;
        assert(init[best] == scores[best]);
        assert(!scores[best].is_nan());
        assert(!scores.last().is_nan());
        assert forall|j: int| 0 <= j < scores.len() implies (#[trigger] scores[j]).rank()
            <= scores[selected(scores) as int].rank() by {
            if j < init.len() {
                assert(init[j] == scores[j]);
            }
        }
        assert forall|j: int| 0 <= j < selected(scores) implies (#[trigger] scores[j]).rank()
            < scores[selected(scores) as int].rank() by {
            assert(init[j] == scores[j]);
        }
    }
}

/// Where all scores are one and the same number, column 0 is selected.
pub proof fn lemma_tie_selects_first(scores: Seq<Scalar>)
    requires
        scores.len() > 0,
        all_numbers(scores),
        forall|i: int| 0 <= i < scores.len() ==> (#[trigger] scores[i]).rank() == scores[0].rank(),
    ensures
        selected(scores) == 0,
{
    lemma_selected_is_first_maximum(scores);
    if selected(scores) > 0 {
        assert(scores[0].rank() < scores[selected(scores) as int].rank());
    }
}

/// What `prepare` returns for a model of `input_width` features and
/// `classes` classes under `config`, given the shape of the stored
/// parameters, if any could be read, and the width of the item.
pub open spec fn prepared(
    config: TrainingConfig,
    stored: Option<ParameterShape>,
    device: Device,
    classes: usize,
    input_width: usize,
    item_width: usize,
) -> Result<Model, Failure> {
    let fresh = Model {
        dropout: config.model.dropout,
        input_width,
        task: Task::Classification { classes },
        device,
        mode: Mode::Training,
    };
    match stored {
        None => Err(Failure::ModelLoadError(ModelLoadError::Unreadable)),
        Some(shape) => match fresh.loaded(shape) {
            Err(e) => Err(Failure::ModelLoadError(e)),
            Ok(model) => if item_width != input_width {
                Err(
                    Failure::ShapeMismatchError(
                        crate::error::ShapeMismatchError {
                            expected: input_width,
                            found: item_width,
                        },
                    ),
                )
            } else {
                Ok(Model { mode: Mode::Evaluation, ..model })
            },
        },
    }
}

/// Makes ready the forward pass of one item: builds the model of `config`,
/// takes up the stored parameters, puts the model in evaluation mode, and
/// assembles the item into a batch of one row. `stored` is the shape of the
/// stored parameters, or nothing where they could not be read.
pub fn prepare(
    config: &TrainingConfig,
    stored: Option<ParameterShape>,
    device: Device,
    classes: usize,
    input_width: usize,
    item: DatasetItem,
) -> (r: Result<(Model, Batch), Failure>)
    requires
        config.model.well_formed(),
    ensures
        match prepared(*config, stored, device, classes, input_width, item.inputs@.len() as usize) {
            Err(e) => r == Err::<(Model, Batch), Failure>(e),
            Ok(model) => r is Ok && r->Ok_0.0 == model && !model.dropout_active() && r->Ok_0.1.inputs.well_formed()
                && r->Ok_0.1.inputs.height() == 1 && r->Ok_0.1.inputs.width() == input_width
                && r->Ok_0.1.inputs@ == seq![item.inputs@] && r->Ok_0.1.targets@ == seq![
                item.label,
            ] && r->Ok_0.1.device == device,
        },
{
    let fresh = config.model.init(device, Task::Classification { classes }, input_width);
    let shape = match stored {
        None => { return Err(Failure::ModelLoadError(ModelLoadError::Unreadable)); },
        Some(shape) => shape,
    };
    let model = match fresh.load_record(shape) {
        Err(e) => { return Err(Failure::ModelLoadError(e)); },
        Ok(model) => model,
    };
    let item_width = item.inputs.len();
    if item_width != input_width {
        return Err(
            Failure::ShapeMismatchError(
                crate::error::ShapeMismatchError { expected: input_width, found: item_width },
            ),
        );
    }
    let model = model.valid();
    let ghost inputs = item.inputs@;
    let ghost label = item.label;
    let mut items: Vec<DatasetItem> = Vec::new();
    items.push(item);
    proof {
        assert(inputs_of(items@)[0] == inputs);
    }
    let batch = DatasetBatcher::new(device).batch(items);
    proof {
        assert(batch.inputs@ == seq![inputs]);
        assert(batch.targets@ == seq![label]);
    }
    Ok((model, batch))
}

/// Decodes the raw output of a forward pass on a batch of one item: the
/// predicted class is the column that `selected` picks from the single row.
pub fn infer(output: &Block) -> (class: u32)
    requires
        output.well_formed(),
        output.height() == 1,
        1 <= output.width() <= 0x1_0000_0000,
    ensures
        class == selected(output@[0]),
        class < output.width(),
{
    let cols = output.cols();
    let ghost row = output@[0];
    proof {
        output.lemma_shape();
        assert(row.len() == cols);
    }
    let mut best: usize = 0;
    let mut c: usize = 1;
    proof {
        assert(row.subrange(0, 1).len() == 1);
    }
    while c < cols
        invariant
            output.well_formed(),
            output.height() == 1,
            cols == output.width(),
            row == output@[0],
            row.len() == cols,
            1 <= c <= cols,
            best < c,
            best == selected(row.subrange(0, c as int)),
        decreases cols - c,
    {
        let ghost seen = row.subrange(0, c as int);
        let ghost next = row.subrange(0, c + 1);
        proof {
            assert(next.drop_last() == seen);
            assert(next.last() == row[c as int]);
            assert(next[best as int] == row[best as int]);
        }
        if output.get(0, c).greater_than(output.get(0, best)) {
            best = c;
        }
        c = c + 1;
    }
    proof {
        assert(row.subrange(0, c as int) == row);
    }
    best as u32
}

} // verus!
