//! Inference for the regression task: the prediction is the single raw
//! output, as it stands.

use crate::block::Block;
use crate::data::regression::{inputs_of, values_of, Batch, DatasetBatcher, DatasetItem};
use crate::device::Device;
use crate::error::{Failure, ModelLoadError};
use crate::model::{Mode, Model, ParameterShape, Task};
use crate::scalar::Scalar;
use crate::train::config::TrainingConfig;
use vstd::prelude::*;

verus! {

/// What `prepare` returns for a model of `input_width` features under
/// `config`, given the shape of the stored parameters, if any could be read,
/// and the width of the item.
pub open spec fn prepared(
    config: TrainingConfig,
    stored: Option<ParameterShape>,
    device: Device,
    input_width: usize,
    item_width: usize,
) -> Result<Model, Failure> {
    let fresh = Model {
        dropout: config.model.dropout,
        input_width,
        task: Task::Regression,
        device,
        mode: Mode::Training,
    };
    match stored {
        None => Err(Failure::ModelLoadError(ModelLoadError::Unreadable)),
        Some(shape) => match fresh.loaded(shape) {
            Err(e) => Err(Failure::ModelLoadError(e)),
            Ok(model) => if item_width != input_width {
                Err(
                    Failure::ShapeMismatchError(
                        crate::error::ShapeMismatchError {
                            expected: input_width,
                            found: item_width,
                        },
                    ),
                )
            } else {
                Ok(Model { mode: Mode::Evaluation, ..model })
            },
        },
    }
}

/// Makes ready the forward pass of one item: builds the model of `config`,
/// takes up the stored parameters, puts the model in evaluation mode, and
/// assembles the item into a batch of one row. `stored` is the shape of the
/// stored parameters, or nothing where they could not be read.
pub fn prepare(
    config: &TrainingConfig,
    stored: Option<ParameterShape>,
    device: Device,
    input_width: usize,
    item: DatasetItem,
) -> (r: Result<(Model, Batch), Failure>)
    requires
        config.model.well_formed(),
    ensures
        match prepared(*config, stored, device, input_width, item.inputs@.len() as usize) {
            Err(e) => r == Err::<(Model, Batch), Failure>(e),
            Ok(model) => r is Ok && r->Ok_0.0 == model && !model.dropout_active() && r->Ok_0.1.inputs.well_formed()
                && r->Ok_0.1.inputs.height() == 1 && r->Ok_0.1.inputs.width() == input_width
                && r->Ok_0.1.inputs@ == seq![item.inputs@] && r->Ok_0.1.targets@ == seq![
                seq![item.value],
            ] && r->Ok_0.1.device == device,
        },
{
    let fresh = config.model.init(device, Task::Regression, input_width);
    let shape = match stored {
        None => { return Err(Failure::ModelLoadError(ModelLoadError::Unreadable)); },
        Some(shape) => shape,
    };
    let model = match fresh.load_record(shape) {
        Err(e) => { return Err(Failure::ModelLoadError(e)); },
        Ok(model) => model,
    };
    let item_width = item.inputs.len();
    if item_width != input_width {
        return Err(
            Failure::ShapeMismatchError(
                crate::error::ShapeMismatchError { expected: input_width, found: item_width },
            ),
        );
    }
    let model = model.valid();
    let ghost inputs = item.inputs@;
    let ghost value = item.value;
    let mut items: Vec<DatasetItem> = Vec::new();
    items.push(item);
    proof {
        assert(inputs_of(items@)[0] == inputs);
    }
    let batch = DatasetBatcher::new(device).batch(items);
    proof {
        assert(batch.inputs@ == seq![inputs]);
        assert(values_of(items@)[0] == seq![value]);
        assert(batch.targets@ == seq![seq![value]]);
    }
    Ok((model, batch))
}

/// Decodes the raw output of a forward pass on a batch of one item: the
/// prediction is the single entry of the output, bit for bit.
pub fn infer(output: &Block) -> (value: Scalar)
    requires
        output.well_formed(),
        output.height() == 1,
        output.width() == 1,
    ensures
        value == output@[0][0],
{
    output.get(0, 0)
}

} // verus!
