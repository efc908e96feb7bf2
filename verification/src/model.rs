//! The model's configuration and topology.
//!
//! A model is a dropout followed by one linear projection from `input_width`
//! features to `output_width` raw scores. Its parameters and its arithmetic
//! live with the numeric engine; what is decided here is whether a batch, or
//! a stored set of parameters, fits the topology.

use crate::block::Block;
use crate::device::Device;
use crate::error::{ModelLoadError, ShapeMismatchError};
use crate::scalar::Scalar;
use vstd::prelude::*;

verus! {

/// The bit pattern of 0.5, the dropout rate of a configuration that names none.
pub const DEFAULT_DROPOUT_BITS: u64 = 0x3FE0_0000_0000_0000;

/// The bit pattern of 1.
pub const ONE_BITS: u64 = 0x3FF0_0000_0000_0000;

/// The objective that a run trains for.
#[derive(Clone, Copy, Debug, PartialEq, Eq, Structural)]
pub enum Task {
    /// One raw score per class; the target is a class label.
    Classification { classes: usize },
    /// A single raw output; the target is a real value.
    Regression,
}

impl Task {
    /// The number of output columns that the objective calls for.
    pub open spec fn output_width(self) -> nat {
        match self {
            Task::Classification { classes } => classes as nat,
            Task::Regression => 1,
        }
    }

    /// The number of output columns that the objective calls for.
    pub fn width(&self) -> (w: usize)
        ensures
            w == self.output_width(),
    {
        match self {
            Task::Classification { classes } => *classes,
            Task::Regression => 1,
        }
    }
}

/// Whether the model is being trained or evaluated.
#[derive(Clone, Copy, Debug, PartialEq, Eq, Structural)]
pub enum Mode {
    Training,
    Evaluation,
}

/// The model's hyperparameters.
#[derive(Clone, Copy, Debug, PartialEq, Eq, Structural)]
pub struct ModelConfig {
    /// The dropout rate.
    pub dropout: Scalar,
}

/// The shape of a stored set of parameters: a weight matrix and a bias vector.
#[derive(Clone, Copy, Debug, PartialEq, Eq, Structural)]
pub struct ParameterShape {
    pub weight_rows: usize,
    pub weight_cols: usize,
    pub bias_len: usize,
}

/// A model's topology.
#[derive(Clone, Copy, Debug, PartialEq, Eq, Structural)]
pub struct Model {
    /// The dropout rate.
    pub dropout: Scalar,
    /// The number of features of an input row.
    pub input_width: usize,
    /// The objective, which fixes the number of output columns.
    pub task: Task,
    /// Where the parameters are placed.
    pub device: Device,
    /// Whether the model is being trained or evaluated.
    pub mode: Mode,
}

/// The model of the classification task.
pub type ClassificationModel = Model;

/// The hyperparameters of the model of the classification task.
pub type ClassificationModelConfig = ModelConfig;

impl ModelConfig {
    /// Whether the dropout rate is a rate: neither below 0 nor above 1.
    pub open spec fn well_formed(&self) -> bool {
        !(Scalar { bits: 0 }).exceeds(self.dropout) && !self.dropout.exceeds(
            Scalar { bits: ONE_BITS },
        )
    }

    /// The configuration with the default dropout rate of 0.5.
    pub fn new() -> (config: ModelConfig)
        ensures
            config.dropout.bits == DEFAULT_DROPOUT_BITS,
    {
        ModelConfig { dropout: Scalar::from_bits(DEFAULT_DROPOUT_BITS) }
    }

    /// The configuration with `dropout` as its dropout rate.
    pub fn with_dropout(self, dropout: Scalar) -> (config: ModelConfig)
        ensures
            config.dropout == dropout,
    {
        ModelConfig { dropout }
    }

    /// Whether the dropout rate is a rate: neither below 0 nor above 1.
    pub fn is_well_formed(&self) -> (b: bool)
        ensures
            b == self.well_formed(),
    {
        !Scalar::from_bits(0).greater_than(self.dropout) && !self.dropout.greater_than(
            Scalar::from_bits(ONE_BITS),
        )
    }

    /// A fresh model in training mode, for `task` on rows of `input_width`
    /// features, placed on `device`.
    pub fn init(&self, device: Device, task: Task, input_width: usize) -> (model: Model)
        requires
            self.well_formed(),
        ensures
            model == (Model {
                dropout: self.dropout,
                input_width,
                task,
                device,
                mode: Mode::Training,
            }),
    {
        Model { dropout: self.dropout, input_width, task, device, mode: Mode::Training }
    }
}

impl Model {
    /// The shape of the parameters of this topology.
    pub open spec fn parameter_shape(&self) -> ParameterShape {
        ParameterShape {
            weight_rows: self.input_width,
            weight_cols: self.task.output_width() as usize,
            bias_len: self.task.output_width() as usize,
        }
    }

    /// What loading parameters of shape `stored` returns.
    pub open spec fn loaded(self, stored: ParameterShape) -> Result<Model, ModelLoadError> {
        let want = self.parameter_shape();
        if stored.weight_rows != want.weight_rows {
            Err(
                ModelLoadError::Shape(
                    ShapeMismatchError { expected: want.weight_rows, found: stored.weight_rows },
                ),
            )
        } else if stored.weight_cols != want.weight_cols {
            Err(
                ModelLoadError::Shape(
                    ShapeMismatchError { expected: want.weight_cols, found: stored.weight_cols },
                ),
            )
        } else if stored.bias_len != want.bias_len {
            Err(
                ModelLoadError::Shape(
                    ShapeMismatchError { expected: want.bias_len, found: stored.bias_len },
                ),
            )
        } else {
            Ok(self)
        }
    }

    /// What checking a feature width of `found` returns.
    pub open spec fn checked(&self, found: usize) -> Result<(), ShapeMismatchError> {
        if found == self.input_width {
            Ok(())
        } else {
            Err(ShapeMismatchError { expected: self.input_width, found })
        }
    }

    /// Whether dropout changes what passes through: only while training, and
    /// only with a rate other than zero.
    pub open spec fn dropout_active(&self) -> bool {
        self.mode == Mode::Training && !(!self.dropout.is_nan() && self.dropout.rank() == 0)
    }

    /// The number of output columns.
    pub fn output_width(&self) -> (w: usize)
        ensures
            w == self.task.output_width(),
    {
        self.task.width()
    }

    /// The same model in evaluation mode.
    pub fn valid(self) -> (model: Model)
        ensures
            model == (Model { mode: Mode::Evaluation, ..self }),
            !model.dropout_active(),
    {
        Model { mode: Mode::Evaluation, ..self }
    }

    /// Whether dropout changes what passes through.
    pub fn applies_dropout(&self) -> (b: bool)
        ensures
            b == self.dropout_active(),
    {
        let zero = !self.dropout.nan() && (self.dropout.to_bits() & crate::scalar::MAGNITUDE_MASK)
            == 0;
        proof {
            let m = self.dropout.magnitude();
            assert(self.dropout.rank() == 0 <==> m == 0);
        }
        match self.mode {
            Mode::Training => !zero,
            Mode::Evaluation => false,
        }
    }

    /// Checks a feature width against the input width. A width is never cut
    /// or padded to fit: any other width is an error.
    pub fn check_width(&self, found: usize) -> (r: Result<(), ShapeMismatchError>)
        ensures
            r == self.checked(found),
    {
        if found == self.input_width {
            Ok(())
        } else {
            Err(ShapeMismatchError { expected: self.input_width, found })
        }
    }

    /// Checks a block of inputs against the input width.
    pub fn check_input(&self, inputs: &Block) -> (r: Result<(), ShapeMismatchError>)
        ensures
            r == self.checked(inputs.width() as usize),
    {
        self.check_width(inputs.cols())
    }

    /// Takes up stored parameters of shape `stored`: the model itself where
    /// the shape is that of the topology, and else the first disagreement
    /// among weight rows, weight columns and bias length.
    pub fn load_record(self, stored: ParameterShape) -> (r: Result<Model, ModelLoadError>)
        ensures
            r == self.loaded(stored),
    {
        let width = self.task.width();
        if stored.weight_rows != self.input_width {
            Err(
                ModelLoadError::Shape(
                    ShapeMismatchError { expected: self.input_width, found: stored.weight_rows },
                ),
            )
        } else if stored.weight_cols != width {
            Err(
                ModelLoadError::Shape(
                    ShapeMismatchError { expected: width, found: stored.weight_cols },
                ),
            )
        } else if stored.bias_len != width {
            Err(ModelLoadError::Shape(ShapeMismatchError { expected: width, found: stored.bias_len }))
        } else {
            Ok(self)
        }
    }
}

} // verus!
