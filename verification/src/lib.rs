//! The deterministic core of a supervised-learning training harness.
//!
//! The crate holds the decisions of a training run and none of its effects:
//! how a run's configuration is made durable and found again, which epoch a
//! resumed run continues from, how raw items are stacked into batches, and how
//! a model's raw output is decoded into a prediction. Every function is
//! verified against a contract over mathematical models of the data.
//!
//! Real numbers never appear as machine floats here. A real value is carried
//! as its binary64 bit pattern (see [`scalar::Scalar`]), which is enough to move
//! it, to compare it for identity, and to order it.
//!
//! - [`train`]: the configuration record, the checkpoint names and the
//!   recovery of the last completed epoch, the layout of the artifact
//!   directory, and the lifecycle of a run.
//! - [`data`]: raw items, dataset splits, and the assembly of batches.
//! - [`model`]: the model's hyperparameters and topology.
//! - [`inference`]: what precedes and what follows the forward pass of a
//!   single example.
//! - [`block`], [`scalar`], [`device`], [`error`]: the values that the others
//!   share.

pub mod block;
pub mod data;
pub mod device;
pub mod error;
pub mod inference;
pub mod model;
pub mod scalar;
pub mod train;
