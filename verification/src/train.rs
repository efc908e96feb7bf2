//! The training run: its configuration, its checkpoints, and its lifecycle.

pub mod checkpoint;
pub mod classification;
pub mod config;
pub mod layout;
pub mod progress;
pub mod regression;
pub mod run;

pub use checkpoint::get_last_epoch;
pub use config::{ClassificationTrainingConfig, TrainingConfig};
