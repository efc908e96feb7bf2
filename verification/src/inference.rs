//! Single-example inference: what is made ready before the forward pass, and
//! how the raw output of the pass is decoded.

pub mod classification;
pub mod regression;
