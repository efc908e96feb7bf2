//! Where numeric buffers are placed.

use vstd::prelude::*;

verus! {

/// A placement for numeric buffers. It is fixed for the length of a run and
/// handed to every component that allocates.
#[derive(Clone, Copy, Debug, PartialEq, Eq, Structural)]
pub enum Device {
    /// The host processor.
    Cpu,
    /// The accelerator of the given index.
    Accelerator(usize),
}

} // verus!
