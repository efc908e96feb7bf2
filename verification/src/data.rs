//! Raw dataset items, the splits that provide them, and their assembly into
//! batches.

use crate::scalar::Scalar;
use vstd::prelude::*;

pub mod classification;
pub mod regression;

pub use classification::{Batch, Data, DatasetBatcher, DatasetItem};

verus! {

/// The part of a dataset that a provider hands out.
#[derive(Clone, Copy, Debug, PartialEq, Eq, Structural)]
pub enum Split {
    Train,
    Valid,
    Test,
}

/// A copy of a feature vector.
pub fn copy_features(features: &Vec<Scalar>) -> (copy: Vec<Scalar>)
    ensures
        copy@ == features@,
{
    let mut copy: Vec<Scalar> = Vec::new();
    let mut i: usize = 0;
    while i < features.len()
        invariant
            i <= features.len(),
            copy@ == features@.subrange(0, i as int),
        decreases features.len() - i,
    {
        copy.push(features[i]);
        proof {
            assert(features@.subrange(0, i + 1) == features@.subrange(0, i as int).push(
                features@[i as int],
            ));
        }
        i = i + 1;
    }
    proof {
        assert(features@.subrange(0, i as int) == features@);
    }
    copy
}

} // verus!
