//! Block-based frequency-domain filtering of grayscale images.
//!
//! An image is partitioned into 8x8 blocks; each block is transformed into a
//! frequency representation, some coefficients are zeroed according to a
//! selection policy, the block is inverse-transformed, and the image is
//! reassembled.  A fidelity metric (squared error, and from it MSE/PSNR)
//! compares the original and the reconstruction.
//!
//! The transform itself works on real numbers and is carried out by an
//! unverified collaborator outside this library.  Everything this library
//! states and proves is over exact integer representations: pixel samples
//! are bytes, and a transformed coefficient is carried as a sign together
//! with an order-preserving magnitude key.

use vstd::prelude::*;

pub mod buffer;
pub mod coef;
pub mod counting;
pub mod distortion;
pub mod laws;
pub mod policy;
pub mod sorting;
pub mod zigzag;

verus! {

/// The errors the pipeline can report before any block is processed.
#[derive(Clone, Copy, PartialEq, Eq, Structural, Debug)]
pub enum FilterError {
    /// An image dimension is not a multiple of the block size.
    InvalidDimensions,
    /// A selection-policy parameter lies outside its declared domain.
    InvalidParameter,
}

} // verus!
