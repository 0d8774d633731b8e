//! Sample pipelines: sources that yield blocks of samples on demand, a
//! stage that converts between sample types, and the sink that feeds a
//! device.

use vstd::prelude::*;

pub mod convert;
pub mod noise;
pub mod sink;

pub use convert::{i16_to_i8, i32_to_i16, i32_to_i8, Convert};
pub use noise::{clamp_i16, clamp_i32, clamp_i8, WhiteNoise, BLOCK_SIZE};
pub use sink::{DeviceSink, Forward, Progress, Transfer};

verus! {

/// A producer of blocks of samples.
///
/// `next` returns `None` once the source is exhausted for good; a source
/// without end never does. Each call may yield a block of another length.
pub trait Source<T> {
    /// The next block of samples.
    fn next(&mut self) -> Option<Vec<T>>;
}

} // verus!
