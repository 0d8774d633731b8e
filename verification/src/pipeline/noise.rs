//! Gaussian white noise.

use super::Source;
use core::marker::PhantomData;
use vstd::prelude::*;

verus! {

/// Number of samples in each block of noise.
pub const BLOCK_SIZE: usize = 512;

/// The standard random number generator of the `rand` crate.
#[verifier::external_type_specification]
#[verifier::external_body]
pub struct ExStdRng(rand::StdRng);

/// The normal distribution of the `rand` crate.
#[verifier::external_type_specification]
#[verifier::external_body]
pub struct ExNormal(rand::distributions::Normal);

/// Calls `Normal::new` of the `rand` crate for the normal distribution of
/// this mean and standard deviation. That function panics on a negative
/// standard deviation, which is left out here.
#[verifier::external_body]
fn normal(mean: i32, std_dev: i32) -> (normal: rand::distributions::Normal)
    requires
        std_dev >= 0,
{
    rand::distributions::Normal::new(mean.into(), std_dev.into())
}

/// Calls `IndependentSample::ind_sample` of the `rand` crate on a normal
/// distribution and hands back the number drawn, without its fraction.
/// Nothing is claimed of the number: it is drawn at random.
#[verifier::external_body]
fn draw(normal: &rand::distributions::Normal, rng: &mut rand::StdRng) -> (raw: i64) {
    rand::distributions::IndependentSample::ind_sample(normal, rng) as i64
}

/// A value clamped to the range of an 8-bit sample.
pub open spec fn clamped_i8(raw: i64) -> i8 {
    if raw > i8::MAX {
        i8::MAX
    } else if raw < i8::MIN {
        i8::MIN
    } else {
        raw as i8
    }
}

/// A value clamped to the range of a 16-bit sample.
pub open spec fn clamped_i16(raw: i64) -> i16 {
    if raw > i16::MAX {
        i16::MAX
    } else if raw < i16::MIN {
        i16::MIN
    } else {
        raw as i16
    }
}

/// A value clamped to the range of a 32-bit sample.
pub open spec fn clamped_i32(raw: i64) -> i32 {
    if raw > i32::MAX {
        i32::MAX
    } else if raw < i32::MIN {
        i32::MIN
    } else {
        raw as i32
    }
}

/// Clamps a value to the range of an 8-bit sample.
pub fn clamp_i8(raw: i64) -> (sample: i8)
    ensures
        sample == clamped_i8(raw),
        i8::MIN <= raw <= i8::MAX ==> sample == raw,
{
    if raw > 127 {
        127
    } else if raw < -128 {
        -128
    } else {
        raw as i8
    }
}

/// Clamps a value to the range of a 16-bit sample.
pub fn clamp_i16(raw: i64) -> (sample: i16)
    ensures
        sample == clamped_i16(raw),
        i16::MIN <= raw <= i16::MAX ==> sample == raw,
{
    if raw > 32767 {
        32767
    } else if raw < -32768 {
        -32768
    } else {
        raw as i16
    }
}

/// Clamps a value to the range of a 32-bit sample.
pub fn clamp_i32(raw: i64) -> (sample: i32)
    ensures
        sample == clamped_i32(raw),
        i32::MIN <= raw <= i32::MAX ==> sample == raw,
{
    if raw > 2147483647 {
        2147483647
    } else if raw < -2147483648 {
        -2147483648
    } else {
        raw as i32
    }
}

/// Gaussian white noise generator.
///
/// Each block holds `BLOCK_SIZE` samples, drawn one by one from the normal
/// distribution around zero whose standard deviation is a third of the
/// amplitude, so that all but about three in a thousand fall within the
/// amplitude, and clamped to the range of the sample type. The source is
/// never exhausted.
pub struct WhiteNoise<'a, T> {
    rng: &'a mut rand::StdRng,
    normal: rand::distributions::Normal,
    std_dev: i32,
    block_size: usize,
    marker: PhantomData<T>,
}

impl<'a, T> WhiteNoise<'a, T> {
    /// Number of samples in each block.
    pub closed spec fn block_len(&self) -> usize {
        self.block_size
    }

    /// Standard deviation of the distribution that the samples are drawn
    /// from.
    pub closed spec fn deviation(&self) -> int {
        self.std_dev as int
    }

    /// Standard deviation of the distribution that the samples are drawn
    /// from.
    pub fn std_dev(&self) -> (std_dev: i32)
        ensures
            std_dev == self.deviation(),
    {
        self.std_dev
    }

    /// A generator that draws from the distribution of this standard
    /// deviation.
    fn with_deviation(rng: &'a mut rand::StdRng, std_dev: i32) -> (noise: WhiteNoise<'a, T>)
        requires
            std_dev >= 0,
        ensures
            noise.block_len() == BLOCK_SIZE,
            noise.deviation() == std_dev,
    {
        WhiteNoise {
            block_size: BLOCK_SIZE,
            rng: rng,
            normal: normal(0, std_dev),
            std_dev: std_dev,
            marker: PhantomData,
        }
    }

    /// Draws the numbers of one block.
    fn draw_block(&mut self) -> (raw: Vec<i64>)
        ensures
            raw@.len() == old(self).block_len(),
            final(self).block_len() == old(self).block_len(),
            final(self).deviation() == old(self).deviation(),
    {
        let mut raw: Vec<i64> = Vec::with_capacity(self.block_size);
        let mut i: usize = 0;
        while i < self.block_size
            invariant
                i <= self.block_size,
                raw@.len() == i,
                self.block_size == old(self).block_size,
                self.std_dev == old(self).std_dev,
            decreases self.block_size - i,
        {
            raw.push(draw(&self.normal, self.rng));
            i += 1;
        }
        raw
    }
}

impl<'a> WhiteNoise<'a, i8> {
    /// A generator of 8-bit noise of this amplitude, which is not
    /// negative.
    pub fn new(rng: &'a mut rand::StdRng, amplitude: i8) -> (noise: WhiteNoise<'a, i8>)
        requires
            amplitude >= 0,
        ensures
            noise.block_len() == BLOCK_SIZE,
            noise.deviation() == amplitude as int / 3,
    {
        WhiteNoise::with_deviation(rng, (amplitude / 3) as i32)
    }

    /// The samples of a block, given the numbers drawn for it.
    pub fn shape(raw: &Vec<i64>) -> (block: Vec<i8>)
        ensures
            block@ == raw@.map_values(|x: i64| clamped_i8(x)),
    {
        let mut block: Vec<i8> = Vec::with_capacity(raw.len());
        let mut i: usize = 0;
        while i < raw.len()
            invariant
                i <= raw.len(),
                block@ == raw@.take(i as int).map_values(|x: i64| clamped_i8(x)),
            decreases raw.len() - i,
        {
            block.push(clamp_i8(raw[i]));
            i += 1;
            assert(raw@.take(i as int) == raw@.take(i - 1).push(raw@[i - 1]));
        }
        assert(raw@.take(i as int) == raw@);
        block
    }
}

impl<'a> Source<i8> for WhiteNoise<'a, i8> {
    /// A fresh block of noise.
    fn next(&mut self) -> (block: Option<Vec<i8>>)
        ensures
            block is Some,
            block->Some_0@.len() == old(self).block_len(),
            final(self).block_len() == old(self).block_len(),
            final(self).deviation() == old(self).deviation(),
    {
        let raw = self.draw_block();
        Some(WhiteNoise::<i8>::shape(&raw))
    }
}

impl<'a> WhiteNoise<'a, i16> {
    /// A generator of 16-bit noise of this amplitude, which is not
    /// negative.
    pub fn new(rng: &'a mut rand::StdRng, amplitude: i16) -> (noise: WhiteNoise<'a, i16>)
        requires
            amplitude >= 0,
        ensures
            noise.block_len() == BLOCK_SIZE,
            noise.deviation() == amplitude as int / 3,
    {
        WhiteNoise::with_deviation(rng, (amplitude / 3) as i32)
    }

    /// The samples of a block, given the numbers drawn for it.
    pub fn shape(raw: &Vec<i64>) -> (block: Vec<i16>)
        ensures
            block@ == raw@.map_values(|x: i64| clamped_i16(x)),
    {
        let mut block: Vec<i16> = Vec::with_capacity(raw.len());
        let mut i: usize = 0;
        while i < raw.len()
            invariant
                i <= raw.len(),
                block@ == raw@.take(i as int).map_values(|x: i64| clamped_i16(x)),
            decreases raw.len() - i,
        {
            block.push(clamp_i16(raw[i]));
            i += 1;
            assert(raw@.take(i as int) == raw@.take(i - 1).push(raw@[i - 1]));
        }
        assert(raw@.take(i as int) == raw@);
        block
    }
}

impl<'a> Source<i16> for WhiteNoise<'a, i16> {
    /// A fresh block of noise.
    fn next(&mut self) -> (block: Option<Vec<i16>>)
        ensures
            block is Some,
            block->Some_0@.len() == old(self).block_len(),
            final(self).block_len() == old(self).block_len(),
            final(self).deviation() == old(self).deviation(),
    {
        let raw = self.draw_block();
        Some(WhiteNoise::<i16>::shape(&raw))
    }
}

impl<'a> WhiteNoise<'a, i32> {
    /// A generator of 32-bit noise of this amplitude, which is not
    /// negative.
    pub fn new(rng: &'a mut rand::StdRng, amplitude: i32) -> (noise: WhiteNoise<'a, i32>)
        requires
            amplitude >= 0,
        ensures
            noise.block_len() == BLOCK_SIZE,
            noise.deviation() == amplitude as int / 3,
    {
        WhiteNoise::with_deviation(rng, amplitude / 3)
    }

    /// The samples of a block, given the numbers drawn for it.
    pub fn shape(raw: &Vec<i64>) -> (block: Vec<i32>)
        ensures
            block@ == raw@.map_values(|x: i64| clamped_i32(x)),
    {
        let mut block: Vec<i32> = Vec::with_capacity(raw.len());
        let mut i: usize = 0;
        while i < raw.len()
            invariant
                i <= raw.len(),
                block@ == raw@.take(i as int).map_values(|x: i64| clamped_i32(x)),
            decreases raw.len() - i,
        {
            block.push(clamp_i32(raw[i]));
            i += 1;
            assert(raw@.take(i as int) == raw@.take(i - 1).push(raw@[i - 1]));
        }
        assert(raw@.take(i as int) == raw@);
        block
    }
}

impl<'a> Source<i32> for WhiteNoise<'a, i32> {
    /// A fresh block of noise.
    fn next(&mut self) -> (block: Option<Vec<i32>>)
        ensures
            block is Some,
            block->Some_0@.len() == old(self).block_len(),
            final(self).block_len() == old(self).block_len(),
            final(self).deviation() == old(self).deviation(),
    {
        let raw = self.draw_block();
        Some(WhiteNoise::<i32>::shape(&raw))
    }
}

} // verus!
