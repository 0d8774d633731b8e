//! The stage that converts between sample types.

use super::Source;
use crate::format::Sample;
use core::marker::PhantomData;
use vstd::prelude::*;

verus! {

/// Converts sample formats.
///
/// A sample of a wider type becomes one of a narrower type by keeping its
/// most significant bits: it is divided by two to the number of bits
/// dropped and rounded down. Silence stays silence, and the widest swing
/// of the one type becomes the widest swing of the other.
///
/// The stage owns its source, boxed. `S` is the type of the source: a
/// trait object unless another type is named, so that a pipeline need not
/// be written out in the type of its last stage.
pub struct Convert<'s, A, B, S: ?Sized = dyn Source<A> + 's> {
    src: Box<S>,
    marker: PhantomData<(&'s (), A, B)>,
}

/// A 32-bit sample as a 16-bit one.
pub open spec fn narrow_i32_i16(sample: i32) -> i16 {
    (sample as int / 0x1_0000) as i16
}

/// A 32-bit sample as an 8-bit one.
pub open spec fn narrow_i32_i8(sample: i32) -> i8 {
    (sample as int / 0x100_0000) as i8
}

/// A 16-bit sample as an 8-bit one.
pub open spec fn narrow_i16_i8(sample: i16) -> i8 {
    (sample as int / 0x100) as i8
}

/// Converts a 32-bit sample to a 16-bit one.
pub fn i32_to_i16(sample: i32) -> (out: i16)
    ensures
        out == narrow_i32_i16(sample),
        out as int == sample as int / 0x1_0000,
{
    let high: i32 = sample >> 16;
    assert(high == sample / 0x1_0000 && -0x8000 <= high < 0x8000) by (bit_vector)
        requires
            high == sample >> 16,
    ;
    high as i16
}

/// Converts a 32-bit sample to an 8-bit one.
pub fn i32_to_i8(sample: i32) -> (out: i8)
    ensures
        out == narrow_i32_i8(sample),
        out as int == sample as int / 0x100_0000,
{
    let high: i32 = sample >> 24;
    assert(high == sample / 0x100_0000 && -0x80 <= high < 0x80) by (bit_vector)
        requires
            high == sample >> 24,
    ;
    high as i8
}

/// Converts a 16-bit sample to an 8-bit one.
pub fn i16_to_i8(sample: i16) -> (out: i8)
    ensures
        out == narrow_i16_i8(sample),
        out as int == sample as int / 0x100,
{
    let high: i16 = sample >> 8;
    assert(high == sample / 0x100 && -0x80 <= high < 0x80) by (bit_vector)
        requires
            high == sample >> 8,
    ;
    high as i8
}

impl<'s, A: Sample, B: Sample, S: Source<A> + ?Sized> Convert<'s, A, B, S> {
    /// The source whose blocks the stage converts.
    pub closed spec fn source(&self) -> Box<S> {
        self.src
    }

    /// A stage that converts the blocks of `src`.
    pub fn new(src: Box<S>) -> (stage: Convert<'s, A, B, S>)
        ensures
            stage.source() == src,
    {
        Convert { src: src, marker: PhantomData }
    }
}

impl<'s> Convert<'s, i32, i16> {
    /// Converts a block, sample by sample.
    pub fn convert(block: &Vec<i32>) -> (out: Vec<i16>)
        ensures
            out@ == block@.map_values(|s: i32| narrow_i32_i16(s)),
    {
        let mut out: Vec<i16> = Vec::with_capacity(block.len());
        let mut i: usize = 0;
        while i < block.len()
            invariant
                i <= block.len(),
                out@ == block@.take(i as int).map_values(|s: i32| narrow_i32_i16(s)),
            decreases block.len() - i,
        {
            out.push(i32_to_i16(block[i]));
            i += 1;
            assert(block@.take(i as int) == block@.take(i - 1).push(block@[i - 1]));
        }
        assert(block@.take(i as int) == block@);
        out
    }

    /// What the stage yields for what its source has yielded: the block
    /// converted, or `None` with the source.
    pub fn relay(pulled: Option<Vec<i32>>) -> (out: Option<Vec<i16>>)
        ensures
            out is None <==> pulled is None,
            pulled is Some ==> out->Some_0@ == pulled->Some_0@.map_values(|s: i32| narrow_i32_i16(s)),
    {
        match pulled {
            Some(block) => Some(Convert::<i32, i16>::convert(&block)),
            None => None,
        }
    }
}

impl<'s, S: Source<i32> + ?Sized> Source<i16> for Convert<'s, i32, i16, S> {
    /// The next block of the source, converted; `None` once the source is
    /// exhausted. The source is asked once, and what it yields is handed on
    /// as `relay` says.
    fn next(&mut self) -> (out: Option<Vec<i16>>)
        ensures
            exists|src: &mut S, pulled: Option<Vec<i32>>|
                {
                    &&& &*src == &*old(self).source()
                    &&& &*final(src) == &*final(self).source()
                    &&& #[trigger] call_ensures(S::next, (src,), pulled)
                    &&& out is None <==> pulled is None
                    &&& pulled is Some ==> out->Some_0@ == pulled->Some_0@.map_values(
                        |s: i32| narrow_i32_i16(s),
                    )
                },
    {
        let src: &mut S = &mut *self.src;
        let pulled = src.next();
        Convert::<i32, i16>::relay(pulled)
    }
}

impl<'s> Convert<'s, i32, i8> {
    /// Converts a block, sample by sample.
    pub fn convert(block: &Vec<i32>) -> (out: Vec<i8>)
        ensures
            out@ == block@.map_values(|s: i32| narrow_i32_i8(s)),
    {
        let mut out: Vec<i8> = Vec::with_capacity(block.len());
        let mut i: usize = 0;
        while i < block.len()
            invariant
                i <= block.len(),
                out@ == block@.take(i as int).map_values(|s: i32| narrow_i32_i8(s)),
            decreases block.len() - i,
        {
            out.push(i32_to_i8(block[i]));
            i += 1;
            assert(block@.take(i as int) == block@.take(i - 1).push(block@[i - 1]));
        }
        assert(block@.take(i as int) == block@);
        out
    }

    /// What the stage yields for what its source has yielded: the block
    /// converted, or `None` with the source.
    pub fn relay(pulled: Option<Vec<i32>>) -> (out: Option<Vec<i8>>)
        ensures
            out is None <==> pulled is None,
            pulled is Some ==> out->Some_0@ == pulled->Some_0@.map_values(|s: i32| narrow_i32_i8(s)),
    {
        match pulled {
            Some(block) => Some(Convert::<i32, i8>::convert(&block)),
            None => None,
        }
    }
}

impl<'s, S: Source<i32> + ?Sized> Source<i8> for Convert<'s, i32, i8, S> {
    /// The next block of the source, converted; `None` once the source is
    /// exhausted. The source is asked once, and what it yields is handed on
    /// as `relay` says.
    fn next(&mut self) -> (out: Option<Vec<i8>>)
        ensures
            exists|src: &mut S, pulled: Option<Vec<i32>>|
                {
                    &&& &*src == &*old(self).source()
                    &&& &*final(src) == &*final(self).source()
                    &&& #[trigger] call_ensures(S::next, (src,), pulled)
                    &&& out is None <==> pulled is None
                    &&& pulled is Some ==> out->Some_0@ == pulled->Some_0@.map_values(
                        |s: i32| narrow_i32_i8(s),
                    )
                },
    {
        let src: &mut S = &mut *self.src;
        let pulled = src.next();
        Convert::<i32, i8>::relay(pulled)
    }
}

impl<'s> Convert<'s, i16, i8> {
    /// Converts a block, sample by sample.
    pub fn convert(block: &Vec<i16>) -> (out: Vec<i8>)
        ensures
            out@ == block@.map_values(|s: i16| narrow_i16_i8(s)),
    {
        let mut out: Vec<i8> = Vec::with_capacity(block.len());
        let mut i: usize = 0;
        while i < block.len()
            invariant
                i <= block.len(),
                out@ == block@.take(i as int).map_values(|s: i16| narrow_i16_i8(s)),
            decreases block.len() - i,
        {
            out.push(i16_to_i8(block[i]));
            i += 1;
            assert(block@.take(i as int) == block@.take(i - 1).push(block@[i - 1]));
        }
        assert(block@.take(i as int) == block@);
        out
    }

    /// What the stage yields for what its source has yielded: the block
    /// converted, or `None` with the source.
    pub fn relay(pulled: Option<Vec<i16>>) -> (out: Option<Vec<i8>>)
        ensures
            out is None <==> pulled is None,
            pulled is Some ==> out->Some_0@ == pulled->Some_0@.map_values(|s: i16| narrow_i16_i8(s)),
    {
        match pulled {
            Some(block) => Some(Convert::<i16, i8>::convert(&block)),
            None => None,
        }
    }
}

impl<'s, S: Source<i16> + ?Sized> Source<i8> for Convert<'s, i16, i8, S> {
    /// The next block of the source, converted; `None` once the source is
    /// exhausted. The source is asked once, and what it yields is handed on
    /// as `relay` says.
    fn next(&mut self) -> (out: Option<Vec<i8>>)
        ensures
            exists|src: &mut S, pulled: Option<Vec<i16>>|
                {
                    &&& &*src == &*old(self).source()
                    &&& &*final(src) == &*final(self).source()
                    &&& #[trigger] call_ensures(S::next, (src,), pulled)
                    &&& out is None <==> pulled is None
                    &&& pulled is Some ==> out->Some_0@ == pulled->Some_0@.map_values(
                        |s: i16| narrow_i16_i8(s),
                    )
                },
    {
        let src: &mut S = &mut *self.src;
        let pulled = src.next();
        Convert::<i16, i8>::relay(pulled)
    }
}

/// Narrowing keeps silence silent, takes the widest swing of the wider
/// type to the widest swing of the narrower one, and keeps the order of
/// samples: a louder sample never becomes a quieter one.
pub proof fn lemma_narrowing_keeps_range_and_order(a: i32, b: i32, c: i16, d: i16)
    ensures
        narrow_i32_i16(0) == 0 && narrow_i32_i8(0) == 0 && narrow_i16_i8(0) == 0,
        narrow_i32_i16(i32::MAX) == i16::MAX && narrow_i32_i16(i32::MIN) == i16::MIN,
        narrow_i32_i8(i32::MAX) == i8::MAX && narrow_i32_i8(i32::MIN) == i8::MIN,
        narrow_i16_i8(i16::MAX) == i8::MAX && narrow_i16_i8(i16::MIN) == i8::MIN,
        a <= b ==> narrow_i32_i16(a) <= narrow_i32_i16(b) && narrow_i32_i8(a) <= narrow_i32_i8(b),
        c <= d ==> narrow_i16_i8(c) <= narrow_i16_i8(d),
        narrow_i16_i8(narrow_i32_i16(a)) == narrow_i32_i8(a),
{
}

} // verus!
