//! Sample formats: what a device is told of the samples it will be fed.

use core::marker::PhantomData;
use vstd::layout::size_of;
use vstd::prelude::*;
use vstd::utf8::{
    char_is_scalar, char_u32_cast, encode_scalar, encode_utf8, has_width_1_encoding, is_scalar,
    leading_byte_width_1,
};

verus! {

/// Native flag of [`Endianness::Little`].
pub const AO_FMT_LITTLE: i32 = 1;

/// Native flag of [`Endianness::Big`].
pub const AO_FMT_BIG: i32 = 2;

/// Native flag of [`Endianness::Native`].
pub const AO_FMT_NATIVE: i32 = 4;

/// Type bound for sample formats.
///
/// All types that implement `Sample` should be raw enough to permit output
/// without additional processing. There is no 24-bit type among the impls
/// given here, because Rust has none.
pub trait Sample: Copy {
    /// Number of channels each value of this type contains.
    fn channels(&self) -> usize;
}

impl Sample for i8 {
    fn channels(&self) -> (n: usize)
        ensures
            n == 1,
    {
        1
    }
}

impl Sample for i16 {
    fn channels(&self) -> (n: usize)
        ensures
            n == 1,
    {
        1
    }
}

impl Sample for i32 {
    fn channels(&self) -> (n: usize)
        ensures
            n == 1,
    {
        1
    }
}

impl<S: Sample> Sample for [S; 2] {
    fn channels(&self) -> (n: usize)
        ensures
            n == 2,
    {
        2
    }
}

/// Sample byte ordering.
#[derive(Clone, Copy, PartialEq, Eq, Structural, Debug)]
pub enum Endianness {
    /// Least-significant byte first.
    Little,
    /// Most-significant byte first.
    Big,
    /// Machine's default byte order.
    Native,
}

impl Endianness {
    /// The flag by which the native library knows this byte order.
    pub open spec fn flag(self) -> int {
        match self {
            Endianness::Little => AO_FMT_LITTLE as int,
            Endianness::Big => AO_FMT_BIG as int,
            Endianness::Native => AO_FMT_NATIVE as int,
        }
    }

    /// The flag by which the native library knows this byte order.
    pub fn byte_format(self) -> (flag: i32)
        ensures
            flag == self.flag(),
    {
        match self {
            Endianness::Little => AO_FMT_LITTLE,
            Endianness::Big => AO_FMT_BIG,
            Endianness::Native => AO_FMT_NATIVE,
        }
    }
}

/// Whether a text holds the character of code zero. Such a text cannot be
/// handed to the native library, which ends a string at its first zero
/// byte.
pub open spec fn has_nul(text: Seq<char>) -> bool {
    text.contains('\0')
}

/// The UTF-8 bytes of a character hold a zero byte exactly when the
/// character is that of code zero.
proof fn lemma_zero_byte_of_scalar(scalar: u32)
    requires
        is_scalar(scalar),
    ensures
        encode_scalar(scalar).contains(0u8) <==> scalar == 0,
{
    let bytes = encode_scalar(scalar);
    if has_width_1_encoding(scalar) {
        assert(((scalar & 0x7F) as u8 == 0u8) <==> scalar == 0) by (bit_vector)
            requires
                scalar <= 0x7F,
        ;
        assert(bytes[0] == leading_byte_width_1(scalar));
        if scalar == 0 {
            assert(bytes[0] == 0u8);
        }
    } else {
        assert(0xC0u8 | ((scalar >> 6) & 0x1F) as u8 != 0u8) by (bit_vector);
        assert(0xE0u8 | ((scalar >> 12) & 0x0F) as u8 != 0u8) by (bit_vector);
        assert(0xF0u8 | ((scalar >> 18) & 0x7) as u8 != 0u8) by (bit_vector);
        assert(0x80u8 | (scalar & 0x3F) as u8 != 0u8) by (bit_vector);
        assert(0x80u8 | ((scalar >> 6) & 0x3F) as u8 != 0u8) by (bit_vector);
        assert(0x80u8 | ((scalar >> 12) & 0x3F) as u8 != 0u8) by (bit_vector);
        assert(forall|i: int| 0 <= i < bytes.len() ==> bytes[i] != 0u8);
    }
}

/// The UTF-8 bytes of a text hold a zero byte exactly when the text holds
/// the character of code zero.
pub proof fn lemma_zero_byte_is_nul(text: Seq<char>)
    ensures
        encode_utf8(text).contains(0u8) <==> has_nul(text),
    decreases text.len(),
{
    if text.len() > 0 {
        let first = encode_scalar(text[0] as u32);
        let rest = encode_utf8(text.drop_first());
        char_is_scalar(text[0]);
        lemma_zero_byte_of_scalar(text[0] as u32);
        lemma_zero_byte_is_nul(text.drop_first());
        assert(encode_utf8(text) == first + rest);
        assert('\0' as u32 == 0);
        char_u32_cast(text[0], text[0] as u32);
        char_u32_cast('\0', 0u32);
        assert(text[0] as u32 == 0 <==> text[0] == '\0');
        if first.contains(0u8) {
            let i = choose|i: int| 0 <= i < first.len() && first[i] == 0u8;
            assert((first + rest)[i] == 0u8);
            assert(text[0] == '\0');
        }
        if rest.contains(0u8) {
            let i = choose|i: int| 0 <= i < rest.len() && rest[i] == 0u8;
            assert((first + rest)[first.len() + i] == 0u8);
            let j = choose|j: int| 0 <= j < text.drop_first().len() && text.drop_first()[j] == '\0';
            assert(text[j + 1] == '\0');
        }
        if (first + rest).contains(0u8) {
            let i = choose|i: int| 0 <= i < (first + rest).len() && (first + rest)[i] == 0u8;
            if i < first.len() {
                assert(first[i] == 0u8);
            } else {
                assert(rest[i - first.len()] == 0u8);
            }
        }
        if has_nul(text) {
            let j = choose|j: int| 0 <= j < text.len() && text[j] == '\0';
            if j > 0 {
                assert(text.drop_first()[j - 1] == '\0');
            }
        }
    }
}

/// Tells whether a string holds the character of code zero.
pub fn contains_nul(text: &str) -> (found: bool)
    ensures
        found == has_nul(text@),
{
    let bytes = text.as_bytes();
    proof {
        lemma_zero_byte_is_nul(text@);
    }
    let mut i: usize = 0;
    while i < bytes.len()
        invariant
            i <= bytes.len(),
            bytes@ == encode_utf8(text@),
            bytes@.contains(0u8) <==> has_nul(text@),
            forall|j: int| 0 <= j < i ==> bytes@[j] != 0u8,
        decreases bytes.len() - i,
    {
        if bytes[i] == 0 {
            assert(bytes@[i as int] == 0u8);
            return true;
        }
        i += 1;
    }
    false
}

/// The number of bits in a value of type `T`.
pub open spec fn bits_of<T>() -> nat {
    size_of::<T>() * 8
}

/// The sample format as the native library takes it, in plain values.
#[derive(Clone, Copy, Debug)]
pub struct NativeFormat<'m> {
    /// Bits per sample.
    pub bits: i32,
    /// Samples per second, per channel.
    pub rate: i32,
    /// Number of channels.
    pub channels: i32,
    /// Flag of the byte order.
    pub byte_format: i32,
    /// The channel matrix, where one is passed.
    pub matrix: Option<&'m str>,
}

/// What a [`NativeFormat`] holds.
pub ghost struct NativeFormatView {
    /// Bits per sample.
    pub bits: int,
    /// Samples per second, per channel.
    pub rate: int,
    /// Number of channels.
    pub channels: int,
    /// Flag of the byte order.
    pub byte_format: int,
    /// The channel matrix, where one is passed.
    pub matrix: Option<Seq<char>>,
}

impl<'m> View for NativeFormat<'m> {
    type V = NativeFormatView;

    open spec fn view(&self) -> NativeFormatView {
        NativeFormatView {
            bits: self.bits as int,
            rate: self.rate as int,
            channels: self.channels as int,
            byte_format: self.byte_format as int,
            matrix: match self.matrix {
                Some(m) => Some(m@),
                None => None,
            },
        }
    }
}

/// The matrix that reaches the native library: the one given, unless it
/// holds the character of code zero; then none.
pub open spec fn native_matrix(matrix: Option<Seq<char>>) -> Option<Seq<char>> {
    match matrix {
        Some(m) => if has_nul(m) {
            None
        } else {
            Some(m)
        },
        None => None,
    }
}

/// A number as a field of the native format takes it: cut to its low 32
/// bits, and those read as a number with a sign. A number that fits is
/// kept.
pub open spec fn native_int(n: int) -> int {
    #[verifier::truncate]
    (n as i32) as int
}

/// The native form of a sample format: each number as the native field
/// takes it.
pub open spec fn native_format(
    bits: nat,
    sample_rate: usize,
    channels: usize,
    byte_order: Endianness,
    matrix: Option<Seq<char>>,
) -> NativeFormatView {
    NativeFormatView {
        bits: native_int(bits as int),
        rate: native_int(sample_rate as int),
        channels: native_int(channels as int),
        byte_format: byte_order.flag(),
        matrix: native_matrix(matrix),
    }
}

/// Describes audio sample formats.
///
/// Used to specify the format with which data will be fed to a device. The
/// bit width is that of the sample type `T`.
pub struct SampleFormat<'m, T> {
    /// Samples per second (per channel).
    pub sample_rate: usize,
    /// Number of channels.
    pub channels: usize,
    /// Byte order of samples.
    pub byte_order: Endianness,
    /// Maps input channels to output locations in a comma-separated list.
    ///
    /// For example, "L,R" specifies channel 0 as left and 1 as right, or
    /// "L,R,C,LFE,BR,BL" for a 5.1 FLAC file.
    pub matrix: Option<&'m str>,
    /// Ties the format to its sample type.
    pub marker: PhantomData<T>,
}

impl<'m, T: Sample> SampleFormat<'m, T> {
    /// The channel matrix as a sequence of characters.
    pub open spec fn matrix_view(&self) -> Option<Seq<char>> {
        match self.matrix {
            Some(m) => Some(m@),
            None => None,
        }
    }

    /// What the native library is told of this format.
    pub open spec fn native_view(&self) -> NativeFormatView {
        native_format(
            bits_of::<T>(),
            self.sample_rate,
            self.channels,
            self.byte_order,
            self.matrix_view(),
        )
    }

    /// Construct a sample format specification.
    pub fn new(
        sample_rate: usize,
        channels: usize,
        byte_order: Endianness,
        matrix: Option<&'m str>,
    ) -> (format: SampleFormat<'m, T>)
        ensures
            format.sample_rate == sample_rate,
            format.channels == channels,
            format.byte_order == byte_order,
            format.matrix == matrix,
    {
        SampleFormat { sample_rate, channels, byte_order, matrix, marker: PhantomData }
    }

    /// The format as the native library takes it.
    pub fn native(&self) -> (native: NativeFormat<'m>)
        ensures
            native@ == self.native_view(),
    {
        let size: usize = core::mem::size_of::<T>();
        assert(size * 8 <= 0xffff_ffff_ffff_ffff * 8) by (nonlinear_arith)
            requires
                0 <= size <= 0xffff_ffff_ffff_ffff,
        ;
        let sample_size: u128 = (size as u128) * 8;
        let matrix = match self.matrix {
            None => None,
            Some(m) => if contains_nul(m) {
                None
            } else {
                Some(m)
            },
        };
        let bits: i32 = #[verifier::truncate]
        (sample_size as i32);
        let rate: i32 = #[verifier::truncate]
        (self.sample_rate as i32);
        let channels: i32 = #[verifier::truncate]
        (self.channels as i32);
        NativeFormat { bits, rate, channels, byte_format: self.byte_order.byte_format(), matrix }
    }

    /// Calls `f` on the native form of this format and hands back what it
    /// returns.
    pub fn with_native<F, U>(&self, f: F) -> (out: U) where F: FnOnce(&NativeFormat<'m>) -> U
        requires
            forall|native: NativeFormat<'m>|
                native@ == self.native_view() ==> #[trigger] f.requires((&native,)),
        ensures
            exists|native: NativeFormat<'m>|
                native@ == self.native_view() && #[trigger] f.ensures((&native,), out),
    {
        let native = self.native();
        f(&native)
    }
}

} // verus!
