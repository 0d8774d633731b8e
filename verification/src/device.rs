//! Open devices, and the native calls that open them and play through them.

use crate::error::{AoError, AoResult};
use crate::format::{NativeFormat, NativeFormatView, Sample};
use core::marker::PhantomData;
use vstd::layout::size_of;
use vstd::prelude::*;

verus! {

/// The file that a file output device writes.
#[derive(Clone, Copy, Debug)]
pub struct FileTarget<'r> {
    /// Path of the file.
    pub path: &'r str,
    /// Whether a file that is already there is replaced.
    pub overwrite: bool,
}

/// A call of the native library that opens a device: live where `file` is
/// `None`, else writing that file.
#[derive(Clone, Copy, Debug)]
pub struct OpenRequest<'r> {
    /// Identifier of the driver.
    pub driver: i32,
    /// Format of the samples that the device will be fed.
    pub format: NativeFormat<'r>,
    /// The file to write, for a file output device.
    pub file: Option<FileTarget<'r>>,
}

/// What an [`OpenRequest`] holds.
pub ghost struct OpenRequestView {
    /// Identifier of the driver.
    pub driver: int,
    /// Format of the samples that the device will be fed.
    pub format: NativeFormatView,
    /// Path of the file to write and whether it may be replaced, for a file
    /// output device.
    pub file: Option<(Seq<char>, bool)>,
}

impl<'r> View for OpenRequest<'r> {
    type V = OpenRequestView;

    open spec fn view(&self) -> OpenRequestView {
        OpenRequestView {
            driver: self.driver as int,
            format: self.format@,
            file: match self.file {
                Some(target) => Some((target.path@, target.overwrite)),
                None => None,
            },
        }
    }
}

/// A call of the native library that plays samples: the first `num_bytes`
/// bytes of the buffer at hand go to the device with this handle.
#[derive(Clone, Copy, PartialEq, Eq, Structural, Debug)]
pub struct Write {
    /// Handle of the device.
    pub device: usize,
    /// Number of bytes to play.
    pub num_bytes: u32,
}

/// A number of bytes as the native call that plays them takes it: cut to
/// its low 32 bits.
pub open spec fn byte_count(bytes: nat) -> u32 {
    #[verifier::truncate]
    (bytes as u32)
}

/// The bytes of a buffer that make whole samples of `size` bytes each.
pub open spec fn whole_samples(len: nat, size: nat) -> nat
    recommends
        size > 0,
{
    (len / size) * size
}

/// An output device.
///
/// It holds the handle of a device that the native library has opened. The
/// handle is never zero.
pub struct Device<'a, S> {
    id: usize,
    m0: PhantomData<&'a ()>,
    m1: PhantomData<S>,
}

impl<'a, S> Device<'a, S> {
    /// The handle of the device.
    pub closed spec fn handle(&self) -> usize {
        self.id
    }

    #[verifier::type_invariant]
    spec fn is_open(&self) -> bool {
        self.id != 0
    }
}

impl<'a, S: Sample> Device<'a, S> {
    /// Finishes the opening of a device. `handle` is what the native call
    /// returned, and `errno` the error code read right after it. A zero
    /// handle means that the device was not opened: the error is the one
    /// that the code stands for.
    pub fn init(handle: usize, errno: i32) -> (opened: AoResult<Device<'a, S>>)
        ensures
            handle == 0 ==> opened == Err::<Device<'a, S>, AoError>(
                AoError::of_code(errno as int),
            ),
            handle != 0 ==> opened is Ok && opened->Ok_0.handle() == handle,
    {
        if handle == 0 {
            Err(AoError::from_errno(errno))
        } else {
            Ok(Device { id: handle, m0: PhantomData, m1: PhantomData })
        }
    }

    /// The handle of the device.
    pub fn id(&self) -> (handle: usize)
        ensures
            handle == self.handle(),
            handle != 0,
    {
        proof {
            use_type_invariant(self);
        }
        self.id
    }

    /// Plays packed samples through the device.
    ///
    /// For multi-channel output, channels are interleaved: the samples of
    /// one point in time stand side by side, one per channel. The native
    /// call takes the length in bytes as 32 bits: a longer buffer is cut to
    /// what those bits hold.
    pub fn play(&self, samples: &[S]) -> (write: Write)
        ensures
            write.device == self.handle(),
            write.num_bytes == byte_count(samples@.len() * size_of::<S>()),
    {
        let len: usize = samples.len();
        let size: usize = core::mem::size_of::<S>();
        assert(len * size <= 0xffff_ffff_ffff_ffff * 0xffff_ffff_ffff_ffff) by (nonlinear_arith)
            requires
                0 <= len <= 0xffff_ffff_ffff_ffff,
                0 <= size <= 0xffff_ffff_ffff_ffff,
        ;
        let bytes: u128 = (len as u128) * (size as u128);
        let num_bytes: u32 = #[verifier::truncate]
        (bytes as u32);
        Write { device: self.id, num_bytes }
    }

    /// Plays raw bytes through the device, read as an array of samples. The
    /// bytes that make whole samples are played; what is left over at the
    /// end, less than one sample, is not.
    pub fn play_bytes(&self, bytes: &[u8]) -> (write: Write)
        requires
            size_of::<S>() > 0,
        ensures
            write.device == self.handle(),
            write.num_bytes == byte_count(whole_samples(bytes@.len(), size_of::<S>())),
    {
        let size: usize = core::mem::size_of::<S>();
        let count: usize = bytes.len() / size;
        assert(count * size <= bytes@.len()) by (nonlinear_arith)
            requires
                count == bytes@.len() / (size as nat),
                size > 0,
        ;
        let whole: usize = count * size;
        let num_bytes: u32 = #[verifier::truncate]
        (whole as u32);
        Write { device: self.id, num_bytes }
    }
}

} // verus!
