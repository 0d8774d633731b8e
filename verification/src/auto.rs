//! Automatic device format adjustment.
//!
//! Given a way to poll the properties of an incoming buffer of samples, this
//! module decides how the output device is kept at the buffer's format, so
//! that the data fed to the output need not all have the same format. The
//! device is opened anew exactly when a buffer's format differs from that of
//! the device that is open, and never otherwise.
//!
//! The module makes no native call. `AutoFormatDevice::play` says what the
//! caller does next: write to the device that is open, or open another
//! first and report how that went to `AutoFormatDevice::opened`.

use crate::device::{byte_count, whole_samples, Device, OpenRequest, OpenRequestView, Write};
use crate::driver::Driver;
use crate::error::{AoError, AoResult};
use crate::format::{native_format, Endianness, Sample, SampleFormat};
use core::marker::PhantomData;
use vstd::layout::layout_of_primitives;
use vstd::pervasive::unreached;
use vstd::prelude::*;

pub mod model;

pub use model::{AutoView, OpenDevice};

verus! {

/// A buffer containing samples.
///
/// Such buffer always has a defined number of channels and sample rate, in
/// addition to the parameters normally provided in a `SampleFormat`
/// specification.
pub trait SampleBuffer {
    /// Number of channels in this buffer.
    fn channels(&self) -> usize;

    /// Sample rate of this buffer, in Hz.
    fn sample_rate(&self) -> usize;

    /// Endianness of samples in this buffer.
    fn endianness(&self) -> Endianness;

    /// Bit width of samples in this buffer.
    fn sample_width(&self) -> usize;

    /// Provides access to the sample data.
    ///
    /// No processing is performed on this data; it is passed straight
    /// through to the underlying library.
    fn data(&self) -> &[u8];
}

/// Whether a device can take samples of this many bits.
pub open spec fn supported_width(width: int) -> bool {
    width == 8 || width == 16 || width == 32
}

/// What a buffer says of its samples.
#[derive(Clone, Copy, PartialEq, Eq, Structural, Debug)]
pub struct BufferFormat {
    /// Number of channels.
    pub channels: usize,
    /// Sample rate, in Hz.
    pub sample_rate: usize,
    /// Bit width of the samples.
    pub sample_width: usize,
    /// Byte order of the samples.
    pub endianness: Endianness,
}

impl BufferFormat {
    /// Whether a device can be opened at this format's bit width.
    pub open spec fn supported(self) -> bool {
        supported_width(self.sample_width as int)
    }

    /// Tells whether a device can be opened at this format's bit width.
    pub fn is_supported(&self) -> (yes: bool)
        ensures
            yes == self.supported(),
    {
        self.sample_width == 8 || self.sample_width == 16 || self.sample_width == 32
    }
}

/// A buffer read once: what it said of its samples, and its bytes.
#[derive(Clone, Copy, Debug)]
pub struct Buffer<'b> {
    /// What the buffer said of its samples.
    pub format: BufferFormat,
    /// The sample data.
    pub data: &'b [u8],
}

impl<'b> Buffer<'b> {
    /// Polls a buffer of samples: each of its properties once, then its
    /// data. What the reading holds of each is what the buffer's method of
    /// that name returned.
    pub fn read<B: SampleBuffer + ?Sized>(source: &'b B) -> (buffer: Buffer<'b>)
        ensures
            call_ensures(B::channels, (source,), buffer.format.channels),
            call_ensures(B::sample_rate, (source,), buffer.format.sample_rate),
            call_ensures(B::sample_width, (source,), buffer.format.sample_width),
            call_ensures(B::endianness, (source,), buffer.format.endianness),
            call_ensures(B::data, (source,), buffer.data),
    {
        let channels = source.channels();
        let sample_rate = source.sample_rate();
        let sample_width = source.sample_width();
        let endianness = source.endianness();
        Buffer {
            format: BufferFormat { channels, sample_rate, sample_width, endianness },
            data: source.data(),
        }
    }
}

impl<'b> SampleBuffer for Buffer<'b> {
    fn channels(&self) -> (n: usize)
        ensures
            n == self.format.channels,
    {
        self.format.channels
    }

    fn sample_rate(&self) -> (rate: usize)
        ensures
            rate == self.format.sample_rate,
    {
        self.format.sample_rate
    }

    fn endianness(&self) -> (order: Endianness)
        ensures
            order == self.format.endianness,
    {
        self.format.endianness
    }

    fn sample_width(&self) -> (width: usize)
        ensures
            width == self.format.sample_width,
    {
        self.format.sample_width
    }

    fn data(&self) -> (bytes: &[u8])
        ensures
            bytes == self.data,
    {
        self.data
    }
}

/// The format of samples of type `S`, as a device of that type is opened
/// with.
fn build_format<'m, S: Sample>(
    rate: usize,
    channels: usize,
    order: Endianness,
    matrix: Option<&'m str>,
) -> (format: SampleFormat<'m, S>)
    ensures
        format.sample_rate == rate,
        format.channels == channels,
        format.byte_order == order,
        format.matrix == matrix,
{
    SampleFormat {
        sample_rate: rate,
        channels: channels,
        byte_order: order,
        matrix: matrix,
        marker: PhantomData,
    }
}

/// The view of a channel matrix, where there is one.
pub open spec fn matrix_view(matrix: Option<&str>) -> Option<Seq<char>> {
    match matrix {
        Some(m) => Some(m@),
        None => None,
    }
}

/// The call that opens a live device of a bit width on a driver.
pub open spec fn live_request(
    driver: int,
    format: BufferFormat,
    matrix: Option<Seq<char>>,
) -> OpenRequestView {
    OpenRequestView {
        driver,
        format: native_format(
            format.sample_width as nat,
            format.sample_rate,
            format.channels,
            format.endianness,
            matrix,
        ),
        file: None,
    }
}

/// An open device of one of the bit widths that a device can have.
pub enum DeviceFormat<'a> {
    /// A device of 8-bit samples.
    Integer8(Device<'a, i8>),
    /// A device of 16-bit samples.
    Integer16(Device<'a, i16>),
    /// A device of 32-bit samples.
    Integer32(Device<'a, i32>),
}

impl<'a> DeviceFormat<'a> {
    /// The bit width of the device's samples.
    pub open spec fn width(&self) -> usize {
        match self {
            DeviceFormat::Integer8(_) => 8,
            DeviceFormat::Integer16(_) => 16,
            DeviceFormat::Integer32(_) => 32,
        }
    }

    /// The handle of the device.
    pub open spec fn handle(&self) -> usize {
        match self {
            DeviceFormat::Integer8(d) => d.handle(),
            DeviceFormat::Integer16(d) => d.handle(),
            DeviceFormat::Integer32(d) => d.handle(),
        }
    }

    /// The call that plays a buffer of `len` bytes through the device: the
    /// bytes that make whole samples of the device's width.
    pub open spec fn write(&self, len: nat) -> Write {
        Write {
            device: self.handle(),
            num_bytes: byte_count(whole_samples(len, (self.width() / 8) as nat)),
        }
    }

    /// The bit width of the device's samples.
    pub fn sample_width(&self) -> (width: usize)
        ensures
            width == self.width(),
            supported_width(width as int),
    {
        match *self {
            DeviceFormat::Integer8(_) => 8,
            DeviceFormat::Integer16(_) => 16,
            DeviceFormat::Integer32(_) => 32,
        }
    }

    /// The handle of the device.
    pub fn id(&self) -> (handle: usize)
        ensures
            handle == self.handle(),
            handle != 0,
    {
        match self {
            DeviceFormat::Integer8(d) => d.id(),
            DeviceFormat::Integer16(d) => d.id(),
            DeviceFormat::Integer32(d) => d.id(),
        }
    }

    /// The call that opens a live device of a bit width on a driver. A
    /// device cannot be opened at another width than 8, 16 or 32 bits.
    pub fn request<'m>(
        driver: &Driver,
        width: usize,
        rate: usize,
        channels: usize,
        endianness: Endianness,
        matrix: Option<&'m str>,
    ) -> (request: OpenRequest<'m>)
        requires
            supported_width(width as int),
        ensures
            request@ == live_request(
                driver.ident() as int,
                BufferFormat { channels, sample_rate: rate, sample_width: width, endianness },
                matrix_view(matrix),
            ),
    {
        broadcast use layout_of_primitives;

        if width == 8 {
            let format = build_format::<i8>(rate, channels, endianness, matrix);
            driver.open_live(&format)
        } else if width == 16 {
            let format = build_format::<i16>(rate, channels, endianness, matrix);
            driver.open_live(&format)
        } else if width == 32 {
            let format = build_format::<i32>(rate, channels, endianness, matrix);
            driver.open_live(&format)
        } else {
            unreached()
        }
    }

    /// Makes the device that a native call has opened at a bit width.
    /// `handle` is what the call returned, `errno` the error code read
    /// right after it. A device cannot be made at another width than 8, 16
    /// or 32 bits.
    pub fn new(width: usize, handle: usize, errno: i32) -> (opened: AoResult<DeviceFormat<'a>>)
        requires
            supported_width(width as int),
        ensures
            handle == 0 ==> opened == Err::<DeviceFormat<'a>, AoError>(
                AoError::of_code(errno as int),
            ),
            handle != 0 ==> opened is Ok && opened->Ok_0.width() == width
                && opened->Ok_0.handle() == handle,
    {
        if width == 8 {
            match Device::<'a, i8>::init(handle, errno) {
                Ok(x) => Ok(DeviceFormat::Integer8(x)),
                Err(e) => Err(e),
            }
        } else if width == 16 {
            match Device::<'a, i16>::init(handle, errno) {
                Ok(x) => Ok(DeviceFormat::Integer16(x)),
                Err(e) => Err(e),
            }
        } else if width == 32 {
            match Device::<'a, i32>::init(handle, errno) {
                Ok(x) => Ok(DeviceFormat::Integer32(x)),
                Err(e) => Err(e),
            }
        } else {
            unreached()
        }
    }

    /// Plays raw bytes through the device: each width reads them as an
    /// array of its own samples.
    pub fn play(&self, bytes: &[u8]) -> (write: Write)
        ensures
            write == self.write(bytes@.len()),
    {
        broadcast use layout_of_primitives;

        match self {
            DeviceFormat::Integer8(d) => d.play_bytes(bytes),
            DeviceFormat::Integer16(d) => d.play_bytes(bytes),
            DeviceFormat::Integer32(d) => d.play_bytes(bytes),
        }
    }
}

/// What to do next for a buffer.
#[derive(Clone, Copy, Debug)]
pub enum Action<'r> {
    /// The open device has the buffer's format: play the buffer through
    /// it.
    Write(Write),
    /// Open a live device with this call, and report the outcome to
    /// `AutoFormatDevice::opened`.
    Open(OpenRequest<'r>),
}

/// What follows the opening of a device for a buffer.
#[derive(Clone, Copy, PartialEq, Eq, Structural, Debug)]
pub struct Reopened {
    /// The call that plays the buffer through the new device.
    pub write: Write,
    /// Handle of the device that the new one replaces: it is to be closed.
    pub replaced: Option<usize>,
}

/// Automatically adjusts the output format according to incoming buffers.
///
/// This device adapter decides how the underlying device is managed so that
/// it always has the correct sample format: the format of incoming samples
/// may change at runtime.
pub struct AutoFormatDevice<'a> {
    observed: Observed<'a>,
    driver: Driver<'a>,
    matrixes: Vec<String>,
}

/// The format that an adapter stands at, with the device that is open. The
/// two change together.
struct Observed<'a> {
    channels: usize,
    sample_rate: usize,
    endianness: Endianness,
    device: Option<DeviceFormat<'a>>,
    opened_as: Ghost<Option<BufferFormat>>,
}

impl<'a> View for AutoFormatDevice<'a> {
    type V = AutoView;

    closed spec fn view(&self) -> AutoView {
        AutoView {
            channels: self.observed.channels,
            sample_rate: self.observed.sample_rate,
            endianness: self.observed.endianness,
            device: match self.observed.device {
                Some(d) => Some(OpenDevice { width: d.width(), handle: d.handle() }),
                None => None,
            },
            opened_as: self.observed.opened_as@,
            driver: self.driver.ident() as int,
            matrixes: self.matrixes@.map_values(|m: String| m@),
        }
    }
}

impl<'a> AutoFormatDevice<'a> {
    #[verifier::type_invariant]
    spec fn inv(&self) -> bool {
        self@.wf()
    }

    /// Construct a new AutoFormatDevice.
    ///
    /// Will be backed by the specified driver, and the `matrixes` is a list
    /// where an element's index maps to the number of channels. See
    /// `SampleFormat.matrix` for the format of each channel matrix. No
    /// device is opened before the first buffer.
    pub fn new(driver: Driver<'a>, matrixes: Vec<String>) -> (auto: AutoFormatDevice<'a>)
        ensures
            auto@ == AutoView::initial(
                driver.ident() as int,
                matrixes@.map_values(|m: String| m@),
            ),
            auto@.wf(),
    {
        AutoFormatDevice {
            observed: Observed {
                channels: 0,
                sample_rate: 0,
                endianness: Endianness::Native,
                device: None,
                opened_as: Ghost(None),
            },
            driver: driver,
            matrixes: matrixes,
        }
    }

    /// Number of channels of the last buffer that was accepted; zero
    /// before the first.
    pub fn channels(&self) -> (n: usize)
        ensures
            n == self@.channels,
    {
        self.observed.channels
    }

    /// Sample rate of the last buffer that was accepted; zero before the
    /// first.
    pub fn sample_rate(&self) -> (rate: usize)
        ensures
            rate == self@.sample_rate,
    {
        self.observed.sample_rate
    }

    /// Byte order of the last buffer that was accepted; the machine's
    /// before the first.
    pub fn endianness(&self) -> (order: Endianness)
        ensures
            order == self@.endianness,
    {
        self.observed.endianness
    }

    /// Bit width of the open device, if one is open.
    pub fn sample_width(&self) -> (width: Option<usize>)
        ensures
            self@.wf(),
            width is Some <==> self@.device is Some,
            width is Some ==> width->Some_0 == self@.device->Some_0.width,
    {
        proof {
            use_type_invariant(self);
        }
        match &self.observed.device {
            Some(d) => Some(d.sample_width()),
            None => None,
        }
    }

    /// Handle of the open device, if one is open. Whoever gives the
    /// adapter up closes that device.
    pub fn device(&self) -> (handle: Option<usize>)
        ensures
            self@.wf(),
            handle is Some <==> self@.device is Some,
            handle is Some ==> handle->Some_0 == self@.device->Some_0.handle,
    {
        proof {
            use_type_invariant(self);
        }
        match &self.observed.device {
            Some(d) => Some(d.id()),
            None => None,
        }
    }

    /// Tells whether a device must be opened before a buffer of this
    /// format can be played.
    pub fn must_reopen(&self, format: &BufferFormat) -> (reopen: bool)
        ensures
            reopen == self@.needs_reopen(*format),
    {
        let observed = &self.observed;
        match observed.device {
            None => true,
            Some(ref d) => {
                // Might need to reopen the device
                format.channels != observed.channels || format.sample_rate
                    != observed.sample_rate || format.endianness != observed.endianness
                    || format.sample_width != d.sample_width()
            },
        }
    }

    /// The channel matrix for a number of channels.
    pub fn matrix_for(&self, nchannels: usize) -> (matrix: Option<&str>)
        ensures
            matrix_view(matrix) == self@.matrix_for(nchannels),
    {
        if self.matrixes.len() <= nchannels {
            None
        } else {
            Some(self.matrixes[nchannels].as_str())
        }
    }

    /// The call that opens a device of a format on the adapter's driver,
    /// with the channel matrix for the format's number of channels. A
    /// device cannot be opened at another width than 8, 16 or 32 bits.
    pub fn open_device(
        &self,
        width: usize,
        rate: usize,
        channels: usize,
        endianness: Endianness,
    ) -> (request: OpenRequest<'_>)
        requires
            supported_width(width as int),
        ensures
            request@ == self@.request(
                BufferFormat { channels, sample_rate: rate, sample_width: width, endianness },
            ),
    {
        DeviceFormat::request(
            &self.driver,
            width,
            rate,
            channels,
            endianness,
            self.matrix_for(channels),
        )
    }

    /// Play samples from a dynamic format buffer: says what is to be done
    /// for it.
    ///
    /// Where the open device has the buffer's format, the buffer is
    /// written to it. Otherwise a device of the buffer's format is to be
    /// opened first; the adapter stays as it is until `opened` is told
    /// that one was. A buffer of another width than 8, 16 or 32 bits cannot
    /// be played.
    pub fn play(&self, buffer: &Buffer) -> (action: Action<'_>)
        requires
            buffer.format.supported(),
        ensures
            self@.wf(),
            self@.needs_reopen(buffer.format) ==> action is Open && action->Open_0@
                == self@.request(buffer.format),
            !self@.needs_reopen(buffer.format) ==> action is Write && action->Write_0
                == self@.write(buffer.data@.len()),
    {
        proof {
            use_type_invariant(self);
        }
        let format = &buffer.format;
        if self.must_reopen(format) {
            Action::Open(
                self.open_device(
                    format.sample_width,
                    format.sample_rate,
                    format.channels,
                    format.endianness,
                ),
            )
        } else {
            // The open device has the buffer's format: do the playback
            match self.observed.device {
                Some(ref f) => Action::Write(f.play(buffer.data)),
                None => unreached(),
            }
        }
    }

    /// Takes the outcome of the native call that `play` asked for.
    /// `handle` is what the call returned, `errno` the error code read
    /// right after it.
    ///
    /// Where a device was opened, it replaces the one that was open, the
    /// adapter stands at the buffer's format, and the buffer is written to
    /// the new device. Where none was, the call fails with the error that
    /// the code stands for, and the adapter is left as it was.
    pub fn opened(&mut self, buffer: &Buffer, handle: usize, errno: i32) -> (done: AoResult<
        Reopened,
    >)
        requires
            buffer.format.supported(),
        ensures
            final(self)@.wf(),
            old(self)@.needs_reopen(buffer.format) ==> final(self)@ == old(self)@.played(
                buffer.format,
                handle,
            ),
            handle == 0 ==> done == Err::<Reopened, AoError>(AoError::of_code(errno as int))
                && *final(self) == *old(self),
            handle != 0 ==> final(self)@ == old(self)@.reopened(buffer.format, handle) && done
                == Ok::<Reopened, AoError>(
                Reopened {
                    write: final(self)@.write(buffer.data@.len()),
                    replaced: match old(self)@.device {
                        Some(d) => Some(d.handle),
                        None => None,
                    },
                },
            ),
    {
        proof {
            use_type_invariant(&*self);
        }
        let device = match DeviceFormat::new(buffer.format.sample_width, handle, errno) {
            Ok(d) => d,
            Err(e) => {
                return Err(e);
            },
        };
        let write = device.play(buffer.data);
        let replaced = match &self.observed.device {
            Some(d) => Some(d.id()),
            None => None,
        };
        self.observed = Observed {
            channels: buffer.format.channels,
            sample_rate: buffer.format.sample_rate,
            endianness: buffer.format.endianness,
            device: Some(device),
            opened_as: Ghost(Some(buffer.format)),
        };
        Ok(Reopened { write, replaced })
    }
}

} // verus!
