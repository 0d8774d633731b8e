//! The state of an adapter as a plain value, what a call to play a buffer
//! makes of it, and what holds of every run of such calls.

use super::{live_request, supported_width, BufferFormat};
use crate::device::{byte_count, whole_samples, OpenRequestView, Write};
use crate::format::{has_nul, Endianness};
use vstd::prelude::*;

verus! {

/// The device that an [`AutoFormatDevice`] holds open.
pub ghost struct OpenDevice {
    /// Bit width of the device's samples.
    pub width: usize,
    /// Handle of the device.
    pub handle: usize,
}

/// What an [`AutoFormatDevice`] holds.
pub ghost struct AutoView {
    /// Number of channels of the last buffer that was accepted.
    pub channels: usize,
    /// Sample rate of the last buffer that was accepted.
    pub sample_rate: usize,
    /// Byte order of the last buffer that was accepted.
    pub endianness: Endianness,
    /// The device that is open, if any.
    pub device: Option<OpenDevice>,
    /// The format that the open device was opened with, if one is open.
    pub opened_as: Option<BufferFormat>,
    /// Identifier of the driver that devices are opened on.
    pub driver: int,
    /// The channel matrixes, by number of channels.
    pub matrixes: Seq<Seq<char>>,
}

impl AutoView {
    /// The state before any buffer: no device is open.
    pub open spec fn initial(driver: int, matrixes: Seq<Seq<char>>) -> AutoView {
        AutoView {
            channels: 0,
            sample_rate: 0,
            endianness: Endianness::Native,
            device: None,
            opened_as: None,
            driver,
            matrixes,
        }
    }

    /// The format that the state stands at: that of the last buffer that
    /// was accepted, at the width of the open device.
    pub open spec fn format(self) -> BufferFormat
        recommends
            self.device is Some,
    {
        BufferFormat {
            channels: self.channels,
            sample_rate: self.sample_rate,
            sample_width: self.device->Some_0.width,
            endianness: self.endianness,
        }
    }

    /// Whenever a device is open, it is one that the native library gave
    /// out, at a width that devices can have, and the state stands at the
    /// format that the device was opened with.
    pub open spec fn wf(self) -> bool {
        match self.device {
            None => self.opened_as is None,
            Some(d) => d.handle != 0 && supported_width(d.width as int) && self.opened_as == Some(
                self.format(),
            ),
        }
    }

    /// Whether a buffer of this format can only be played once a device
    /// has been opened for it: no device is open, or the format differs in
    /// channels, sample rate, byte order or bit width from that of the
    /// open device.
    pub open spec fn needs_reopen(self, format: BufferFormat) -> bool {
        match self.device {
            None => true,
            Some(d) => format.channels != self.channels || format.sample_rate != self.sample_rate
                || format.endianness != self.endianness || format.sample_width != d.width,
        }
    }

    /// The channel matrix for a number of channels: the entry of the table
    /// at that index, or none where the table is too short.
    pub open spec fn matrix_for(self, nchannels: usize) -> Option<Seq<char>> {
        if self.matrixes.len() <= nchannels {
            None
        } else {
            Some(self.matrixes[nchannels as int])
        }
    }

    /// The call that opens a device for a buffer's format.
    pub open spec fn request(self, format: BufferFormat) -> OpenRequestView {
        live_request(self.driver, format, self.matrix_for(format.channels))
    }

    /// The state once a device has been opened for a buffer's format.
    pub open spec fn reopened(self, format: BufferFormat, handle: usize) -> AutoView {
        AutoView {
            channels: format.channels,
            sample_rate: format.sample_rate,
            endianness: format.endianness,
            device: Some(OpenDevice { width: format.sample_width, handle }),
            opened_as: Some(format),
            ..self
        }
    }

    /// The call that plays a buffer of `len` bytes through the open device.
    pub open spec fn write(self, len: nat) -> Write
        recommends
            self.device is Some,
    {
        Write {
            device: self.device->Some_0.handle,
            num_bytes: byte_count(whole_samples(len, (self.device->Some_0.width / 8) as nat)),
        }
    }

    /// The state after a whole call to play a buffer. `handle` is what the
    /// native library answers if it is asked to open a device; zero means
    /// that it opened none.
    pub open spec fn played(self, format: BufferFormat, handle: usize) -> AutoView {
        if self.needs_reopen(format) && handle != 0 {
            self.reopened(format, handle)
        } else {
            self
        }
    }

    /// The number of devices that a whole call to play a buffer opens.
    pub open spec fn opens(self, format: BufferFormat, handle: usize) -> nat {
        if self.needs_reopen(format) && handle != 0 {
            1
        } else {
            0
        }
    }

    /// Whether a whole call to play a buffer writes the buffer: it does
    /// unless a device had to be opened and was not.
    pub open spec fn writes(self, format: BufferFormat, handle: usize) -> bool {
        !self.needs_reopen(format) || handle != 0
    }

    /// The number of devices that a run of calls opens, each call given as
    /// the format of its buffer and the native library's answer.
    pub open spec fn opens_in(self, calls: Seq<(BufferFormat, usize)>) -> nat
        decreases calls.len(),
    {
        if calls.len() == 0 {
            0
        } else {
            self.opens(calls[0].0, calls[0].1) + self.played(calls[0].0, calls[0].1).opens_in(
                calls.drop_first(),
            )
        }
    }
}

/// A run of buffers that share one format opens at most one device,
/// however long it is and whatever becomes of each attempt to open one;
/// it opens none where the open device has that format already.
pub proof fn lemma_same_format_opens_once(
    state: AutoView,
    format: BufferFormat,
    calls: Seq<(BufferFormat, usize)>,
)
    requires
        forall|i: int| 0 <= i < calls.len() ==> (#[trigger] calls[i]).0 == format,
    ensures
        state.opens_in(calls) <= 1,
        !state.needs_reopen(format) ==> state.opens_in(calls) == 0,
    decreases calls.len(),
{
    if calls.len() > 0 {
        let rest = calls.drop_first();
        assert forall|i: int| 0 <= i < rest.len() implies (#[trigger] rest[i]).0 == format by {
            assert(rest[i] == calls[i + 1]);
        }
        lemma_same_format_opens_once(state.played(format, calls[0].1), format, rest);
    }
}

/// Of two buffers in a row that differ in channels, sample rate, byte
/// order or bit width, the second cannot be played through the device that
/// the first was written to: it is written only after one device, and no
/// more, has been opened for it.
pub proof fn lemma_changed_format_reopens(
    state: AutoView,
    first: BufferFormat,
    first_handle: usize,
    second: BufferFormat,
    second_handle: usize,
)
    requires
        state.writes(first, first_handle),
        first != second,
    ensures
        state.played(first, first_handle).needs_reopen(second),
        state.played(first, first_handle).opens(second, second_handle) <= 1,
        state.played(first, first_handle).writes(second, second_handle) ==> state.played(
            first,
            first_handle,
        ).opens(second, second_handle) == 1,
{
}

/// A buffer is written right away exactly when the open device has its
/// format; to play it then changes nothing, and once a device has been
/// opened for a format, buffers of that format are written right away.
pub proof fn lemma_reopen_settles(state: AutoView, format: BufferFormat, handle: usize)
    requires
        state.wf(),
        format.supported(),
    ensures
        state.played(format, handle).wf(),
        !state.needs_reopen(format) <==> state.opened_as == Some(format),
        !state.needs_reopen(format) ==> state.played(format, handle) == state,
        handle != 0 ==> !state.played(format, handle).needs_reopen(format),
        handle == 0 ==> state.played(format, handle) == state,
{
}

/// For a buffer of `c` channels, no channel matrix goes into the call that
/// opens a device where the table has fewer than `c + 1` entries;
/// otherwise the table's entry at index `c` goes into it as it is. (An
/// entry that holds the character of code zero cannot be handed to the
/// native library: it is left out.)
pub proof fn lemma_matrix_selection(state: AutoView, format: BufferFormat)
    ensures
        state.matrixes.len() < format.channels + 1 ==> state.request(format).format.matrix
            is None,
        state.matrixes.len() >= format.channels + 1 && !has_nul(
            state.matrixes[format.channels as int],
        ) ==> state.request(format).format.matrix == Some(state.matrixes[format.channels as int]),
        state.matrixes.len() >= format.channels + 1 && has_nul(
            state.matrixes[format.channels as int],
        ) ==> state.request(format).format.matrix is None,
{
}

} // verus!
