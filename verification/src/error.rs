//! The errors that the native library reports.

use vstd::prelude::*;

verus! {

/// Code of [`AoError::NoDriver`].
pub const AO_ENODRIVER: i32 = 1;

/// Code of [`AoError::NotFile`].
pub const AO_ENOTFILE: i32 = 2;

/// Code of [`AoError::NotLive`].
pub const AO_ENOTLIVE: i32 = 3;

/// Code of [`AoError::BadOption`].
pub const AO_EBADOPTION: i32 = 4;

/// Code of [`AoError::OpenDevice`].
pub const AO_EOPENDEVICE: i32 = 5;

/// Code of [`AoError::OpenFile`].
pub const AO_EOPENFILE: i32 = 6;

/// Code of [`AoError::FileExists`].
pub const AO_EFILEEXISTS: i32 = 7;

/// Code of [`AoError::BadFormat`].
pub const AO_EBADFORMAT: i32 = 8;

/// Code of [`AoError::Unknown`].
pub const AO_EFAIL: i32 = 100;

/// Output of the operations that may fail.
pub type AoResult<T> = Result<T, AoError>;

/// Result of (most) operations that may fail.
#[derive(Clone, Copy, PartialEq, Eq, Structural, Debug)]
pub enum AoError {
    /// No driver is available: none matches the requested name, or there is
    /// no usable audio output device.
    NoDriver,
    /// The specified driver does not do file output.
    NotFile,
    /// The specified driver does not do live output.
    NotLive,
    /// A known driver option has an invalid value.
    BadOption,
    /// Could not open the output device.
    OpenDevice,
    /// Could not open the output file.
    OpenFile,
    /// The specified file already exists.
    FileExists,
    /// The requested stream format is not supported, most often because of an
    /// invalid channel matrix.
    BadFormat,
    /// Unspecified error.
    Unknown,
}

impl AoError {
    /// The error that a native error code stands for. A code that the
    /// library does not know stands for `Unknown`.
    pub open spec fn of_code(code: int) -> AoError {
        if code == AO_ENODRIVER {
            AoError::NoDriver
        } else if code == AO_ENOTFILE {
            AoError::NotFile
        } else if code == AO_ENOTLIVE {
            AoError::NotLive
        } else if code == AO_EBADOPTION {
            AoError::BadOption
        } else if code == AO_EOPENDEVICE {
            AoError::OpenDevice
        } else if code == AO_EOPENFILE {
            AoError::OpenFile
        } else if code == AO_EFILEEXISTS {
            AoError::FileExists
        } else if code == AO_EBADFORMAT {
            AoError::BadFormat
        } else {
            AoError::Unknown
        }
    }

    /// The native code of this error.
    pub open spec fn spec_code(self) -> int {
        match self {
            AoError::NoDriver => AO_ENODRIVER as int,
            AoError::NotFile => AO_ENOTFILE as int,
            AoError::NotLive => AO_ENOTLIVE as int,
            AoError::BadOption => AO_EBADOPTION as int,
            AoError::OpenDevice => AO_EOPENDEVICE as int,
            AoError::OpenFile => AO_EOPENFILE as int,
            AoError::FileExists => AO_EFILEEXISTS as int,
            AoError::BadFormat => AO_EBADFORMAT as int,
            AoError::Unknown => AO_EFAIL as int,
        }
    }

    /// The text that describes this error.
    pub open spec fn text(self) -> Seq<char> {
        match self {
            AoError::NoDriver => "No such driver"@,
            AoError::NotFile => "Driver is not a file output device"@,
            AoError::NotLive => "Driver is not a live output device"@,
            AoError::BadOption => "A valid option key has an invalid value"@,
            AoError::OpenDevice => "Cannot open the output device"@,
            AoError::OpenFile => "Cannot open the output file"@,
            AoError::FileExists => "File for output already exists"@,
            AoError::BadFormat => "Requested stream format is not supported"@,
            AoError::Unknown => "Unknown error"@,
        }
    }

    /// The error that the code left behind by a failing native call stands
    /// for.
    ///
    /// The native library does not queue its errors: the code is read right
    /// after the call that failed, before any other call.
    pub fn from_errno(errno: i32) -> (e: AoError)
        ensures
            e == AoError::of_code(errno as int),
    {
        if errno == AO_ENODRIVER {
            AoError::NoDriver
        } else if errno == AO_ENOTFILE {
            AoError::NotFile
        } else if errno == AO_ENOTLIVE {
            AoError::NotLive
        } else if errno == AO_EBADOPTION {
            AoError::BadOption
        } else if errno == AO_EOPENDEVICE {
            AoError::OpenDevice
        } else if errno == AO_EOPENFILE {
            AoError::OpenFile
        } else if errno == AO_EFILEEXISTS {
            AoError::FileExists
        } else if errno == AO_EBADFORMAT {
            AoError::BadFormat
        } else {
            AoError::Unknown
        }
    }

    /// The native code of this error.
    pub fn code(self) -> (code: i32)
        ensures
            code == self.spec_code(),
            AoError::of_code(code as int) == self,
    {
        match self {
            AoError::NoDriver => AO_ENODRIVER,
            AoError::NotFile => AO_ENOTFILE,
            AoError::NotLive => AO_ENOTLIVE,
            AoError::BadOption => AO_EBADOPTION,
            AoError::OpenDevice => AO_EOPENDEVICE,
            AoError::OpenFile => AO_EOPENFILE,
            AoError::FileExists => AO_EFILEEXISTS,
            AoError::BadFormat => AO_EBADFORMAT,
            AoError::Unknown => AO_EFAIL,
        }
    }

    /// A short description of this error.
    pub fn description(&self) -> (s: &'static str)
        ensures
            s@ == self.text(),
    {
        match *self {
            AoError::NoDriver => "No such driver",
            AoError::NotFile => "Driver is not a file output device",
            AoError::NotLive => "Driver is not a live output device",
            AoError::BadOption => "A valid option key has an invalid value",
            AoError::OpenDevice => "Cannot open the output device",
            AoError::OpenFile => "Cannot open the output file",
            AoError::FileExists => "File for output already exists",
            AoError::BadFormat => "Requested stream format is not supported",
            AoError::Unknown => "Unknown error",
        }
    }
}

/// Every error is the one that its own code stands for.
pub proof fn lemma_code_round_trip(e: AoError)
    ensures
        AoError::of_code(e.spec_code()) == e,
{
}

/// Every code but the eight that the native library names stands for
/// `Unknown`.
pub proof fn lemma_unrecognized_code_is_unknown(code: int)
    requires
        !(1 <= code <= 8),
    ensures
        AoError::of_code(code) == AoError::Unknown,
{
}

} // verus!
