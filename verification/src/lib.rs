//! Bindings to libao, a low-level library for audio output: the part that
//! decides.
//!
//! Nothing here calls the native library. Each operation is split where the
//! native call stands: what comes before it computes the call to make, as a
//! plain value, and what comes after it takes the call's answer, as plain
//! values again. Whoever links the native library makes the calls in
//! between and owns what they hand out.
//!
//! - [`AO`] is the library owner: it finds the drivers.
//! - A [`Driver`] says how a device is opened on it, live or to a file, for
//!   a [`SampleFormat`]; [`Device::init`] takes what the native call
//!   returned, and a [`Device`] says how samples are played through it.
//! - An [`auto::AutoFormatDevice`] keeps one device at the format of the
//!   buffers that come in, and asks for another to be opened exactly when a
//!   buffer's format differs from that of the device that is open.
//! - The [`pipeline`] holds sources of sample blocks, a stage that converts
//!   between sample types, a generator of white noise, and the sink that
//!   feeds a device from a source.

pub mod auto;
pub mod device;
pub mod driver;
pub mod error;
pub mod format;
pub mod pipeline;

pub use device::{Device, FileTarget, OpenRequest, Write};
pub use driver::{Driver, DriverInfo, DriverType, Lookup, NativeInfo, AO};
pub use error::{AoError, AoResult};
pub use format::{Endianness, NativeFormat, Sample, SampleFormat};
