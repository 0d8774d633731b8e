//! The library owner and its output drivers.

use crate::device::{Device, FileTarget, OpenRequest, OpenRequestView};
use crate::error::{AoError, AoResult};
use crate::format::{contains_nul, has_nul, Sample, SampleFormat};
use core::marker::PhantomData;
use vstd::pervasive::unreached;
use vstd::prelude::*;

verus! {

/// Native flavor of a driver that plays live.
pub const AO_TYPE_LIVE: i32 = 1;

/// Native flavor of a driver that writes a file.
pub const AO_TYPE_FILE: i32 = 2;

/// What the native library answers when it has no such driver.
pub const NO_DRIVER: i32 = -1;

/// Library owner.
///
/// Initialization of the native library loads plugins and system/user
/// configuration files. There must be only one instance of this object live
/// at a given time: a flag that the whole process shares says whether one
/// is.
pub struct AO {
    token: (),
}

/// How a driver is looked up in the native library.
#[derive(Clone, Copy, Debug)]
pub enum Lookup<'n> {
    /// The default driver of the system or the user.
    Default,
    /// The driver of this short name.
    Named(&'n str),
}

/// What a [`Lookup`] holds.
pub ghost enum LookupView {
    /// The default driver of the system or the user.
    Default,
    /// The driver of this short name.
    Named(Seq<char>),
}

impl<'n> View for Lookup<'n> {
    type V = LookupView;

    open spec fn view(&self) -> LookupView {
        match self {
            Lookup::Default => LookupView::Default,
            Lookup::Named(name) => LookupView::Named(name@),
        }
    }
}

/// The lookup that a driver name asks for: the default driver for the
/// empty name, none at all for a name that the native library cannot
/// take, else the driver of that name.
pub open spec fn lookup_for(name: Seq<char>) -> Option<LookupView> {
    if name.len() == 0 {
        Some(LookupView::Default)
    } else if has_nul(name) {
        None
    } else {
        Some(LookupView::Named(name))
    }
}

impl AO {
    /// Get the `AO`: claims the native library for the caller. `live` is
    /// the flag of the process, which must not be set: to initialize the
    /// library twice is an error of the program.
    pub fn init(live: &mut bool) -> (lib: AO)
        requires
            !*old(live),
        ensures
            *final(live),
    {
        if *live {
            unreached()
        } else {
            *live = true;
            AO { token: () }
        }
    }

    /// Gives the native library up, so that it can be initialized anew.
    pub fn shutdown(self, live: &mut bool)
        ensures
            !*final(live),
    {
        *live = false;
    }

    /// Says how the driver of a name is looked up.
    ///
    /// `name` specifies the name of the output driver to use; the empty
    /// name asks for the default driver. `None` means that no driver has
    /// this name, whatever the native library holds.
    pub fn lookup<'n>(name: &'n str) -> (found: Option<Lookup<'n>>)
        ensures
            found is Some <==> lookup_for(name@) is Some,
            found is Some ==> found->Some_0@ == lookup_for(name@)->Some_0,
    {
        if name.is_empty() {
            Some(Lookup::Default)
        } else if contains_nul(name) {
            None
        } else {
            Some(Lookup::Named(name))
        }
    }

    /// Gets the output driver that the native library found. `id` is the
    /// answer of the native lookup.
    ///
    /// Returns `None` if the driver is not available.
    pub fn get_driver<'a>(&'a self, id: i32) -> (driver: Option<Driver<'a>>)
        ensures
            id == NO_DRIVER ==> driver is None,
            id != NO_DRIVER ==> driver is Some && driver->Some_0.ident() == id,
    {
        if id == NO_DRIVER {
            None
        } else {
            Some(Driver { id, marker: PhantomData })
        }
    }

    /// The call that opens a live audio output device on a driver.
    pub fn open_device<'m, T: Sample>(
        &self,
        driver: &Driver,
        format: &SampleFormat<'m, T>,
    ) -> (request: OpenRequest<'m>)
        ensures
            request@ == driver.live_request(format),
    {
        driver.open_live(format)
    }

    /// The call that opens a file for audio output on a driver.
    ///
    /// `file` specifies the file to write to, and `overwrite` will
    /// automatically replace any existing file if `true`.
    pub fn open_file<'m, T: Sample>(
        &self,
        driver: &Driver,
        format: &SampleFormat<'m, T>,
        file: Option<&'m str>,
        overwrite: bool,
    ) -> (request: AoResult<OpenRequest<'m>>)
        ensures
            file_is_bad(file) ==> request == Err::<OpenRequest<'m>, AoError>(AoError::OpenFile),
            !file_is_bad(file) ==> request is Ok && request->Ok_0@ == driver.file_request(
                format,
                file->Some_0@,
                overwrite,
            ),
    {
        driver.open_file(format, file, overwrite)
    }

    /// Registers a device, given what the native call that opened it
    /// returned and the error code read right after it.
    pub fn create_device<'a, S: Sample>(&'a self, handle: usize, errno: i32) -> (opened: AoResult<
        Device<'a, S>,
    >)
        ensures
            handle == 0 ==> opened == Err::<Device<'a, S>, AoError>(
                AoError::of_code(errno as int),
            ),
            handle != 0 ==> opened is Ok && opened->Ok_0.handle() == handle,
    {
        Device::init(handle, errno)
    }
}

/// The output type of a driver.
#[derive(Clone, Copy, PartialEq, Eq, Structural, Debug)]
pub enum DriverType {
    /// Live playback, such as a local sound card.
    Live,
    /// File output, such as to a `wav` file on disk.
    File,
}

impl DriverType {
    /// Whether the native library has a flavor of this number.
    pub open spec fn is_flavor(n: int) -> bool {
        n == AO_TYPE_LIVE || n == AO_TYPE_FILE
    }

    /// The output type of a native flavor.
    pub open spec fn of_flavor(n: int) -> DriverType {
        if n == AO_TYPE_FILE {
            DriverType::File
        } else {
            DriverType::Live
        }
    }

    /// Reads the flavor that the native library gives a driver. Another
    /// number than the two flavors is an error of the native library.
    pub fn from_c_int(n: i32) -> (flavor: DriverType)
        requires
            DriverType::is_flavor(n as int),
        ensures
            flavor == DriverType::of_flavor(n as int),
    {
        if n == AO_TYPE_FILE {
            DriverType::File
        } else if n == AO_TYPE_LIVE {
            DriverType::Live
        } else {
            unreached()
        }
    }
}

/// What the native library tells of a driver, in plain values.
#[derive(Clone, Copy, Debug)]
pub struct NativeInfo<'a> {
    /// Flavor of the driver.
    pub flavor: i32,
    /// Full name of the driver.
    pub name: &'a str,
    /// Short name of the driver.
    pub short_name: &'a str,
    /// A driver-specified comment, where the driver has one.
    pub comment: Option<&'a str>,
}

/// Properties and metadata for a driver.
#[derive(Clone, Copy, Debug)]
pub struct DriverInfo<'a> {
    /// Type of the driver (live or file).
    pub flavor: DriverType,
    /// Full name of driver.
    ///
    /// May contain any single line of text.
    pub name: &'a str,
    /// Short name of driver.
    ///
    /// This is the driver name used to refer to the driver when performing
    /// lookups. It contains only alphanumeric characters, and no whitespace.
    pub short_name: &'a str,
    /// A driver-specified comment.
    pub comment: Option<&'a str>,
}

/// Whether a path cannot be handed to the native library: it cannot be
/// written as text, or its text holds a zero byte.
pub open spec fn file_is_bad(file: Option<&str>) -> bool {
    match file {
        None => true,
        Some(path) => has_nul(path@),
    }
}

/// An output driver.
///
/// This is an opaque handle. Its identifier is one that the native library
/// gave out.
pub struct Driver<'a> {
    id: i32,
    marker: PhantomData<&'a ()>,
}

impl<'a> Driver<'a> {
    /// The identifier of the driver in the native library.
    pub closed spec fn ident(&self) -> i32 {
        self.id
    }

    #[verifier::type_invariant]
    spec fn is_known(&self) -> bool {
        self.id != NO_DRIVER
    }

    /// The call that opens a live device of a format on this driver.
    pub open spec fn live_request<T: Sample>(&self, format: &SampleFormat<T>) -> OpenRequestView {
        OpenRequestView { driver: self.ident() as int, format: format.native_view(), file: None }
    }

    /// The call that opens a file output device of a format on this driver.
    pub open spec fn file_request<T: Sample>(
        &self,
        format: &SampleFormat<T>,
        path: Seq<char>,
        overwrite: bool,
    ) -> OpenRequestView {
        OpenRequestView {
            driver: self.ident() as int,
            format: format.native_view(),
            file: Some((path, overwrite)),
        }
    }

    /// The identifier of the driver in the native library.
    pub fn id(&self) -> (id: i32)
        ensures
            id == self.ident(),
            id != NO_DRIVER,
    {
        proof {
            use_type_invariant(self);
        }
        self.id
    }

    /// Get the `DriverInfo` corresponding to this `Driver`. `native` is
    /// what the native library tells of the driver, `None` where it knows
    /// none of this identifier.
    pub fn get_info(&self, native: Option<NativeInfo<'a>>) -> (info: Option<DriverInfo<'a>>)
        requires
            native is Some ==> DriverType::is_flavor(native->Some_0.flavor as int),
        ensures
            native is None ==> info is None,
            native is Some ==> info is Some && info->Some_0.flavor == DriverType::of_flavor(
                native->Some_0.flavor as int,
            ) && info->Some_0.name == native->Some_0.name && info->Some_0.short_name
                == native->Some_0.short_name && info->Some_0.comment == native->Some_0.comment,
    {
        match native {
            None => None,
            Some(n) => Some(
                DriverInfo {
                    flavor: DriverType::from_c_int(n.flavor),
                    name: n.name,
                    short_name: n.short_name,
                    comment: n.comment,
                },
            ),
        }
    }

    /// The call that opens a live output device.
    ///
    /// The native call fails with `NotLive` if the driver is not a live
    /// output driver: open the device as a file output instead.
    pub fn open_live<'m, T: Sample>(&self, format: &SampleFormat<'m, T>) -> (request: OpenRequest<
        'm,
    >)
        ensures
            request@ == self.live_request(format),
    {
        OpenRequest { driver: self.id, format: format.native(), file: None }
    }

    /// The call that opens a file output device.
    ///
    /// `file` specifies the file to write to, `None` where its path cannot
    /// be written as text, and `overwrite` will automatically replace any
    /// existing file if `true`. A path that cannot be handed to the native
    /// library gives `OpenFile`. The native call fails with `NotFile` if
    /// the driver is not a file output driver.
    pub fn open_file<'m, T: Sample>(
        &self,
        format: &SampleFormat<'m, T>,
        file: Option<&'m str>,
        overwrite: bool,
    ) -> (request: AoResult<OpenRequest<'m>>)
        ensures
            file_is_bad(file) ==> request == Err::<OpenRequest<'m>, AoError>(AoError::OpenFile),
            !file_is_bad(file) ==> request is Ok && request->Ok_0@ == self.file_request(
                format,
                file->Some_0@,
                overwrite,
            ),
    {
        let path = match file {
            Some(s) => if contains_nul(s) {
                return Err(AoError::OpenFile);
            } else {
                s
            },
            None => return Err(AoError::OpenFile),
        };
        Ok(
            OpenRequest {
                driver: self.id,
                format: format.native(),
                file: Some(FileTarget { path, overwrite }),
            },
        )
    }
}

} // verus!
