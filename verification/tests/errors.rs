use ao::error::{
    AO_EBADFORMAT, AO_EBADOPTION, AO_EFAIL, AO_EFILEEXISTS, AO_ENODRIVER, AO_ENOTFILE,
    AO_ENOTLIVE, AO_EOPENDEVICE, AO_EOPENFILE,
};
use ao::{AoError, AoResult};

#[test]
fn each_errno_gives_its_error() {
    assert_eq!(AoError::from_errno(1), AoError::NoDriver);
    assert_eq!(AoError::from_errno(2), AoError::NotFile);
    assert_eq!(AoError::from_errno(3), AoError::NotLive);
    assert_eq!(AoError::from_errno(4), AoError::BadOption);
    assert_eq!(AoError::from_errno(5), AoError::OpenDevice);
    assert_eq!(AoError::from_errno(6), AoError::OpenFile);
    assert_eq!(AoError::from_errno(7), AoError::FileExists);
    assert_eq!(AoError::from_errno(8), AoError::BadFormat);
    assert_eq!(AoError::from_errno(100), AoError::Unknown);
}

#[test]
fn unrecognized_errno_is_unknown() {
    assert_eq!(AoError::from_errno(0), AoError::Unknown);
    assert_eq!(AoError::from_errno(9), AoError::Unknown);
    assert_eq!(AoError::from_errno(99), AoError::Unknown);
    assert_eq!(AoError::from_errno(101), AoError::Unknown);
    assert_eq!(AoError::from_errno(-1), AoError::Unknown);
    assert_eq!(AoError::from_errno(i32::MAX), AoError::Unknown);
    assert_eq!(AoError::from_errno(i32::MIN), AoError::Unknown);
}

#[test]
fn error_codes_are_the_native_ones() {
    assert_eq!(AO_ENODRIVER, 1);
    assert_eq!(AO_ENOTFILE, 2);
    assert_eq!(AO_ENOTLIVE, 3);
    assert_eq!(AO_EBADOPTION, 4);
    assert_eq!(AO_EOPENDEVICE, 5);
    assert_eq!(AO_EOPENFILE, 6);
    assert_eq!(AO_EFILEEXISTS, 7);
    assert_eq!(AO_EBADFORMAT, 8);
    assert_eq!(AO_EFAIL, 100);
    assert_eq!(AoError::NoDriver.code(), 1);
    assert_eq!(AoError::BadFormat.code(), 8);
    assert_eq!(AoError::Unknown.code(), 100);
}

#[test]
fn every_error_comes_from_its_own_code() {
    let all = [
        AoError::NoDriver,
        AoError::NotFile,
        AoError::NotLive,
        AoError::BadOption,
        AoError::OpenDevice,
        AoError::OpenFile,
        AoError::FileExists,
        AoError::BadFormat,
        AoError::Unknown,
    ];
    for e in all {
        assert_eq!(AoError::from_errno(e.code()), e);
    }
}

#[test]
fn descriptions_read_as_documented() {
    assert_eq!(AoError::NoDriver.description(), "No such driver");
    assert_eq!(AoError::NotFile.description(), "Driver is not a file output device");
    assert_eq!(AoError::NotLive.description(), "Driver is not a live output device");
    assert_eq!(AoError::BadOption.description(), "A valid option key has an invalid value");
    assert_eq!(AoError::OpenDevice.description(), "Cannot open the output device");
    assert_eq!(AoError::OpenFile.description(), "Cannot open the output file");
    assert_eq!(AoError::FileExists.description(), "File for output already exists");
    assert_eq!(AoError::BadFormat.description(), "Requested stream format is not supported");
    assert_eq!(AoError::Unknown.description(), "Unknown error");
}

#[test]
fn errors_compare_and_copy() {
    let e = AoError::OpenFile;
    let f = e;
    assert_eq!(e, f);
    assert_ne!(e, AoError::OpenDevice);
    let r: AoResult<u8> = Err(e);
    assert_eq!(r, Err(AoError::OpenFile));
    assert_eq!(format!("{:?}", e), "OpenFile");
}
