use hypatia::error::{mpv_result, Error, ToResult, MPV_ERROR_NOMEM};

#[test]
fn to_result() {
    assert_eq!(MPV_ERROR_NOMEM.to_result(), Err(Error::NoMem));
    assert_eq!(0.to_result(), Ok(0),);
    assert_eq!(10.to_result(), Ok(10),);
    assert_eq!(0.to_result(), Ok(0),);
    assert_eq!((-20).to_result(), Err(Error::Generic));
    assert_eq!((-21).to_result(), Err(Error::Generic));
}

#[test]
fn every_error_code_reads_back() {
    let all = [
        Error::EventQueueFull,
        Error::NoMem,
        Error::Uninitialized,
        Error::InvalidParameter,
        Error::OptionNotFound,
        Error::OptionFormat,
        Error::OptionError,
        Error::PropertyNotFound,
        Error::PropertyFormat,
        Error::PropertyUnavailable,
        Error::PropertyError,
        Error::Command,
        Error::LoadingFailed,
        Error::AoInitFailed,
        Error::VoInitFailed,
        Error::NothingToPlay,
        Error::UnknownFormat,
        Error::Unsupported,
        Error::NotImplemented,
        Error::Generic,
    ];
    for (i, e) in all.iter().enumerate() {
        assert_eq!(e.code(), -(i as i32) - 1);
        assert_eq!(mpv_result(e.code()), Err(*e));
    }
    assert_eq!(mpv_result(-9), Err(Error::PropertyFormat));
    assert_eq!(mpv_result(i32::MIN), Err(Error::Generic));
    assert_eq!(mpv_result(i32::MAX), Ok(i32::MAX as u32));
}
