//! The error codes that the player library returns, and their interpretation.
use vstd::prelude::*;

verus! {

/// Result of a player call, with the player's error as its error type.
pub type Result<T, E = Error> = core::result::Result<T, E>;

/// The code of the last specific error; every code below it is read as `Generic`.
pub const MPV_ERROR_NOT_IMPLEMENTED: i32 = -19;

/// The code for "memory allocation failed".
pub const MPV_ERROR_NOMEM: i32 = -2;

/// The code for the unspecified, catch-all error.
pub const MPV_ERROR_GENERIC: i32 = -20;

/// The errors that the player can return.
#[derive(Clone, Copy, Debug, PartialEq, Eq, Structural)]
pub enum Error {
    /// The event ring buffer is full: the client is choked and cannot receive events.
    EventQueueFull,
    /// Memory allocation failed.
    NoMem,
    /// The player core was not configured and initialized yet.
    Uninitialized,
    /// A parameter was set to an invalid or unsupported value.
    InvalidParameter,
    /// An option that does not exist was set.
    OptionNotFound,
    /// An option was set using an unsupported format.
    OptionFormat,
    /// Setting the option failed, typically because its value could not be parsed.
    OptionError,
    /// The accessed property does not exist.
    PropertyNotFound,
    /// A property was set or read using an unsupported format.
    PropertyFormat,
    /// The property exists but is not available.
    PropertyUnavailable,
    /// Error setting or getting a property.
    PropertyError,
    /// General error when running a command.
    Command,
    /// Generic error on loading.
    LoadingFailed,
    /// Initializing the audio output failed.
    AoInitFailed,
    /// Initializing the video output failed.
    VoInitFailed,
    /// There was no audio or video data to play.
    NothingToPlay,
    /// The file format could not be determined, or the file was too broken to open.
    UnknownFormat,
    /// Certain system requirements are not fulfilled.
    Unsupported,
    /// The called function is a stub only.
    NotImplemented,
    /// Unspecified error.
    Generic,
}

/// The negative code that the player uses for each error.
pub open spec fn spec_error_code(e: Error) -> int {
    match e {
        Error::EventQueueFull => -1,
        Error::NoMem => -2,
        Error::Uninitialized => -3,
        Error::InvalidParameter => -4,
        Error::OptionNotFound => -5,
        Error::OptionFormat => -6,
        Error::OptionError => -7,
        Error::PropertyNotFound => -8,
        Error::PropertyFormat => -9,
        Error::PropertyUnavailable => -10,
        Error::PropertyError => -11,
        Error::Command => -12,
        Error::LoadingFailed => -13,
        Error::AoInitFailed => -14,
        Error::VoInitFailed => -15,
        Error::NothingToPlay => -16,
        Error::UnknownFormat => -17,
        Error::Unsupported => -18,
        Error::NotImplemented => -19,
        Error::Generic => -20,
    }
}

/// The error that a negative code stands for; codes below the known range are `Generic`.
pub open spec fn spec_error_of_code(code: int) -> Error {
    if code == -1 {
        Error::EventQueueFull
    } else if code == -2 {
        Error::NoMem
    } else if code == -3 {
        Error::Uninitialized
    } else if code == -4 {
        Error::InvalidParameter
    } else if code == -5 {
        Error::OptionNotFound
    } else if code == -6 {
        Error::OptionFormat
    } else if code == -7 {
        Error::OptionError
    } else if code == -8 {
        Error::PropertyNotFound
    } else if code == -9 {
        Error::PropertyFormat
    } else if code == -10 {
        Error::PropertyUnavailable
    } else if code == -11 {
        Error::PropertyError
    } else if code == -12 {
        Error::Command
    } else if code == -13 {
        Error::LoadingFailed
    } else if code == -14 {
        Error::AoInitFailed
    } else if code == -15 {
        Error::VoInitFailed
    } else if code == -16 {
        Error::NothingToPlay
    } else if code == -17 {
        Error::UnknownFormat
    } else if code == -18 {
        Error::Unsupported
    } else if code == -19 {
        Error::NotImplemented
    } else {
        Error::Generic
    }
}

/// How a status code that the player returns is read: a non-negative code is a success
/// carrying that value; a negative code is the error it stands for.
pub open spec fn spec_mpv_result(code: int) -> Result<u32, Error> {
    if code >= 0 {
        Ok(code as u32)
    } else {
        Err(spec_error_of_code(code))
    }
}

impl Error {
    /// The player's numeric code for this error.
    pub fn code(self) -> (r: i32)
        ensures
            r == spec_error_code(self),
    {
        match self {
            Error::EventQueueFull => -1,
            Error::NoMem => -2,
            Error::Uninitialized => -3,
            Error::InvalidParameter => -4,
            Error::OptionNotFound => -5,
            Error::OptionFormat => -6,
            Error::OptionError => -7,
            Error::PropertyNotFound => -8,
            Error::PropertyFormat => -9,
            Error::PropertyUnavailable => -10,
            Error::PropertyError => -11,
            Error::Command => -12,
            Error::LoadingFailed => -13,
            Error::AoInitFailed => -14,
            Error::VoInitFailed => -15,
            Error::NothingToPlay => -16,
            Error::UnknownFormat => -17,
            Error::Unsupported => -18,
            Error::NotImplemented => -19,
            Error::Generic => -20,
        }
    }

    /// The error that a negative code stands for.
    fn of_code(code: i32) -> (r: Error)
        requires
            MPV_ERROR_NOT_IMPLEMENTED <= code < 0,
        ensures
            r == spec_error_of_code(code as int),
    {
        if code == -1 {
            Error::EventQueueFull
        } else if code == -2 {
            Error::NoMem
        } else if code == -3 {
            Error::Uninitialized
        } else if code == -4 {
            Error::InvalidParameter
        } else if code == -5 {
            Error::OptionNotFound
        } else if code == -6 {
            Error::OptionFormat
        } else if code == -7 {
            Error::OptionError
        } else if code == -8 {
            Error::PropertyNotFound
        } else if code == -9 {
            Error::PropertyFormat
        } else if code == -10 {
            Error::PropertyUnavailable
        } else if code == -11 {
            Error::PropertyError
        } else if code == -12 {
            Error::Command
        } else if code == -13 {
            Error::LoadingFailed
        } else if code == -14 {
            Error::AoInitFailed
        } else if code == -15 {
            Error::VoInitFailed
        } else if code == -16 {
            Error::NothingToPlay
        } else if code == -17 {
            Error::UnknownFormat
        } else if code == -18 {
            Error::Unsupported
        } else {
            Error::NotImplemented
        }
    }
}

/// Reads a status code that the player returns.
pub fn mpv_result(code: i32) -> (r: Result<u32, Error>)
    ensures
        r == spec_mpv_result(code as int),
        r is Ok <==> code >= 0,
{
    if code >= 0 {
        Ok(code as u32)
    } else if code >= MPV_ERROR_NOT_IMPLEMENTED {
        Err(Error::of_code(code))
    } else {
        Err(Error::Generic)
    }
}

/// Reading a status code as a result.
pub trait ToResult {
    /// Reads the status code.
    fn to_result(self) -> Result<u32, Error>;
}

impl ToResult for i32 {
    fn to_result(self) -> (r: Result<u32, Error>)
        ensures
            r == spec_mpv_result(self as int),
    {
        mpv_result(self)
    }
}

/// Every error's code is read back as that same error.
pub proof fn law_error_code_roundtrip(e: Error)
    ensures
        spec_error_code(e) < 0,
        spec_mpv_result(spec_error_code(e)) == Err::<u32, Error>(e),
{
}

/// Every code in the known range names an error whose code is that code again;
/// every code below the range is read as `Generic`.
pub proof fn law_code_error_roundtrip(code: int)
    requires
        code < 0,
    ensures
        MPV_ERROR_GENERIC <= code ==> spec_error_code(spec_error_of_code(code)) == code,
        code < MPV_ERROR_GENERIC ==> spec_error_of_code(code) == Error::Generic,
{
}

} // verus!
