use vstd::prelude::*;

verus! {

/// Native code: no driver with the requested id or name.
pub const AO_ENODRIVER: i32 = 1;

/// Native code: the driver writes to a file, not to a live device.
pub const AO_ENOTFILE: i32 = 2;

/// Native code: the driver is not a live output driver.
pub const AO_ENOTLIVE: i32 = 3;

/// Native code: an option had an invalid value.
pub const AO_EBADOPTION: i32 = 4;

/// Native code: the device could not be opened.
pub const AO_EOPENDEVICE: i32 = 5;

/// Native code: the output file could not be opened.
pub const AO_EOPENFILE: i32 = 6;

/// Native code: the output file exists already.
pub const AO_EFILEEXISTS: i32 = 7;

/// Native code: the sample format is not supported.
pub const AO_EBADFORMAT: i32 = 8;

/// Native code: any other failure.
pub const AO_EFAIL: i32 = 100;

/// What went wrong in a native call, as the native layer's error code tells it.
#[derive(Debug, Clone, Copy, PartialEq, Eq, Structural)]
pub enum Error {
    NoDriver,
    NotFile,
    NotLive,
    BadOption,
    OpenDevice,
    OpenFile,
    FileExists,
    BadFormat,
    Fail,
    /// A code that the native layer does not document.
    Unknown(i32),
}

impl Error {
    /// The error that a native error code stands for.
    pub open spec fn spec_from_code(code: i32) -> Error {
        if code == AO_ENODRIVER {
            Error::NoDriver
        } else if code == AO_ENOTFILE {
            Error::NotFile
        } else if code == AO_ENOTLIVE {
            Error::NotLive
        } else if code == AO_EBADOPTION {
            Error::BadOption
        } else if code == AO_EOPENDEVICE {
            Error::OpenDevice
        } else if code == AO_EOPENFILE {
            Error::OpenFile
        } else if code == AO_EFILEEXISTS {
            Error::FileExists
        } else if code == AO_EBADFORMAT {
            Error::BadFormat
        } else if code == AO_EFAIL {
            Error::Fail
        } else {
            Error::Unknown(code)
        }
    }

    /// The native code of a documented error; `Unknown` keeps the code it came with.
    pub open spec fn spec_code(self) -> i32 {
        match self {
            Error::NoDriver => AO_ENODRIVER,
            Error::NotFile => AO_ENOTFILE,
            Error::NotLive => AO_ENOTLIVE,
            Error::BadOption => AO_EBADOPTION,
            Error::OpenDevice => AO_EOPENDEVICE,
            Error::OpenFile => AO_EOPENFILE,
            Error::FileExists => AO_EFILEEXISTS,
            Error::BadFormat => AO_EBADFORMAT,
            Error::Fail => AO_EFAIL,
            Error::Unknown(c) => c,
        }
    }

    /// Builds the error from the code that the native layer left after a failed call.
    pub fn from_code(code: i32) -> (r: Error)
        ensures
            r == Self::spec_from_code(code),
    {
        if code == AO_ENODRIVER {
            Error::NoDriver
        } else if code == AO_ENOTFILE {
            Error::NotFile
        } else if code == AO_ENOTLIVE {
            Error::NotLive
        } else if code == AO_EBADOPTION {
            Error::BadOption
        } else if code == AO_EOPENDEVICE {
            Error::OpenDevice
        } else if code == AO_EOPENFILE {
            Error::OpenFile
        } else if code == AO_EFILEEXISTS {
            Error::FileExists
        } else if code == AO_EBADFORMAT {
            Error::BadFormat
        } else if code == AO_EFAIL {
            Error::Fail
        } else {
            Error::Unknown(code)
        }
    }

    /// The native code of this error.
    pub fn code(&self) -> (r: i32)
        ensures
            r == self.spec_code(),
    {
        match self {
            Error::NoDriver => AO_ENODRIVER,
            Error::NotFile => AO_ENOTFILE,
            Error::NotLive => AO_ENOTLIVE,
            Error::BadOption => AO_EBADOPTION,
            Error::OpenDevice => AO_EOPENDEVICE,
            Error::OpenFile => AO_EOPENFILE,
            Error::FileExists => AO_EFILEEXISTS,
            Error::BadFormat => AO_EBADFORMAT,
            Error::Fail => AO_EFAIL,
            Error::Unknown(c) => *c,
        }
    }
}

/// Reading an error back from its code gives the code that built it.
pub proof fn lemma_code_round_trip(code: i32)
    ensures
        Error::spec_from_code(code).spec_code() == code,
{
}

} // verus!
