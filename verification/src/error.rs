//! Error mapping for native `libgphoto2` status codes.
//!
//! Every fallible native call reports a `c_int` status.  A negative status is
//! mapped into a closed taxonomy of error kinds; codes that the taxonomy does
//! not recognize deliberately fall back to [`ErrorKind::Other`].

use vstd::prelude::*;

verus! {

/// Status code constants of the native library (`gphoto2-port-result.h` and
/// `gphoto2-result.h`).
pub const GP_OK: i32 = 0;
pub const GP_ERROR: i32 = -1;
pub const GP_ERROR_BAD_PARAMETERS: i32 = -2;
pub const GP_ERROR_NO_MEMORY: i32 = -3;
pub const GP_ERROR_LIBRARY: i32 = -4;
pub const GP_ERROR_UNKNOWN_PORT: i32 = -5;
pub const GP_ERROR_NOT_SUPPORTED: i32 = -6;
pub const GP_ERROR_IO: i32 = -7;
pub const GP_ERROR_TIMEOUT: i32 = -10;
pub const GP_ERROR_CORRUPTED_DATA: i32 = -102;
pub const GP_ERROR_FILE_EXISTS: i32 = -103;
pub const GP_ERROR_MODEL_NOT_FOUND: i32 = -105;
pub const GP_ERROR_DIRECTORY_NOT_FOUND: i32 = -107;
pub const GP_ERROR_FILE_NOT_FOUND: i32 = -108;
pub const GP_ERROR_DIRECTORY_EXISTS: i32 = -109;
pub const GP_ERROR_CAMERA_BUSY: i32 = -110;
pub const GP_ERROR_PATH_NOT_ABSOLUTE: i32 = -111;
pub const GP_ERROR_CANCEL: i32 = -112;
pub const GP_ERROR_CAMERA_ERROR: i32 = -113;
pub const GP_ERROR_OS_FAILURE: i32 = -114;
pub const GP_ERROR_NO_SPACE: i32 = -115;

/// Types of errors reported by gphoto2.
#[derive(Debug, PartialEq, Eq, Clone, Copy, Structural)]
pub enum ErrorKind {
    /// Corrupted data received.
    CorruptedData,
    /// Specified camera model was not found.
    ModelNotFound,
    /// File already exists.
    FileExists,
    /// Directory already exists.
    DirectoryExists,
    /// Directory was not found.
    DirectoryNotFound,
    /// File was not found.
    FileNotFound,
    /// Camera is busy.
    CameraBusy,
    /// Path is not absolute.
    PathNotAbsolute,
    /// Operation was canceled.
    Cancel,
    /// An error was reported by the camera.
    CameraError,
    /// An error was reported by the operating system.
    OSFailure,
    /// Not enough space when uploading a file.
    NoSpace,
    /// An unspecified error occurred.
    Other,
}

/// True of exactly the status codes that the taxonomy classifies into a kind
/// other than [`ErrorKind::Other`].
pub open spec fn recognized_code(code: i32) -> bool {
    ||| code == GP_ERROR_CORRUPTED_DATA
    ||| code == GP_ERROR_FILE_EXISTS
    ||| code == GP_ERROR_MODEL_NOT_FOUND
    ||| code == GP_ERROR_DIRECTORY_NOT_FOUND
    ||| code == GP_ERROR_FILE_NOT_FOUND
    ||| code == GP_ERROR_DIRECTORY_EXISTS
    ||| code == GP_ERROR_CAMERA_BUSY
    ||| code == GP_ERROR_PATH_NOT_ABSOLUTE
    ||| code == GP_ERROR_CANCEL
    ||| code == GP_ERROR_CAMERA_ERROR
    ||| code == GP_ERROR_OS_FAILURE
    ||| code == GP_ERROR_NO_SPACE
}

/// The classification of a native status code into an error kind.
pub open spec fn classify(code: i32) -> ErrorKind {
    if code == GP_ERROR_CORRUPTED_DATA {
        ErrorKind::CorruptedData
    } else if code == GP_ERROR_FILE_EXISTS {
        ErrorKind::FileExists
    } else if code == GP_ERROR_MODEL_NOT_FOUND {
        ErrorKind::ModelNotFound
    } else if code == GP_ERROR_DIRECTORY_NOT_FOUND {
        ErrorKind::DirectoryNotFound
    } else if code == GP_ERROR_FILE_NOT_FOUND {
        ErrorKind::FileNotFound
    } else if code == GP_ERROR_DIRECTORY_EXISTS {
        ErrorKind::DirectoryExists
    } else if code == GP_ERROR_CAMERA_BUSY {
        ErrorKind::CameraBusy
    } else if code == GP_ERROR_PATH_NOT_ABSOLUTE {
        ErrorKind::PathNotAbsolute
    } else if code == GP_ERROR_CANCEL {
        ErrorKind::Cancel
    } else if code == GP_ERROR_CAMERA_ERROR {
        ErrorKind::CameraError
    } else if code == GP_ERROR_OS_FAILURE {
        ErrorKind::OSFailure
    } else if code == GP_ERROR_NO_SPACE {
        ErrorKind::NoSpace
    } else {
        ErrorKind::Other
    }
}

/// An error type for working with gphoto2.
///
/// It carries the raw native status code; [`Error::kind`] classifies it.
#[derive(Debug)]
pub struct Error {
    err: i32,
}

impl Error {
    /// The raw native status code this error carries.
    pub closed spec fn spec_code(&self) -> i32 {
        self.err
    }

    /// Returns the raw native status code.
    pub fn code(&self) -> (r: i32)
        ensures
            r == self.spec_code(),
    {
        self.err
    }

    /// Returns the kind of error.
    pub fn kind(&self) -> (r: ErrorKind)
        ensures
            r == classify(self.spec_code()),
    {
        let code = self.err;
        if code == GP_ERROR_CORRUPTED_DATA {
            ErrorKind::CorruptedData
        } else if code == GP_ERROR_FILE_EXISTS {
            ErrorKind::FileExists
        } else if code == GP_ERROR_MODEL_NOT_FOUND {
            ErrorKind::ModelNotFound
        } else if code == GP_ERROR_DIRECTORY_NOT_FOUND {
            ErrorKind::DirectoryNotFound
        } else if code == GP_ERROR_FILE_NOT_FOUND {
            ErrorKind::FileNotFound
        } else if code == GP_ERROR_DIRECTORY_EXISTS {
            ErrorKind::DirectoryExists
        } else if code == GP_ERROR_CAMERA_BUSY {
            ErrorKind::CameraBusy
        } else if code == GP_ERROR_PATH_NOT_ABSOLUTE {
            ErrorKind::PathNotAbsolute
        } else if code == GP_ERROR_CANCEL {
            ErrorKind::Cancel
        } else if code == GP_ERROR_CAMERA_ERROR {
            ErrorKind::CameraError
        } else if code == GP_ERROR_OS_FAILURE {
            ErrorKind::OSFailure
        } else if code == GP_ERROR_NO_SPACE {
            ErrorKind::NoSpace
        } else {
            ErrorKind::Other
        }
    }
}

/// Wraps a raw native status code in an [`Error`].
pub fn from_libgphoto2(err: i32) -> (r: Error)
    ensures
        r.spec_code() == err,
{
    Error { err }
}

/// Law: a status code classifies as [`ErrorKind::Other`] exactly when it is
/// not one of the recognized codes.  Every recognized code gets its own kind;
/// unrecognized codes are a deliberate catch-all.
pub proof fn lemma_classify_other_iff_unrecognized(code: i32)
    ensures
        classify(code) == ErrorKind::Other <==> !recognized_code(code),
{
}

} // verus!
