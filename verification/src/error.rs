//! Errors reported by the native audio processing module, and how its status codes map to them.
use vstd::prelude::*;

verus! {

/// Represents an error inside webrtc::AudioProcessing, as listed by the WebRTC
/// `webrtc::AudioProcessing::Error` enumeration.
#[derive(Clone, Copy, Debug, PartialEq, Eq, Structural)]
pub enum Error {
    /// An unspecified error from the underlying WebRTC library. `kUnspecifiedError`
    Unspecified,
    /// The initialization of the audio processor failed. `kCreationFailedError`
    InitializationFailed,
    /// An unsupported component was used. `kUnsupportedComponentError`
    UnsupportedComponent,
    /// An unsupported function was called. `kUnsupportedFunctionError`
    UnsupportedFunction,
    /// A null pointer was passed to the underlying WebRTC library. `kNullPointerError`
    NullPointer,
    /// An invalid parameter was passed. `kBadParameterError`
    BadParameter,
    /// An invalid sample rate was used. `kBadSampleRateError`
    BadSampleRate,
    /// An invalid frame length was used. `kBadDataLengthError`
    BadDataLength,
    /// An invalid number of channels was used. `kBadNumberChannelsError`
    BadNumberChannels,
    /// A file access error occurred. `kFileError`
    File,
    /// A stream parameter was not set. `kStreamParameterNotSetError`
    StreamParameterNotSet,
    /// A feature was used without being enabled. `kNotEnabledError`
    NotEnabled,
}

/// The error that a native status code reports: codes -1 through -12 name the errors in the
/// order of the WebRTC enumeration; any other failure code is unspecified.
pub open spec fn error_for_code(code: i32) -> Error {
    if code == -2 {
        Error::InitializationFailed
    } else if code == -3 {
        Error::UnsupportedComponent
    } else if code == -4 {
        Error::UnsupportedFunction
    } else if code == -5 {
        Error::NullPointer
    } else if code == -6 {
        Error::BadParameter
    } else if code == -7 {
        Error::BadSampleRate
    } else if code == -8 {
        Error::BadDataLength
    } else if code == -9 {
        Error::BadNumberChannels
    } else if code == -10 {
        Error::File
    } else if code == -11 {
        Error::StreamParameterNotSet
    } else if code == -12 {
        Error::NotEnabled
    } else {
        Error::Unspecified
    }
}

/// The outcome of a native call that reported `error_code`: success exactly on code 0.
pub open spec fn outcome<T>(on_success: T, error_code: i32) -> Result<T, Error> {
    if error_code == 0 {
        Ok(on_success)
    } else {
        Err(error_for_code(error_code))
    }
}

/// The human-readable description of an error.
pub open spec fn error_description(e: Error) -> Seq<char> {
    match e {
        Error::Unspecified => "Unspecified error"@,
        Error::InitializationFailed => "Initialization failed"@,
        Error::UnsupportedComponent => "Unsupported component"@,
        Error::UnsupportedFunction => "Unsupported function"@,
        Error::NullPointer => "Null pointer"@,
        Error::BadParameter => "Bad parameter"@,
        Error::BadSampleRate => "Bad sample rate"@,
        Error::BadDataLength => "Invalid data length"@,
        Error::BadNumberChannels => "Invalid number of channels"@,
        Error::File => "File error"@,
        Error::StreamParameterNotSet => "Stream parameter not set"@,
        Error::NotEnabled => "Feature not enabled"@,
    }
}

impl Error {
    /// The error for a native failure code. Code 0 reports success and names no error.
    pub fn from(code: i32) -> (r: Error)
        requires
            code != 0,
        ensures
            r == error_for_code(code),
    {
        match code {
            -1 => Error::Unspecified,
            -2 => Error::InitializationFailed,
            -3 => Error::UnsupportedComponent,
            -4 => Error::UnsupportedFunction,
            -5 => Error::NullPointer,
            -6 => Error::BadParameter,
            -7 => Error::BadSampleRate,
            -8 => Error::BadDataLength,
            -9 => Error::BadNumberChannels,
            -10 => Error::File,
            -11 => Error::StreamParameterNotSet,
            -12 => Error::NotEnabled,
            _ => Error::Unspecified,
        }
    }

    /// A short description of the error.
    pub fn description(&self) -> (r: &'static str)
        ensures
            r@ == error_description(*self),
    {
        match self {
            Error::Unspecified => "Unspecified error",
            Error::InitializationFailed => "Initialization failed",
            Error::UnsupportedComponent => "Unsupported component",
            Error::UnsupportedFunction => "Unsupported function",
            Error::NullPointer => "Null pointer",
            Error::BadParameter => "Bad parameter",
            Error::BadSampleRate => "Bad sample rate",
            Error::BadDataLength => "Invalid data length",
            Error::BadNumberChannels => "Invalid number of channels",
            Error::File => "File error",
            Error::StreamParameterNotSet => "Stream parameter not set",
            Error::NotEnabled => "Feature not enabled",
        }
    }

    /// The error's message: `WebRTC AudioProcessing error: ` followed by its description.
    pub fn to_string(&self) -> (r: String)
        ensures
            r@ == "WebRTC AudioProcessing error: "@ + error_description(*self),
    {
        let mut message = String::from_str("WebRTC AudioProcessing error: ");
        message.append(self.description());
        message
    }
}

/// `Ok(on_success)` when the native call reported success (code 0), else the error that the
/// code names.
pub fn result_from_code<T>(on_success: T, error_code: i32) -> (r: Result<T, Error>)
    ensures
        r == outcome(on_success, error_code),
{
    if error_code == 0 {
        Ok(on_success)
    } else {
        Err(Error::from(error_code))
    }
}

/// Each native failure code names the error of its place in the WebRTC enumeration, every
/// other failure code is unspecified, and only code 0 is a success.
pub proof fn lemma_status_codes(code: i32)
    ensures
        outcome((), 0) == Ok::<(), Error>(()),
        code != 0 ==> outcome((), code) == Err::<(), Error>(error_for_code(code)),
        error_for_code(-1i32) == Error::Unspecified,
        error_for_code(-2i32) == Error::InitializationFailed,
        error_for_code(-3i32) == Error::UnsupportedComponent,
        error_for_code(-4i32) == Error::UnsupportedFunction,
        error_for_code(-5i32) == Error::NullPointer,
        error_for_code(-6i32) == Error::BadParameter,
        error_for_code(-7i32) == Error::BadSampleRate,
        error_for_code(-8i32) == Error::BadDataLength,
        error_for_code(-9i32) == Error::BadNumberChannels,
        error_for_code(-10i32) == Error::File,
        error_for_code(-11i32) == Error::StreamParameterNotSet,
        error_for_code(-12i32) == Error::NotEnabled,
        (code < -12 || code > -1) ==> error_for_code(code) == Error::Unspecified,
{
}

} // verus!
