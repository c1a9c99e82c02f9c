use webrtc_audio_processing::{result_from_code, Error};

#[test]
fn every_native_code_names_its_error() {
    let expected = [
        (-1, Error::Unspecified),
        (-2, Error::InitializationFailed),
        (-3, Error::UnsupportedComponent),
        (-4, Error::UnsupportedFunction),
        (-5, Error::NullPointer),
        (-6, Error::BadParameter),
        (-7, Error::BadSampleRate),
        (-8, Error::BadDataLength),
        (-9, Error::BadNumberChannels),
        (-10, Error::File),
        (-11, Error::StreamParameterNotSet),
        (-12, Error::NotEnabled),
    ];
    for (code, error) in expected {
        assert_eq!(Error::from(code), error);
    }
}

#[test]
fn unknown_failure_codes_are_unspecified() {
    assert_eq!(Error::from(-13), Error::Unspecified);
    assert_eq!(Error::from(1), Error::Unspecified);
    assert_eq!(Error::from(i32::MIN), Error::Unspecified);
}

#[test]
fn result_from_code_succeeds_only_on_zero() {
    assert_eq!(result_from_code(7u8, 0), Ok(7u8));
    assert_eq!(result_from_code((), -9), Err(Error::BadNumberChannels));
    assert_eq!(result_from_code("x", 42), Err(Error::Unspecified));
}

#[test]
fn error_messages() {
    assert_eq!(Error::BadDataLength.to_string(), "WebRTC AudioProcessing error: Invalid data length");
    assert_eq!(Error::NotEnabled.to_string(), "WebRTC AudioProcessing error: Feature not enabled");
    assert_eq!(Error::Unspecified.description(), "Unspecified error");
    assert_eq!(Error::BadNumberChannels.description(), "Invalid number of channels");
}
