use webrtc_audio_processing::config::{Config, EchoCanceller};
use webrtc_audio_processing::native::OptionalInt;
use webrtc_audio_processing::stats::delay_ms_from_native;
use webrtc_audio_processing::{native, Error, NativeCreation, Processor};

const SAMPLE_RATE_HZ: u32 = 48_000;

fn created() -> NativeCreation {
    NativeCreation { error_code: 0, has_handle: true }
}

#[test]
fn new_checks_the_code_before_the_handle() {
    let failed = Processor::new(SAMPLE_RATE_HZ, NativeCreation { error_code: -2, has_handle: false });
    assert_eq!(failed.unwrap_err(), Error::InitializationFailed);
    let failed = Processor::new(SAMPLE_RATE_HZ, NativeCreation { error_code: -7, has_handle: true });
    assert_eq!(failed.unwrap_err(), Error::BadSampleRate);
    let null = Processor::new(SAMPLE_RATE_HZ, NativeCreation { error_code: 0, has_handle: false });
    assert_eq!(null.unwrap_err(), Error::NullPointer);
    assert!(Processor::new(SAMPLE_RATE_HZ, created()).is_ok());
}

#[test]
fn frames_are_ten_milliseconds() {
    let ap = Processor::new(SAMPLE_RATE_HZ, created()).unwrap();
    assert_eq!(ap.num_samples_per_frame(), 480);
    let ap = Processor::new(16_000, created()).unwrap();
    assert_eq!(ap.num_samples_per_frame(), 160);
    let ap = Processor::new(44_100, created()).unwrap();
    assert_eq!(ap.num_samples_per_frame(), 441);
}

#[test]
fn fresh_processor_sets_no_stream_delay() {
    let ap = Processor::new(SAMPLE_RATE_HZ, created()).unwrap();
    assert_eq!(ap.capture_stream_delay(), None);
}

#[test]
fn configured_stream_delay_is_applied() {
    let mut ap = Processor::new(SAMPLE_RATE_HZ, created()).unwrap();

    let full = Config { echo_canceller: Some(EchoCanceller::Full { stream_delay_ms: Some(10) }), ..Config::default() };
    let n = ap.set_config(full);
    assert_eq!(ap.capture_stream_delay(), Some(10));
    assert_eq!(n, native::Config::from_config(full));

    ap.set_config(Config { echo_canceller: Some(EchoCanceller::Mobile { stream_delay_ms: u16::MAX }), ..Config::default() });
    assert_eq!(ap.capture_stream_delay(), Some(65_535));

    ap.set_config(Config { echo_canceller: Some(EchoCanceller::Mobile { stream_delay_ms: 0 }), ..Config::default() });
    assert_eq!(ap.capture_stream_delay(), Some(0));

    ap.set_config(Config { echo_canceller: Some(EchoCanceller::default()), ..Config::default() });
    assert_eq!(ap.capture_stream_delay(), None);

    ap.set_config(Config { echo_canceller: Some(EchoCanceller::Full { stream_delay_ms: Some(200) }), ..Config::default() });
    ap.set_config(Config::default());
    assert_eq!(ap.capture_stream_delay(), None);
    assert_eq!(ap.num_samples_per_frame(), 480);
}

#[test]
fn frame_shape_must_match() {
    let ap = Processor::new(SAMPLE_RATE_HZ, created()).unwrap();
    assert!(ap.frame_fits(&[480, 480]));
    assert!(ap.frame_fits(&[480]));
    assert!(ap.frame_fits(&[]));
    assert!(!ap.frame_fits(&[480, 479]));
    assert!(!ap.frame_fits(&[0]));
}

#[test]
fn stats_delay_from_native_report() {
    assert_eq!(delay_ms_from_native(OptionalInt { has_value: true, value: 42 }), Some(42));
    assert_eq!(delay_ms_from_native(OptionalInt { has_value: false, value: 42 }), None);
    assert_eq!(delay_ms_from_native(OptionalInt { has_value: true, value: -1 }), Some(u32::MAX));
    assert_eq!(Option::<i32>::from(OptionalInt { has_value: true, value: -3 }), Some(-3));
    assert_eq!(Option::<i32>::from(OptionalInt { has_value: false, value: 5 }), None);
}
