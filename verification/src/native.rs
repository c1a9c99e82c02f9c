//! The configuration in the shape that the native `webrtc::AudioProcessing` module takes it
//! (`AudioProcessing::Config` and its nested structs), as plain values.
//!
//! The [`Default`] of every struct here is the all-zero value (every flag off, every number
//! zero, every enum at its first variant), which is what the native bindings' `Default` gives.
use crate::config::F32Bits;
use vstd::prelude::*;

verus! {

/// The native `AudioProcessing::Config`.
#[derive(Clone, Copy, Debug, PartialEq, Eq, Structural)]
pub struct Config {
    /// Properties of the processing pipeline.
    pub pipeline: Pipeline,
    /// Legacy capture pre-amplifier.
    pub pre_amplifier: PreAmplifier,
    /// Capture level adjustment.
    pub capture_level_adjustment: CaptureLevelAdjustment,
    /// High pass filter.
    pub high_pass_filter: HighPassFilter,
    /// Acoustic echo canceller.
    pub echo_canceller: EchoCanceller,
    /// Noise suppression.
    pub noise_suppression: NoiseSuppression,
    /// Transient suppression.
    pub transient_suppression: TransientSuppression,
    /// Automatic gain controller 1.
    pub gain_controller1: GainController1,
    /// Automatic gain controller 2.
    pub gain_controller2: GainController2,
}

/// The native `AudioProcessing::Config::Pipeline`.
#[derive(Clone, Copy, Debug, PartialEq, Eq, Structural)]
pub struct Pipeline {
    /// Maximum internal processing rate in Hz.
    pub maximum_internal_processing_rate: i32,
    /// Multi-channel render processing.
    pub multi_channel_render: bool,
    /// Multi-channel capture processing.
    pub multi_channel_capture: bool,
    /// Capture downmix method.
    pub capture_downmix_method: DownmixMethod,
}

/// The native `AudioProcessing::Config::Pipeline::DownmixMethod`.
#[derive(Clone, Copy, Debug, PartialEq, Eq, Structural)]
pub enum DownmixMethod {
    /// `kAverageChannels`.
    AverageChannels,
    /// `kUseFirstChannel`.
    UseFirstChannel,
}

/// The native `AudioProcessing::Config::PreAmplifier`.
#[derive(Clone, Copy, Debug, PartialEq, Eq, Structural)]
pub struct PreAmplifier {
    /// Whether the submodule runs.
    pub enabled: bool,
    /// Fixed linear gain multiplier.
    pub fixed_gain_factor: F32Bits,
}

/// The native `AudioProcessing::Config::CaptureLevelAdjustment`.
#[derive(Clone, Copy, Debug, PartialEq, Eq, Structural)]
pub struct CaptureLevelAdjustment {
    /// Whether the submodule runs.
    pub enabled: bool,
    /// Gain applied before any processing.
    pub pre_gain_factor: F32Bits,
    /// Gain applied after all processing.
    pub post_gain_factor: F32Bits,
    /// Analog mic gain emulation.
    pub analog_mic_gain_emulation: AnalogMicGainEmulation,
}

/// The native `AudioProcessing::Config::CaptureLevelAdjustment::AnalogMicGainEmulation`.
#[derive(Clone, Copy, Debug, PartialEq, Eq, Structural)]
pub struct AnalogMicGainEmulation {
    /// Whether the emulation runs.
    pub enabled: bool,
    /// Initial emulated analog gain level.
    pub initial_level: i32,
}

/// The native `AudioProcessing::Config::HighPassFilter`.
#[derive(Clone, Copy, Debug, PartialEq, Eq, Structural)]
pub struct HighPassFilter {
    /// Whether the submodule runs.
    pub enabled: bool,
    /// Whether the filter is applied in the full band.
    pub apply_in_full_band: bool,
}

/// The native `AudioProcessing::Config::EchoCanceller`.
#[derive(Clone, Copy, Debug, PartialEq, Eq, Structural)]
pub struct EchoCanceller {
    /// Whether the submodule runs.
    pub enabled: bool,
    /// Use the mobile (AECM) implementation.
    pub mobile_mode: bool,
    /// Force the high pass filter on.
    pub enforce_high_pass_filtering: bool,
    /// Export the linear AEC output.
    pub export_linear_aec_output: bool,
}

/// The native `AudioProcessing::Config::NoiseSuppression`.
#[derive(Clone, Copy, Debug, PartialEq, Eq, Structural)]
pub struct NoiseSuppression {
    /// Whether the submodule runs.
    pub enabled: bool,
    /// Suppression level.
    pub level: NoiseSuppressionLevel,
    /// Analyze the linear AEC output when it is available.
    pub analyze_linear_aec_output_when_available: bool,
}

/// The native `AudioProcessing::Config::NoiseSuppression::Level`.
#[derive(Clone, Copy, Debug, PartialEq, Eq, Structural)]
pub enum NoiseSuppressionLevel {
    /// `kLow`.
    Low,
    /// `kModerate`.
    Moderate,
    /// `kHigh`.
    High,
    /// `kVeryHigh`.
    VeryHigh,
}

/// The native `AudioProcessing::Config::TransientSuppression`.
#[derive(Clone, Copy, Debug, PartialEq, Eq, Structural)]
pub struct TransientSuppression {
    /// Whether the submodule runs.
    pub enabled: bool,
}

/// The native `AudioProcessing::Config::GainController1`.
#[derive(Clone, Copy, Debug, PartialEq, Eq, Structural)]
pub struct GainController1 {
    /// Whether the submodule runs.
    pub enabled: bool,
    /// AGC mode.
    pub mode: GainControllerMode,
    /// Target peak level in -dBFS.
    pub target_level_dbfs: i32,
    /// Maximum digital compression gain in dB.
    pub compression_gain_db: i32,
    /// Hard limiter.
    pub enable_limiter: bool,
    /// Analog gain controller.
    pub analog_gain_controller: AnalogGainController,
}

/// The native `AudioProcessing::Config::GainController1::Mode`.
#[derive(Clone, Copy, Debug, PartialEq, Eq, Structural)]
pub enum GainControllerMode {
    /// `kAdaptiveAnalog`.
    AdaptiveAnalog,
    /// `kAdaptiveDigital`.
    AdaptiveDigital,
    /// `kFixedDigital`.
    FixedDigital,
}

/// The native `AudioProcessing::Config::GainController1::AnalogGainController`.
#[derive(Clone, Copy, Debug, PartialEq, Eq, Structural)]
pub struct AnalogGainController {
    /// Whether the controller runs.
    pub enabled: bool,
    /// Minimum startup volume.
    pub startup_min_volume: i32,
    /// Lowest level applied in response to clipping.
    pub clipped_level_min: i32,
    /// Adaptive digital gain.
    pub enable_digital_adaptive: bool,
    /// Level step per clipping event.
    pub clipped_level_step: i32,
    /// Clipped sample ratio that declares a clipping event.
    pub clipped_ratio_threshold: F32Bits,
    /// Frames to wait after a clipping event.
    pub clipped_wait_frames: i32,
    /// Clipping predictor.
    pub clipping_predictor: ClippingPredictor,
}

/// The native `AudioProcessing::Config::GainController1::AnalogGainController::ClippingPredictor`.
#[derive(Clone, Copy, Debug, PartialEq, Eq, Structural)]
pub struct ClippingPredictor {
    /// Whether the predictor runs.
    pub enabled: bool,
    /// Prediction mode.
    pub mode: ClippingPredictorMode,
    /// Analysis window length in frames.
    pub window_length: i32,
    /// Reference window length in frames.
    pub reference_window_length: i32,
    /// Reference window delay in frames.
    pub reference_window_delay: i32,
    /// Prediction threshold (dBFS).
    pub clipping_threshold: F32Bits,
    /// Crest factor drop threshold (dB).
    pub crest_factor_margin: F32Bits,
    /// Use the predicted step.
    pub use_predicted_step: bool,
}

/// The native `AudioProcessing::Config::GainController1::AnalogGainController::ClippingPredictor::Mode`.
#[derive(Clone, Copy, Debug, PartialEq, Eq, Structural)]
pub enum ClippingPredictorMode {
    /// `kClippingEventPrediction`.
    ClippingEventPrediction,
    /// `kAdaptiveStepClippingPeakPrediction`.
    AdaptiveStepClippingPeakPrediction,
    /// `kFixedStepClippingPeakPrediction`.
    FixedStepClippingPeakPrediction,
}

/// The native `AudioProcessing::Config::GainController2`.
#[derive(Clone, Copy, Debug, PartialEq, Eq, Structural)]
pub struct GainController2 {
    /// Whether the submodule runs.
    pub enabled: bool,
    /// Input volume controller.
    pub input_volume_controller: InputVolumeController,
    /// Adaptive digital controller.
    pub adaptive_digital: AdaptiveDigital,
    /// Fixed digital controller.
    pub fixed_digital: FixedDigital,
}

/// The native `AudioProcessing::Config::GainController2::InputVolumeController`.
#[derive(Clone, Copy, Debug, PartialEq, Eq, Structural)]
pub struct InputVolumeController {
    /// Whether the controller runs.
    pub enabled: bool,
}

/// The native `AudioProcessing::Config::GainController2::AdaptiveDigital`.
#[derive(Clone, Copy, Debug, PartialEq, Eq, Structural)]
pub struct AdaptiveDigital {
    /// Whether the controller runs.
    pub enabled: bool,
    /// Headroom (dB).
    pub headroom_db: F32Bits,
    /// Max gain (dB).
    pub max_gain_db: F32Bits,
    /// Initial gain (dB).
    pub initial_gain_db: F32Bits,
    /// Max gain change speed (dB/s).
    pub max_gain_change_db_per_second: F32Bits,
    /// Max output noise level (dBFS).
    pub max_output_noise_level_dbfs: F32Bits,
}

/// The native `AudioProcessing::Config::GainController2::FixedDigital`.
#[derive(Clone, Copy, Debug, PartialEq, Eq, Structural)]
pub struct FixedDigital {
    /// Fixed gain (dB).
    pub gain_db: F32Bits,
}

// The all-zero values.

/// The all-zero pre-amplifier: switched off.
pub open spec fn zero_pre_amplifier() -> PreAmplifier {
    PreAmplifier { enabled: false, fixed_gain_factor: F32Bits(0) }
}

/// The all-zero analog mic gain emulation: switched off.
pub open spec fn zero_analog_mic_gain_emulation() -> AnalogMicGainEmulation {
    AnalogMicGainEmulation { enabled: false, initial_level: 0 }
}

/// The all-zero capture level adjustment: switched off.
pub open spec fn zero_capture_level_adjustment() -> CaptureLevelAdjustment {
    CaptureLevelAdjustment {
        enabled: false,
        pre_gain_factor: F32Bits(0),
        post_gain_factor: F32Bits(0),
        analog_mic_gain_emulation: zero_analog_mic_gain_emulation(),
    }
}

/// The all-zero high pass filter: switched off.
pub open spec fn zero_high_pass_filter() -> HighPassFilter {
    HighPassFilter { enabled: false, apply_in_full_band: false }
}

/// The all-zero echo canceller: switched off.
pub open spec fn zero_echo_canceller() -> EchoCanceller {
    EchoCanceller {
        enabled: false,
        mobile_mode: false,
        enforce_high_pass_filtering: false,
        export_linear_aec_output: false,
    }
}

/// The all-zero noise suppression: switched off.
pub open spec fn zero_noise_suppression() -> NoiseSuppression {
    NoiseSuppression {
        enabled: false,
        level: NoiseSuppressionLevel::Low,
        analyze_linear_aec_output_when_available: false,
    }
}

/// The all-zero clipping predictor: switched off.
pub open spec fn zero_clipping_predictor() -> ClippingPredictor {
    ClippingPredictor {
        enabled: false,
        mode: ClippingPredictorMode::ClippingEventPrediction,
        window_length: 0,
        reference_window_length: 0,
        reference_window_delay: 0,
        clipping_threshold: F32Bits(0),
        crest_factor_margin: F32Bits(0),
        use_predicted_step: false,
    }
}

/// The all-zero analog gain controller: switched off.
pub open spec fn zero_analog_gain_controller() -> AnalogGainController {
    AnalogGainController {
        enabled: false,
        startup_min_volume: 0,
        clipped_level_min: 0,
        enable_digital_adaptive: false,
        clipped_level_step: 0,
        clipped_ratio_threshold: F32Bits(0),
        clipped_wait_frames: 0,
        clipping_predictor: zero_clipping_predictor(),
    }
}

/// The all-zero gain controller 1: switched off.
pub open spec fn zero_gain_controller1() -> GainController1 {
    GainController1 {
        enabled: false,
        mode: GainControllerMode::AdaptiveAnalog,
        target_level_dbfs: 0,
        compression_gain_db: 0,
        enable_limiter: false,
        analog_gain_controller: zero_analog_gain_controller(),
    }
}

/// The all-zero adaptive digital controller: switched off.
pub open spec fn zero_adaptive_digital() -> AdaptiveDigital {
    AdaptiveDigital {
        enabled: false,
        headroom_db: F32Bits(0),
        max_gain_db: F32Bits(0),
        initial_gain_db: F32Bits(0),
        max_gain_change_db_per_second: F32Bits(0),
        max_output_noise_level_dbfs: F32Bits(0),
    }
}

/// The all-zero gain controller 2: switched off.
pub open spec fn zero_gain_controller2() -> GainController2 {
    GainController2 {
        enabled: false,
        input_volume_controller: InputVolumeController { enabled: false },
        adaptive_digital: zero_adaptive_digital(),
        fixed_digital: FixedDigital { gain_db: F32Bits(0) },
    }
}

impl Default for PreAmplifier {
    fn default() -> (r: Self)
        ensures
            r == zero_pre_amplifier(),
    {
        PreAmplifier { enabled: false, fixed_gain_factor: F32Bits(0) }
    }
}

impl Default for AnalogMicGainEmulation {
    fn default() -> (r: Self)
        ensures
            r == zero_analog_mic_gain_emulation(),
    {
        AnalogMicGainEmulation { enabled: false, initial_level: 0 }
    }
}

impl Default for CaptureLevelAdjustment {
    fn default() -> (r: Self)
        ensures
            r == zero_capture_level_adjustment(),
    {
        CaptureLevelAdjustment {
            enabled: false,
            pre_gain_factor: F32Bits(0),
            post_gain_factor: F32Bits(0),
            analog_mic_gain_emulation: AnalogMicGainEmulation::default(),
        }
    }
}

impl Default for HighPassFilter {
    fn default() -> (r: Self)
        ensures
            r == zero_high_pass_filter(),
    {
        HighPassFilter { enabled: false, apply_in_full_band: false }
    }
}

impl Default for EchoCanceller {
    fn default() -> (r: Self)
        ensures
            r == zero_echo_canceller(),
    {
        EchoCanceller {
            enabled: false,
            mobile_mode: false,
            enforce_high_pass_filtering: false,
            export_linear_aec_output: false,
        }
    }
}

impl Default for NoiseSuppression {
    fn default() -> (r: Self)
        ensures
            r == zero_noise_suppression(),
    {
        NoiseSuppression {
            enabled: false,
            level: NoiseSuppressionLevel::Low,
            analyze_linear_aec_output_when_available: false,
        }
    }
}

impl Default for ClippingPredictor {
    fn default() -> (r: Self)
        ensures
            r == zero_clipping_predictor(),
    {
        ClippingPredictor {
            enabled: false,
            mode: ClippingPredictorMode::ClippingEventPrediction,
            window_length: 0,
            reference_window_length: 0,
            reference_window_delay: 0,
            clipping_threshold: F32Bits(0),
            crest_factor_margin: F32Bits(0),
            use_predicted_step: false,
        }
    }
}

impl Default for AnalogGainController {
    fn default() -> (r: Self)
        ensures
            r == zero_analog_gain_controller(),
    {
        AnalogGainController {
            enabled: false,
            startup_min_volume: 0,
            clipped_level_min: 0,
            enable_digital_adaptive: false,
            clipped_level_step: 0,
            clipped_ratio_threshold: F32Bits(0),
            clipped_wait_frames: 0,
            clipping_predictor: ClippingPredictor::default(),
        }
    }
}

impl Default for GainController1 {
    fn default() -> (r: Self)
        ensures
            r == zero_gain_controller1(),
    {
        GainController1 {
            enabled: false,
            mode: GainControllerMode::AdaptiveAnalog,
            target_level_dbfs: 0,
            compression_gain_db: 0,
            enable_limiter: false,
            analog_gain_controller: AnalogGainController::default(),
        }
    }
}

impl Default for AdaptiveDigital {
    fn default() -> (r: Self)
        ensures
            r == zero_adaptive_digital(),
    {
        AdaptiveDigital {
            enabled: false,
            headroom_db: F32Bits(0),
            max_gain_db: F32Bits(0),
            initial_gain_db: F32Bits(0),
            max_gain_change_db_per_second: F32Bits(0),
            max_output_noise_level_dbfs: F32Bits(0),
        }
    }
}

impl Default for GainController2 {
    fn default() -> (r: Self)
        ensures
            r == zero_gain_controller2(),
    {
        GainController2 {
            enabled: false,
            input_volume_controller: InputVolumeController { enabled: false },
            adaptive_digital: AdaptiveDigital::default(),
            fixed_digital: FixedDigital { gain_db: F32Bits(0) },
        }
    }
}

/// The native optional integer (`OptionalInt`) in which statistics are reported.
#[derive(Clone, Copy, Debug, PartialEq, Eq, Structural)]
pub struct OptionalInt {
    /// Whether a value is present.
    pub has_value: bool,
    /// The value, meaningful only when present.
    pub value: i32,
}

impl From<OptionalInt> for Option<i32> {
    fn from(other: OptionalInt) -> (r: Option<i32>) {
        if other.has_value {
            Some(other.value)
        } else {
            None
        }
    }
}

impl vstd::std_specs::convert::FromSpecImpl<OptionalInt> for Option<i32> {
    open spec fn obeys_from_spec() -> bool {
        true
    }

    open spec fn from_spec(other: OptionalInt) -> Option<i32> {
        if other.has_value {
            Some(other.value)
        } else {
            None
        }
    }
}

} // verus!
