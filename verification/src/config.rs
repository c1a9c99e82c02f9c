//! Configuration of the audio processor: what is enabled and how each submodule is tuned.
//!
//! Every field that the processor only hands through to the native module keeps its exact
//! value. Single-precision gains, thresholds and levels are held as their IEEE 754 bit
//! pattern ([`F32Bits`]), so that a value travels from the caller to the native module
//! bit for bit.
use vstd::prelude::*;

verus! {

/// The IEEE 754 binary32 bit pattern of an `f32` setting (`f32::to_bits` of the value).
#[derive(Clone, Copy, Debug, PartialEq, Eq, Structural, Hash)]
pub struct F32Bits(pub u32);

/// Bit pattern of `0.0f32`.
pub const F32_ZERO: u32 = 0x0000_0000u32;

/// Bit pattern of `0.1f32`.
pub const F32_ONE_TENTH: u32 = 0x3DCC_CCCDu32;

/// Bit pattern of `1.0f32`.
pub const F32_ONE: u32 = 0x3F80_0000u32;

/// Bit pattern of `-1.0f32`.
pub const F32_MINUS_ONE: u32 = 0xBF80_0000u32;

/// Bit pattern of `3.0f32`.
pub const F32_THREE: u32 = 0x4040_0000u32;

/// Bit pattern of `5.0f32`.
pub const F32_FIVE: u32 = 0x40A0_0000u32;

/// Bit pattern of `6.0f32`.
pub const F32_SIX: u32 = 0x40C0_0000u32;

/// Bit pattern of `15.0f32`.
pub const F32_FIFTEEN: u32 = 0x4170_0000u32;

/// Bit pattern of `50.0f32`.
pub const F32_FIFTY: u32 = 0x4248_0000u32;

/// Bit pattern of `-50.0f32`.
pub const F32_MINUS_FIFTY: u32 = 0xC248_0000u32;

/// A configuration for initializing a Processor instance.
#[derive(Clone, Copy, Debug, PartialEq, Eq, Structural)]
pub struct InitializationConfig {
    /// Number of input channels for the capture frame.
    pub num_capture_channels: usize,
    /// Number of output channels for the render frame.
    pub num_render_channels: usize,
    /// Sampling rate of the capture and render frames. Accepts an arbitrary value, but the
    /// maximum internal processing rate is 48000, so the audio quality is capped as such.
    pub sample_rate_hz: u32,
}

impl Default for InitializationConfig {
    fn default() -> (r: Self)
        ensures
            r == (InitializationConfig {
                num_capture_channels: 1,
                num_render_channels: 1,
                sample_rate_hz: 48_000,
            }),
    {
        InitializationConfig { num_capture_channels: 1, num_render_channels: 1, sample_rate_hz: 48_000 }
    }
}

/// The parameters and behavior of the audio processing module are controlled by changing the
/// default values in this [`Config`] struct. The config is applied by passing it to the
/// processor's `set_config`.
#[derive(Clone, Copy, Debug, PartialEq, Eq, Structural)]
pub struct Config {
    /// Sets the properties of the audio processing pipeline.
    pub pipeline: Pipeline,
    /// Enables and configures capture-side pre-amplifier/capture-level adjustment.
    pub capture_amplifier: Option<CaptureAmplifier>,
    /// Enables and configures high pass filter.
    pub high_pass_filter: Option<HighPassFilter>,
    /// Enables and configures acoustic echo cancellation.
    pub echo_canceller: Option<EchoCanceller>,
    /// Enables and configures background noise suppression.
    pub noise_suppression: Option<NoiseSuppression>,
    /// Enables and configures automatic gain control (v1 or v2).
    pub gain_controller: Option<GainController>,
}

impl Default for Config {
    /// The default pipeline, with every optional submodule switched off.
    fn default() -> (r: Self)
        ensures
            r.pipeline == default_pipeline(),
            r.capture_amplifier is None,
            r.high_pass_filter is None,
            r.echo_canceller is None,
            r.noise_suppression is None,
            r.gain_controller is None,
    {
        Config {
            pipeline: Pipeline::default(),
            capture_amplifier: None,
            high_pass_filter: None,
            echo_canceller: None,
            noise_suppression: None,
            gain_controller: None,
        }
    }
}

/// Sets the properties of the audio processing pipeline.
#[derive(Clone, Copy, Debug, PartialEq, Eq, Structural)]
pub struct Pipeline {
    /// Maximum allowed processing rate used internally.
    pub maximum_internal_processing_rate: PipelineProcessingRate,
    /// Allow multi-channel processing of render audio.
    pub multi_channel_render: bool,
    /// Allow multi-channel processing of capture audio when AEC3 is active or a custom AEC is
    /// injected.
    pub multi_channel_capture: bool,
    /// Indicates how to downmix multi-channel capture audio to mono (when needed).
    pub capture_downmix_method: DownmixMethod,
}

/// The default pipeline: 48 kHz, mono processing, downmixing by averaging.
pub open spec fn default_pipeline() -> Pipeline {
    Pipeline {
        maximum_internal_processing_rate: PipelineProcessingRate::Max48000Hz,
        multi_channel_render: false,
        multi_channel_capture: false,
        capture_downmix_method: DownmixMethod::Average,
    }
}

impl Default for Pipeline {
    fn default() -> (r: Self)
        ensures
            r == default_pipeline(),
    {
        Pipeline {
            maximum_internal_processing_rate: PipelineProcessingRate::default(),
            multi_channel_render: false,
            multi_channel_capture: false,
            capture_downmix_method: DownmixMethod::default(),
        }
    }
}

/// Internal processing rate.
#[derive(Clone, Copy, Debug, PartialEq, Eq, Structural)]
pub enum PipelineProcessingRate {
    /// Limit the rate to 32k Hz.
    Max32000Hz,
    /// Limit the rate to 48k Hz.
    Max48000Hz,
}

/// The rate in Hz that a processing-rate limit stands for.
pub open spec fn processing_rate_hz(rate: PipelineProcessingRate) -> int {
    match rate {
        PipelineProcessingRate::Max32000Hz => 32_000,
        PipelineProcessingRate::Max48000Hz => 48_000,
    }
}

impl PipelineProcessingRate {
    /// The limit in Hz: 32000 or 48000.
    pub fn hz(&self) -> (r: u32)
        ensures
            r == processing_rate_hz(*self),
    {
        match self {
            PipelineProcessingRate::Max32000Hz => 32_000,
            PipelineProcessingRate::Max48000Hz => 48_000,
        }
    }
}

impl Default for PipelineProcessingRate {
    fn default() -> (r: Self)
        ensures
            r == PipelineProcessingRate::Max48000Hz,
    {
        PipelineProcessingRate::Max48000Hz
    }
}

/// Downmix method for multi-channel capture audio.
#[derive(Clone, Copy, Debug, PartialEq, Eq, Structural)]
pub enum DownmixMethod {
    /// Mix by averaging.
    Average,
    /// Mix by selecting the first channel.
    UseFirstChannel,
}

impl Default for DownmixMethod {
    fn default() -> (r: Self)
        ensures
            r == DownmixMethod::Average,
    {
        DownmixMethod::Average
    }
}

/// A choice of capture-side pre-amplification/volume adjustment.
#[derive(Clone, Copy, Debug, PartialEq, Eq, Structural)]
pub enum CaptureAmplifier {
    /// Use the legacy PreAmplifier.
    PreAmplifier(PreAmplifier),
    /// Use the new CaptureLevelAdjustment.
    CaptureLevelAdjustment(CaptureLevelAdjustment),
}

/// The `PreAmplifier` amplifies the capture signal before any other processing is done.
/// It is being deprecated in favour of the pre-gain of [`CaptureLevelAdjustment`].
#[derive(Clone, Copy, Debug, PartialEq, Eq, Structural)]
pub struct PreAmplifier {
    /// Fixed linear gain multiplier. The default is 1.0 (no effect).
    pub fixed_gain_factor: F32Bits,
}

impl Default for PreAmplifier {
    fn default() -> (r: Self)
        ensures
            r.fixed_gain_factor == F32Bits(F32_ONE),
    {
        PreAmplifier { fixed_gain_factor: F32Bits(F32_ONE) }
    }
}

/// Functionality for general level adjustment in the capture pipeline. This should not be used
/// together with the legacy PreAmplifier functionality.
#[derive(Clone, Copy, Debug, PartialEq, Eq, Structural)]
pub struct CaptureLevelAdjustment {
    /// The `pre_gain_factor` scales the signal before any processing is done.
    pub pre_gain_factor: F32Bits,
    /// The `post_gain_factor` scales the signal after all processing is done.
    pub post_gain_factor: F32Bits,
    /// Analog mic gain emulation.
    pub analog_mic_gain_emulation: Option<AnalogMicGainEmulation>,
}

impl Default for CaptureLevelAdjustment {
    fn default() -> (r: Self)
        ensures
            r.pre_gain_factor == F32Bits(F32_ONE),
            r.post_gain_factor == F32Bits(F32_ONE),
            r.analog_mic_gain_emulation is None,
    {
        CaptureLevelAdjustment {
            pre_gain_factor: F32Bits(F32_ONE),
            post_gain_factor: F32Bits(F32_ONE),
            analog_mic_gain_emulation: None,
        }
    }
}

/// Analog mic gain emulation for capture level adjustment.
#[derive(Clone, Copy, Debug, PartialEq, Eq, Structural)]
pub struct AnalogMicGainEmulation {
    /// Initial analog gain level to use for the emulated analog gain. Must be in the range
    /// [0...255].
    pub initial_level: u8,
}

impl Default for AnalogMicGainEmulation {
    fn default() -> (r: Self)
        ensures
            r.initial_level == 255,
    {
        AnalogMicGainEmulation { initial_level: 255 }
    }
}

/// HPF (high-pass filter) configuration.
#[derive(Clone, Copy, Debug, PartialEq, Eq, Structural)]
pub struct HighPassFilter {
    /// Whether or not HPF should be applied in the full-band (i.e. 20 – 20,000 Hz).
    pub apply_in_full_band: bool,
}

impl Default for HighPassFilter {
    fn default() -> (r: Self)
        ensures
            r.apply_in_full_band,
    {
        HighPassFilter { apply_in_full_band: true }
    }
}

/// AEC (acoustic echo cancellation) configuration.
/// Defaults to Full (AEC3) mode with delay estimation (stream_delay unset).
///
/// `enforce_high_pass_filtering` of the native module is not exposed: it is true for Full and
/// false for Mobile.
#[derive(Clone, Copy, Debug, PartialEq, Eq, Structural)]
pub enum EchoCanceller {
    /// Use low-complexity AEC implementation that is optimized for mobile.
    Mobile {
        /// The delay in ms between render and capture processing. Mandatory for the Mobile
        /// echo canceller variant.
        stream_delay_ms: u16,
    },
    /// Uses the full AEC3 implementation.
    Full {
        /// The delay in ms between render and capture processing. If None, the AEC
        /// processor tries to determine it.
        stream_delay_ms: Option<u16>,
    },
}

impl Default for EchoCanceller {
    fn default() -> (r: Self)
        ensures
            r == (EchoCanceller::Full { stream_delay_ms: None }),
    {
        EchoCanceller::Full { stream_delay_ms: None }
    }
}

/// Enables background noise suppression.
#[derive(Clone, Copy, Debug, PartialEq, Eq, Structural)]
pub struct NoiseSuppression {
    /// Determines the aggressiveness of the suppression. Increasing the level will reduce the
    /// noise level at the expense of a higher speech distortion.
    pub level: NoiseSuppressionLevel,
    /// Analyze the output of the linear AEC instead of the capture frame. Activates the
    /// `export_linear_aec_output` flag of the echo canceller. Has no effect if echo
    /// cancellation is not enabled or is of the Mobile AECM type.
    pub analyze_linear_aec_output: bool,
}

impl Default for NoiseSuppression {
    fn default() -> (r: Self)
        ensures
            r == (NoiseSuppression {
                level: NoiseSuppressionLevel::Moderate,
                analyze_linear_aec_output: false,
            }),
    {
        NoiseSuppression { level: NoiseSuppressionLevel::Moderate, analyze_linear_aec_output: false }
    }
}

/// Noise suppression level.
#[derive(Clone, Copy, Debug, PartialEq, Eq, Structural)]
pub enum NoiseSuppressionLevel {
    /// Lower suppression level.
    Low,
    /// Moderate suppression level.
    Moderate,
    /// Higher suppression level.
    High,
    /// Even higher suppression level.
    VeryHigh,
}

/// A choice of the gain controller implementation.
#[derive(Clone, Copy, Debug, PartialEq, Eq, Structural)]
pub enum GainController {
    /// Legacy gain controller 1.
    GainController1(GainController1),
    /// New gain controller 2.
    GainController2(GainController2),
}

/// Enables automatic gain control (AGC) functionality, which brings the signal to an
/// appropriate range by applying a digital gain and, in the analog mode, prescribing an analog
/// gain to be applied at the audio HAL.
#[derive(Clone, Copy, Debug, PartialEq, Eq, Structural)]
pub struct GainController1 {
    /// AGC mode.
    pub mode: GainControllerMode,
    /// The target peak level (or envelope) of the AGC in dBFs (decibels from digital
    /// full-scale), given as a positive number: 3 means -3 dBFs. Limited to [0, 31].
    pub target_level_dbfs: u8,
    /// The maximum gain the digital compression stage may apply, in dB. Limited to [0, 90].
    pub compression_gain_db: u8,
    /// When enabled, the compression stage will hard limit the signal to the target level.
    pub enable_limiter: bool,
    /// Analog gain controller configuration.
    pub analog_gain_controller: Option<AnalogGainController>,
}

impl Default for GainController1 {
    fn default() -> (r: Self)
        ensures
            r == (GainController1 {
                mode: GainControllerMode::AdaptiveAnalog,
                target_level_dbfs: 3,
                compression_gain_db: 9,
                enable_limiter: true,
                analog_gain_controller: None,
            }),
    {
        GainController1 {
            mode: GainControllerMode::AdaptiveAnalog,
            target_level_dbfs: 3,
            compression_gain_db: 9,
            enable_limiter: true,
            analog_gain_controller: None,
        }
    }
}

/// Gain control mode.
#[derive(Clone, Copy, Debug, PartialEq, Eq, Structural)]
pub enum GainControllerMode {
    /// Adaptive mode intended for use if an analog volume control is available on the capture
    /// device: an analog gain prescription for the audio device and a digital compression stage.
    AdaptiveAnalog,
    /// Adaptive mode intended for situations in which an analog volume control is unavailable;
    /// the scaling is applied in the digital domain, followed by digital compression.
    AdaptiveDigital,
    /// Fixed mode which enables only the digital compression stage also used by the two
    /// adaptive modes.
    FixedDigital,
}

/// Enables the analog gain controller functionality.
#[derive(Clone, Copy, Debug, PartialEq, Eq, Structural)]
pub struct AnalogGainController {
    /// Minimum startup volume (being deprecated in WebRTC).
    pub startup_min_volume: i32,
    /// Lowest analog microphone level that will be applied in response to clipping.
    pub clipped_level_min: i32,
    /// If true, an adaptive digital gain is applied.
    pub enable_digital_adaptive: bool,
    /// Amount the microphone level is lowered with every clipping event. Limited to (0, 255].
    pub clipped_level_step: i32,
    /// Proportion of clipped samples required to declare a clipping event. Limited to (0, 1).
    pub clipped_ratio_threshold: F32Bits,
    /// Time in frames to wait after a clipping event before checking again. Limited to values
    /// higher than 0.
    pub clipped_wait_frames: i32,
    /// Clipping predictor.
    pub clipping_predictor: Option<ClippingPredictor>,
}

impl Default for AnalogGainController {
    fn default() -> (r: Self)
        ensures
            r == (AnalogGainController {
                startup_min_volume: 0,
                clipped_level_min: 70,
                enable_digital_adaptive: true,
                clipped_level_step: 15,
                clipped_ratio_threshold: F32Bits(F32_ONE_TENTH),
                clipped_wait_frames: 300,
                clipping_predictor: None,
            }),
    {
        AnalogGainController {
            startup_min_volume: 0,
            clipped_level_min: 70,
            enable_digital_adaptive: true,
            clipped_level_step: 15,
            clipped_ratio_threshold: F32Bits(F32_ONE_TENTH),
            clipped_wait_frames: 300,
            clipping_predictor: None,
        }
    }
}

/// Enables clipping prediction functionality.
#[derive(Clone, Copy, Debug, PartialEq, Eq, Structural)]
pub struct ClippingPredictor {
    /// Mode.
    pub mode: ClippingPredictorMode,
    /// Number of frames in the sliding analysis window.
    pub window_length: i32,
    /// Number of frames in the sliding reference window.
    pub reference_window_length: i32,
    /// Reference window delay (unit: number of frames).
    pub reference_window_delay: i32,
    /// Clipping prediction threshold (dBFS).
    pub clipping_threshold: F32Bits,
    /// Crest factor drop threshold (dB).
    pub crest_factor_margin: F32Bits,
    /// If true, the recommended clipped level step is used to modify the analog gain.
    /// Otherwise, the predictor runs without affecting the analog gain.
    pub use_predicted_step: bool,
}

impl Default for ClippingPredictor {
    fn default() -> (r: Self)
        ensures
            r == (ClippingPredictor {
                mode: ClippingPredictorMode::ClippingEventPrediction,
                window_length: 5,
                reference_window_length: 5,
                reference_window_delay: 5,
                clipping_threshold: F32Bits(F32_MINUS_ONE),
                crest_factor_margin: F32Bits(F32_THREE),
                use_predicted_step: true,
            }),
    {
        ClippingPredictor {
            mode: ClippingPredictorMode::ClippingEventPrediction,
            window_length: 5,
            reference_window_length: 5,
            reference_window_delay: 5,
            clipping_threshold: F32Bits(F32_MINUS_ONE),
            crest_factor_margin: F32Bits(F32_THREE),
            use_predicted_step: true,
        }
    }
}

/// Clipping predictor mode.
#[derive(Clone, Copy, Debug, PartialEq, Eq, Structural)]
pub enum ClippingPredictorMode {
    /// Clipping event prediction mode with fixed step estimation.
    ClippingEventPrediction,
    /// Clipped peak estimation mode with adaptive step estimation.
    AdaptiveStepClippingPeakPrediction,
    /// Clipped peak estimation mode with fixed step estimation.
    FixedStepClippingPeakPrediction,
}

/// Parameters for AGC2, which brings the captured audio signal to the desired level by
/// combining an input volume controller, an adaptive digital controller, a fixed digital
/// controller and a limiter. It replaces the gain controller 1.
#[derive(Clone, Copy, Debug, PartialEq, Eq, Structural)]
pub struct GainController2 {
    /// Enables the input volume controller, which adjusts the input volume applied when the
    /// audio is captured (e.g., microphone volume on a soundcard, input volume on HAL).
    pub input_volume_controller_enabled: bool,
    /// Parameters for the adaptive digital controller.
    pub adaptive_digital: Option<AdaptiveDigital>,
    /// Parameters for the fixed digital controller.
    pub fixed_digital: FixedDigital,
}

impl Default for GainController2 {
    fn default() -> (r: Self)
        ensures
            !r.input_volume_controller_enabled,
            r.adaptive_digital is None,
            r.fixed_digital == (FixedDigital { gain_db: F32Bits(F32_ZERO) }),
    {
        GainController2 {
            input_volume_controller_enabled: false,
            adaptive_digital: None,
            fixed_digital: FixedDigital::default(),
        }
    }
}

/// Parameters for the adaptive digital controller, which adjusts and applies a digital gain
/// after echo cancellation and after noise suppression.
#[derive(Clone, Copy, Debug, PartialEq, Eq, Structural)]
pub struct AdaptiveDigital {
    /// Headroom (dB).
    pub headroom_db: F32Bits,
    /// Max gain (dB).
    pub max_gain_db: F32Bits,
    /// Initial gain (dB).
    pub initial_gain_db: F32Bits,
    /// Max gain change speed (dB/s).
    pub max_gain_change_db_per_second: F32Bits,
    /// Max output noise level (dBFS).
    pub max_output_noise_level_dbfs: F32Bits,
}

impl Default for AdaptiveDigital {
    fn default() -> (r: Self)
        ensures
            r == (AdaptiveDigital {
                headroom_db: F32Bits(F32_FIVE),
                max_gain_db: F32Bits(F32_FIFTY),
                initial_gain_db: F32Bits(F32_FIFTEEN),
                max_gain_change_db_per_second: F32Bits(F32_SIX),
                max_output_noise_level_dbfs: F32Bits(F32_MINUS_FIFTY),
            }),
    {
        AdaptiveDigital {
            headroom_db: F32Bits(F32_FIVE),
            max_gain_db: F32Bits(F32_FIFTY),
            initial_gain_db: F32Bits(F32_FIFTEEN),
            max_gain_change_db_per_second: F32Bits(F32_SIX),
            max_output_noise_level_dbfs: F32Bits(F32_MINUS_FIFTY),
        }
    }
}

/// Parameters for the fixed digital controller, which applies a fixed digital gain after the
/// adaptive digital controller and before the limiter.
#[derive(Clone, Copy, Debug, PartialEq, Eq, Structural)]
pub struct FixedDigital {
    /// By setting `gain_db` to a value greater than zero, the limiter can be turned into a
    /// compressor that first applies a fixed gain.
    pub gain_db: F32Bits,
}

impl Default for FixedDigital {
    fn default() -> (r: Self)
        ensures
            r.gain_db == F32Bits(F32_ZERO),
    {
        FixedDigital { gain_db: F32Bits(F32_ZERO) }
    }
}

} // verus!
