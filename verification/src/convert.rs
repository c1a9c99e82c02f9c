//! Conversion of a [`config::Config`] into the configuration that the native module takes.
//!
//! An optional submodule that the caller left out (`None`) is handed to the native module in its
//! all-zero form, that is switched off; one that the caller set is switched on with the caller's
//! values. Transient suppression is always off.
use crate::config;
use crate::config::processing_rate_hz;
use crate::native;
use crate::native::{
    zero_adaptive_digital, zero_analog_gain_controller, zero_analog_mic_gain_emulation,
    zero_capture_level_adjustment, zero_clipping_predictor, zero_echo_canceller,
    zero_gain_controller1, zero_gain_controller2, zero_high_pass_filter, zero_noise_suppression,
    zero_pre_amplifier,
};
use vstd::prelude::*;

verus! {

// What each part of the configuration becomes.

/// The native downmix method for a configured one.
pub open spec fn native_downmix(m: config::DownmixMethod) -> native::DownmixMethod {
    match m {
        config::DownmixMethod::Average => native::DownmixMethod::AverageChannels,
        config::DownmixMethod::UseFirstChannel => native::DownmixMethod::UseFirstChannel,
    }
}

/// The native pipeline for a configured one.
pub open spec fn native_pipeline(p: config::Pipeline) -> native::Pipeline {
    native::Pipeline {
        maximum_internal_processing_rate: processing_rate_hz(p.maximum_internal_processing_rate) as i32,
        multi_channel_render: p.multi_channel_render,
        multi_channel_capture: p.multi_channel_capture,
        capture_downmix_method: native_downmix(p.capture_downmix_method),
    }
}

/// A configured pre-amplifier, switched on.
pub open spec fn native_pre_amplifier(p: config::PreAmplifier) -> native::PreAmplifier {
    native::PreAmplifier { enabled: true, fixed_gain_factor: p.fixed_gain_factor }
}

/// The analog mic gain emulation: on with the configured level, or off.
pub open spec fn native_analog_mic_gain_emulation(
    e: Option<config::AnalogMicGainEmulation>,
) -> native::AnalogMicGainEmulation {
    match e {
        Some(e) => native::AnalogMicGainEmulation { enabled: true, initial_level: e.initial_level as i32 },
        None => zero_analog_mic_gain_emulation(),
    }
}

/// A configured capture level adjustment, switched on.
pub open spec fn native_capture_level_adjustment(
    c: config::CaptureLevelAdjustment,
) -> native::CaptureLevelAdjustment {
    native::CaptureLevelAdjustment {
        enabled: true,
        pre_gain_factor: c.pre_gain_factor,
        post_gain_factor: c.post_gain_factor,
        analog_mic_gain_emulation: native_analog_mic_gain_emulation(c.analog_mic_gain_emulation),
    }
}

/// A configured high pass filter, switched on.
pub open spec fn native_high_pass_filter(h: config::HighPassFilter) -> native::HighPassFilter {
    native::HighPassFilter { enabled: true, apply_in_full_band: h.apply_in_full_band }
}

/// A configured echo canceller, switched on: Mobile runs AECM without a forced high pass
/// filter, Full runs AEC3 with it. The linear AEC output is not exported.
pub open spec fn native_echo_canceller(e: config::EchoCanceller) -> native::EchoCanceller {
    match e {
        config::EchoCanceller::Mobile { .. } => native::EchoCanceller {
            enabled: true,
            mobile_mode: true,
            enforce_high_pass_filtering: false,
            export_linear_aec_output: false,
        },
        config::EchoCanceller::Full { .. } => native::EchoCanceller {
            enabled: true,
            mobile_mode: false,
            enforce_high_pass_filtering: true,
            export_linear_aec_output: false,
        },
    }
}

/// The native noise suppression level for a configured one.
pub open spec fn native_noise_suppression_level(
    l: config::NoiseSuppressionLevel,
) -> native::NoiseSuppressionLevel {
    match l {
        config::NoiseSuppressionLevel::Low => native::NoiseSuppressionLevel::Low,
        config::NoiseSuppressionLevel::Moderate => native::NoiseSuppressionLevel::Moderate,
        config::NoiseSuppressionLevel::High => native::NoiseSuppressionLevel::High,
        config::NoiseSuppressionLevel::VeryHigh => native::NoiseSuppressionLevel::VeryHigh,
    }
}

/// A configured noise suppression, switched on.
pub open spec fn native_noise_suppression(n: config::NoiseSuppression) -> native::NoiseSuppression {
    native::NoiseSuppression {
        enabled: true,
        level: native_noise_suppression_level(n.level),
        analyze_linear_aec_output_when_available: n.analyze_linear_aec_output,
    }
}

/// The native gain controller 1 mode for a configured one.
pub open spec fn native_gain_controller_mode(m: config::GainControllerMode) -> native::GainControllerMode {
    match m {
        config::GainControllerMode::AdaptiveAnalog => native::GainControllerMode::AdaptiveAnalog,
        config::GainControllerMode::AdaptiveDigital => native::GainControllerMode::AdaptiveDigital,
        config::GainControllerMode::FixedDigital => native::GainControllerMode::FixedDigital,
    }
}

/// The native clipping predictor mode for a configured one.
pub open spec fn native_clipping_predictor_mode(
    m: config::ClippingPredictorMode,
) -> native::ClippingPredictorMode {
    match m {
        config::ClippingPredictorMode::ClippingEventPrediction =>
            native::ClippingPredictorMode::ClippingEventPrediction,
        config::ClippingPredictorMode::AdaptiveStepClippingPeakPrediction =>
            native::ClippingPredictorMode::AdaptiveStepClippingPeakPrediction,
        config::ClippingPredictorMode::FixedStepClippingPeakPrediction =>
            native::ClippingPredictorMode::FixedStepClippingPeakPrediction,
    }
}

/// The clipping predictor: on with the configured values, or off.
pub open spec fn native_clipping_predictor(
    p: Option<config::ClippingPredictor>,
) -> native::ClippingPredictor {
    match p {
        Some(p) => native::ClippingPredictor {
            enabled: true,
            mode: native_clipping_predictor_mode(p.mode),
            window_length: p.window_length,
            reference_window_length: p.reference_window_length,
            reference_window_delay: p.reference_window_delay,
            clipping_threshold: p.clipping_threshold,
            crest_factor_margin: p.crest_factor_margin,
            use_predicted_step: p.use_predicted_step,
        },
        None => zero_clipping_predictor(),
    }
}

/// The analog gain controller: on with the configured values, or off.
pub open spec fn native_analog_gain_controller(
    a: Option<config::AnalogGainController>,
) -> native::AnalogGainController {
    match a {
        Some(a) => native::AnalogGainController {
            enabled: true,
            startup_min_volume: a.startup_min_volume,
            clipped_level_min: a.clipped_level_min,
            enable_digital_adaptive: a.enable_digital_adaptive,
            clipped_level_step: a.clipped_level_step,
            clipped_ratio_threshold: a.clipped_ratio_threshold,
            clipped_wait_frames: a.clipped_wait_frames,
            clipping_predictor: native_clipping_predictor(a.clipping_predictor),
        },
        None => zero_analog_gain_controller(),
    }
}

/// A configured gain controller 1, switched on.
pub open spec fn native_gain_controller1(g: config::GainController1) -> native::GainController1 {
    native::GainController1 {
        enabled: true,
        mode: native_gain_controller_mode(g.mode),
        target_level_dbfs: g.target_level_dbfs as i32,
        compression_gain_db: g.compression_gain_db as i32,
        enable_limiter: g.enable_limiter,
        analog_gain_controller: native_analog_gain_controller(g.analog_gain_controller),
    }
}

/// The adaptive digital controller: on with the configured values, or off.
pub open spec fn native_adaptive_digital(a: Option<config::AdaptiveDigital>) -> native::AdaptiveDigital {
    match a {
        Some(a) => native::AdaptiveDigital {
            enabled: true,
            headroom_db: a.headroom_db,
            max_gain_db: a.max_gain_db,
            initial_gain_db: a.initial_gain_db,
            max_gain_change_db_per_second: a.max_gain_change_db_per_second,
            max_output_noise_level_dbfs: a.max_output_noise_level_dbfs,
        },
        None => zero_adaptive_digital(),
    }
}

/// A configured gain controller 2, switched on.
pub open spec fn native_gain_controller2(g: config::GainController2) -> native::GainController2 {
    native::GainController2 {
        enabled: true,
        input_volume_controller: native::InputVolumeController {
            enabled: g.input_volume_controller_enabled,
        },
        adaptive_digital: native_adaptive_digital(g.adaptive_digital),
        fixed_digital: native::FixedDigital { gain_db: g.fixed_digital.gain_db },
    }
}

/// Whether the echo canceller exports its linear output: only when noise suppression is
/// configured to analyze it.
pub open spec fn exports_linear_aec_output(c: config::Config) -> bool {
    match c.noise_suppression {
        Some(ns) => ns.analyze_linear_aec_output,
        None => false,
    }
}

/// The complete native configuration for a [`config::Config`].
pub open spec fn native_config(c: config::Config) -> native::Config {
    native::Config {
        pipeline: native_pipeline(c.pipeline),
        pre_amplifier: match c.capture_amplifier {
            Some(config::CaptureAmplifier::PreAmplifier(p)) => native_pre_amplifier(p),
            _ => zero_pre_amplifier(),
        },
        capture_level_adjustment: match c.capture_amplifier {
            Some(config::CaptureAmplifier::CaptureLevelAdjustment(a)) =>
                native_capture_level_adjustment(a),
            _ => zero_capture_level_adjustment(),
        },
        high_pass_filter: match c.high_pass_filter {
            Some(h) => native_high_pass_filter(h),
            None => zero_high_pass_filter(),
        },
        echo_canceller: match c.echo_canceller {
            Some(e) => native::EchoCanceller {
                export_linear_aec_output: exports_linear_aec_output(c),
                ..native_echo_canceller(e)
            },
            None => zero_echo_canceller(),
        },
        noise_suppression: match c.noise_suppression {
            Some(n) => native_noise_suppression(n),
            None => zero_noise_suppression(),
        },
        transient_suppression: native::TransientSuppression { enabled: false },
        gain_controller1: match c.gain_controller {
            Some(config::GainController::GainController1(g)) => native_gain_controller1(g),
            _ => zero_gain_controller1(),
        },
        gain_controller2: match c.gain_controller {
            Some(config::GainController::GainController2(g)) => native_gain_controller2(g),
            _ => zero_gain_controller2(),
        },
    }
}

// The conversion itself.

impl native::DownmixMethod {
    /// The native downmix method for a configured one.
    pub fn from_config(m: config::DownmixMethod) -> (r: Self)
        ensures
            r == native_downmix(m),
    {
        match m {
            config::DownmixMethod::Average => native::DownmixMethod::AverageChannels,
            config::DownmixMethod::UseFirstChannel => native::DownmixMethod::UseFirstChannel,
        }
    }
}

impl native::Pipeline {
    /// The native pipeline for a configured one.
    pub fn from_config(p: config::Pipeline) -> (r: Self)
        ensures
            r == native_pipeline(p),
    {
        native::Pipeline {
            maximum_internal_processing_rate: p.maximum_internal_processing_rate.hz() as i32,
            multi_channel_render: p.multi_channel_render,
            multi_channel_capture: p.multi_channel_capture,
            capture_downmix_method: native::DownmixMethod::from_config(p.capture_downmix_method),
        }
    }
}

impl native::PreAmplifier {
    /// A configured pre-amplifier, switched on.
    pub fn from_config(p: config::PreAmplifier) -> (r: Self)
        ensures
            r == native_pre_amplifier(p),
    {
        native::PreAmplifier { enabled: true, fixed_gain_factor: p.fixed_gain_factor }
    }
}

impl native::AnalogMicGainEmulation {
    /// The analog mic gain emulation: on with the configured level, or off.
    pub fn from_config(e: Option<config::AnalogMicGainEmulation>) -> (r: Self)
        ensures
            r == native_analog_mic_gain_emulation(e),
    {
        match e {
            Some(e) => native::AnalogMicGainEmulation { enabled: true, initial_level: e.initial_level as i32 },
            None => native::AnalogMicGainEmulation::default(),
        }
    }
}

impl native::CaptureLevelAdjustment {
    /// A configured capture level adjustment, switched on.
    pub fn from_config(c: config::CaptureLevelAdjustment) -> (r: Self)
        ensures
            r == native_capture_level_adjustment(c),
    {
        native::CaptureLevelAdjustment {
            enabled: true,
            pre_gain_factor: c.pre_gain_factor,
            post_gain_factor: c.post_gain_factor,
            analog_mic_gain_emulation: native::AnalogMicGainEmulation::from_config(
                c.analog_mic_gain_emulation,
            ),
        }
    }
}

impl native::HighPassFilter {
    /// A configured high pass filter, switched on.
    pub fn from_config(h: config::HighPassFilter) -> (r: Self)
        ensures
            r == native_high_pass_filter(h),
    {
        native::HighPassFilter { enabled: true, apply_in_full_band: h.apply_in_full_band }
    }
}

impl native::EchoCanceller {
    /// A configured echo canceller, switched on, without linear output export.
    pub fn from_config(e: config::EchoCanceller) -> (r: Self)
        ensures
            r == native_echo_canceller(e),
    {
        match e {
            config::EchoCanceller::Mobile { .. } => native::EchoCanceller {
                enabled: true,
                mobile_mode: true,
                enforce_high_pass_filtering: false,
                export_linear_aec_output: false,
            },
            config::EchoCanceller::Full { .. } => native::EchoCanceller {
                enabled: true,
                mobile_mode: false,
                enforce_high_pass_filtering: true,
                export_linear_aec_output: false,
            },
        }
    }
}

impl native::NoiseSuppressionLevel {
    /// The native noise suppression level for a configured one.
    pub fn from_config(l: config::NoiseSuppressionLevel) -> (r: Self)
        ensures
            r == native_noise_suppression_level(l),
    {
        match l {
            config::NoiseSuppressionLevel::Low => native::NoiseSuppressionLevel::Low,
            config::NoiseSuppressionLevel::Moderate => native::NoiseSuppressionLevel::Moderate,
            config::NoiseSuppressionLevel::High => native::NoiseSuppressionLevel::High,
            config::NoiseSuppressionLevel::VeryHigh => native::NoiseSuppressionLevel::VeryHigh,
        }
    }
}

impl native::NoiseSuppression {
    /// A configured noise suppression, switched on.
    pub fn from_config(n: config::NoiseSuppression) -> (r: Self)
        ensures
            r == native_noise_suppression(n),
    {
        native::NoiseSuppression {
            enabled: true,
            level: native::NoiseSuppressionLevel::from_config(n.level),
            analyze_linear_aec_output_when_available: n.analyze_linear_aec_output,
        }
    }
}

impl native::GainControllerMode {
    /// The native gain controller 1 mode for a configured one.
    pub fn from_config(m: config::GainControllerMode) -> (r: Self)
        ensures
            r == native_gain_controller_mode(m),
    {
        match m {
            config::GainControllerMode::AdaptiveAnalog => native::GainControllerMode::AdaptiveAnalog,
            config::GainControllerMode::AdaptiveDigital => native::GainControllerMode::AdaptiveDigital,
            config::GainControllerMode::FixedDigital => native::GainControllerMode::FixedDigital,
        }
    }
}

impl native::ClippingPredictorMode {
    /// The native clipping predictor mode for a configured one.
    pub fn from_config(m: config::ClippingPredictorMode) -> (r: Self)
        ensures
            r == native_clipping_predictor_mode(m),
    {
        match m {
            config::ClippingPredictorMode::ClippingEventPrediction =>
                native::ClippingPredictorMode::ClippingEventPrediction,
            config::ClippingPredictorMode::AdaptiveStepClippingPeakPrediction =>
                native::ClippingPredictorMode::AdaptiveStepClippingPeakPrediction,
            config::ClippingPredictorMode::FixedStepClippingPeakPrediction =>
                native::ClippingPredictorMode::FixedStepClippingPeakPrediction,
        }
    }
}

impl native::ClippingPredictor {
    /// The clipping predictor: on with the configured values, or off.
    pub fn from_config(p: Option<config::ClippingPredictor>) -> (r: Self)
        ensures
            r == native_clipping_predictor(p),
    {
        match p {
            Some(p) => native::ClippingPredictor {
                enabled: true,
                mode: native::ClippingPredictorMode::from_config(p.mode),
                window_length: p.window_length,
                reference_window_length: p.reference_window_length,
                reference_window_delay: p.reference_window_delay,
                clipping_threshold: p.clipping_threshold,
                crest_factor_margin: p.crest_factor_margin,
                use_predicted_step: p.use_predicted_step,
            },
            None => native::ClippingPredictor::default(),
        }
    }
}

impl native::AnalogGainController {
    /// The analog gain controller: on with the configured values, or off.
    pub fn from_config(a: Option<config::AnalogGainController>) -> (r: Self)
        ensures
            r == native_analog_gain_controller(a),
    {
        match a {
            Some(a) => native::AnalogGainController {
                enabled: true,
                startup_min_volume: a.startup_min_volume,
                clipped_level_min: a.clipped_level_min,
                enable_digital_adaptive: a.enable_digital_adaptive,
                clipped_level_step: a.clipped_level_step,
                clipped_ratio_threshold: a.clipped_ratio_threshold,
                clipped_wait_frames: a.clipped_wait_frames,
                clipping_predictor: native::ClippingPredictor::from_config(a.clipping_predictor),
            },
            None => native::AnalogGainController::default(),
        }
    }
}

impl native::GainController1 {
    /// A configured gain controller 1, switched on.
    pub fn from_config(g: config::GainController1) -> (r: Self)
        ensures
            r == native_gain_controller1(g),
    {
        native::GainController1 {
            enabled: true,
            mode: native::GainControllerMode::from_config(g.mode),
            target_level_dbfs: g.target_level_dbfs as i32,
            compression_gain_db: g.compression_gain_db as i32,
            enable_limiter: g.enable_limiter,
            analog_gain_controller: native::AnalogGainController::from_config(
                g.analog_gain_controller,
            ),
        }
    }
}

impl native::AdaptiveDigital {
    /// The adaptive digital controller: on with the configured values, or off.
    pub fn from_config(a: Option<config::AdaptiveDigital>) -> (r: Self)
        ensures
            r == native_adaptive_digital(a),
    {
        match a {
            Some(a) => native::AdaptiveDigital {
                enabled: true,
                headroom_db: a.headroom_db,
                max_gain_db: a.max_gain_db,
                initial_gain_db: a.initial_gain_db,
                max_gain_change_db_per_second: a.max_gain_change_db_per_second,
                max_output_noise_level_dbfs: a.max_output_noise_level_dbfs,
            },
            None => native::AdaptiveDigital::default(),
        }
    }
}

impl native::GainController2 {
    /// A configured gain controller 2, switched on.
    pub fn from_config(g: config::GainController2) -> (r: Self)
        ensures
            r == native_gain_controller2(g),
    {
        native::GainController2 {
            enabled: true,
            input_volume_controller: native::InputVolumeController {
                enabled: g.input_volume_controller_enabled,
            },
            adaptive_digital: native::AdaptiveDigital::from_config(g.adaptive_digital),
            fixed_digital: native::FixedDigital { gain_db: g.fixed_digital.gain_db },
        }
    }
}

impl native::Config {
    /// The complete native configuration for a [`config::Config`].
    pub fn from_config(other: config::Config) -> (r: Self)
        ensures
            r == native_config(other),
    {
        let (pre_amplifier, capture_level_adjustment) = match other.capture_amplifier {
            Some(config::CaptureAmplifier::PreAmplifier(p)) => (
                native::PreAmplifier::from_config(p),
                native::CaptureLevelAdjustment::default(),
            ),
            Some(config::CaptureAmplifier::CaptureLevelAdjustment(a)) => (
                native::PreAmplifier::default(),
                native::CaptureLevelAdjustment::from_config(a),
            ),
            None => (native::PreAmplifier::default(), native::CaptureLevelAdjustment::default()),
        };

        let high_pass_filter = match other.high_pass_filter {
            Some(h) => native::HighPassFilter::from_config(h),
            None => native::HighPassFilter::default(),
        };

        let echo_canceller = match other.echo_canceller {
            Some(e) => {
                let mut echo_canceller = native::EchoCanceller::from_config(e);
                echo_canceller.export_linear_aec_output = match other.noise_suppression {
                    Some(ns) => ns.analyze_linear_aec_output,
                    None => false,
                };
                echo_canceller
            },
            None => native::EchoCanceller::default(),
        };

        let noise_suppression = match other.noise_suppression {
            Some(n) => native::NoiseSuppression::from_config(n),
            None => native::NoiseSuppression::default(),
        };

        let (gain_controller1, gain_controller2) = match other.gain_controller {
            Some(config::GainController::GainController1(g)) => (
                native::GainController1::from_config(g),
                native::GainController2::default(),
            ),
            Some(config::GainController::GainController2(g)) => (
                native::GainController1::default(),
                native::GainController2::from_config(g),
            ),
            None => (native::GainController1::default(), native::GainController2::default()),
        };

        native::Config {
            pipeline: native::Pipeline::from_config(other.pipeline),
            pre_amplifier,
            capture_level_adjustment,
            high_pass_filter,
            echo_canceller,
            noise_suppression,
            transient_suppression: native::TransientSuppression { enabled: false },
            gain_controller1,
            gain_controller2,
        }
    }
}

// What every conversion keeps.

/// The legacy pre-amplifier and the capture level adjustment are never both on: the native
/// module runs the pre-amplifier exactly when the configuration chose it, and the capture level
/// adjustment exactly when the configuration chose that.
pub proof fn lemma_capture_amplifiers_exclusive(c: config::Config)
    ensures
        !(native_config(c).pre_amplifier.enabled && native_config(c).capture_level_adjustment.enabled),
        native_config(c).pre_amplifier.enabled
            <==> (c.capture_amplifier matches Some(config::CaptureAmplifier::PreAmplifier(_))),
        native_config(c).capture_level_adjustment.enabled
            <==> (c.capture_amplifier matches Some(config::CaptureAmplifier::CaptureLevelAdjustment(_))),
{
}

/// At most one gain controller runs: gain controller 1 exactly when the configuration chose
/// it, gain controller 2 exactly when the configuration chose that.
pub proof fn lemma_gain_controllers_exclusive(c: config::Config)
    ensures
        !(native_config(c).gain_controller1.enabled && native_config(c).gain_controller2.enabled),
        native_config(c).gain_controller1.enabled
            <==> (c.gain_controller matches Some(config::GainController::GainController1(_))),
        native_config(c).gain_controller2.enabled
            <==> (c.gain_controller matches Some(config::GainController::GainController2(_))),
{
}

/// A submodule runs exactly when the configuration sets it; transient suppression never runs.
pub proof fn lemma_enabled_exactly_when_configured(c: config::Config)
    ensures
        native_config(c).high_pass_filter.enabled <==> c.high_pass_filter is Some,
        native_config(c).echo_canceller.enabled <==> c.echo_canceller is Some,
        native_config(c).noise_suppression.enabled <==> c.noise_suppression is Some,
        !native_config(c).transient_suppression.enabled,
{
}

/// The echo canceller exports its linear output exactly when it runs and noise suppression is
/// configured to analyze that output.
pub proof fn lemma_linear_aec_output_export(c: config::Config)
    ensures
        native_config(c).echo_canceller.export_linear_aec_output <==> {
            &&& c.echo_canceller is Some
            &&& c.noise_suppression matches Some(ns)
            &&& ns.analyze_linear_aec_output
        },
{
}

/// The Full echo canceller runs AEC3 with the high pass filter enforced; the Mobile one runs
/// AECM without it.
pub proof fn lemma_echo_canceller_variant(c: config::Config)
    ensures
        c.echo_canceller matches Some(config::EchoCanceller::Full { .. }) ==> {
            &&& !native_config(c).echo_canceller.mobile_mode
            &&& native_config(c).echo_canceller.enforce_high_pass_filtering
        },
        c.echo_canceller matches Some(config::EchoCanceller::Mobile { .. }) ==> {
            &&& native_config(c).echo_canceller.mobile_mode
            &&& !native_config(c).echo_canceller.enforce_high_pass_filtering
        },
{
}

/// The pipeline reaches the native module as configured: the rate limit as 32000 or 48000 Hz,
/// the multi-channel flags unchanged, and the downmix method of the same name.
pub proof fn lemma_pipeline_passes_through(c: config::Config)
    ensures
        c.pipeline.maximum_internal_processing_rate == config::PipelineProcessingRate::Max32000Hz
            ==> native_config(c).pipeline.maximum_internal_processing_rate == 32_000,
        c.pipeline.maximum_internal_processing_rate == config::PipelineProcessingRate::Max48000Hz
            ==> native_config(c).pipeline.maximum_internal_processing_rate == 48_000,
        native_config(c).pipeline.multi_channel_render == c.pipeline.multi_channel_render,
        native_config(c).pipeline.multi_channel_capture == c.pipeline.multi_channel_capture,
        (c.pipeline.capture_downmix_method == config::DownmixMethod::Average)
            <==> (native_config(c).pipeline.capture_downmix_method == native::DownmixMethod::AverageChannels),
        (c.pipeline.capture_downmix_method == config::DownmixMethod::UseFirstChannel)
            <==> (native_config(c).pipeline.capture_downmix_method == native::DownmixMethod::UseFirstChannel),
{
}

/// The chosen capture amplifier reaches the native module with the caller's gains and mic
/// emulation level; the emulation runs exactly when it is configured.
pub proof fn lemma_capture_amplifier_passes_through(c: config::Config)
    ensures
        c.capture_amplifier matches Some(config::CaptureAmplifier::PreAmplifier(p))
            ==> native_config(c).pre_amplifier.fixed_gain_factor == p.fixed_gain_factor,
        c.capture_amplifier matches Some(config::CaptureAmplifier::CaptureLevelAdjustment(a)) ==> {
            let n = native_config(c).capture_level_adjustment;
            &&& n.pre_gain_factor == a.pre_gain_factor
            &&& n.post_gain_factor == a.post_gain_factor
            &&& n.analog_mic_gain_emulation.enabled == (a.analog_mic_gain_emulation is Some)
            &&& (a.analog_mic_gain_emulation matches Some(e)
                ==> n.analog_mic_gain_emulation.initial_level == e.initial_level as int)
        },
{
}

/// The high pass filter reaches the native module with the caller's full-band choice.
pub proof fn lemma_high_pass_filter_passes_through(c: config::Config)
    ensures
        c.high_pass_filter matches Some(h)
            ==> native_config(c).high_pass_filter.apply_in_full_band == h.apply_in_full_band,
{
}

/// Noise suppression reaches the native module at the level of the same name, with the
/// caller's choice about the linear AEC output.
pub proof fn lemma_noise_suppression_passes_through(c: config::Config)
    ensures
        c.noise_suppression matches Some(n) ==> {
            let m = native_config(c).noise_suppression;
            &&& m.analyze_linear_aec_output_when_available == n.analyze_linear_aec_output
            &&& (n.level == config::NoiseSuppressionLevel::Low) <==> (m.level == native::NoiseSuppressionLevel::Low)
            &&& (n.level == config::NoiseSuppressionLevel::Moderate) <==> (m.level == native::NoiseSuppressionLevel::Moderate)
            &&& (n.level == config::NoiseSuppressionLevel::High) <==> (m.level == native::NoiseSuppressionLevel::High)
            &&& (n.level == config::NoiseSuppressionLevel::VeryHigh) <==> (m.level == native::NoiseSuppressionLevel::VeryHigh)
        },
{
}

/// Gain controller 1 reaches the native module with the caller's mode (of the same name),
/// target level, compression gain and limiter choice.
pub proof fn lemma_gain_controller1_passes_through(c: config::Config)
    ensures
        c.gain_controller matches Some(config::GainController::GainController1(g)) ==> {
            let n = native_config(c).gain_controller1;
            &&& n.target_level_dbfs == g.target_level_dbfs as int
            &&& n.compression_gain_db == g.compression_gain_db as int
            &&& n.enable_limiter == g.enable_limiter
            &&& (g.mode == config::GainControllerMode::AdaptiveAnalog) <==> (n.mode == native::GainControllerMode::AdaptiveAnalog)
            &&& (g.mode == config::GainControllerMode::AdaptiveDigital) <==> (n.mode == native::GainControllerMode::AdaptiveDigital)
            &&& (g.mode == config::GainControllerMode::FixedDigital) <==> (n.mode == native::GainControllerMode::FixedDigital)
            &&& n.analog_gain_controller.enabled == (g.analog_gain_controller is Some)
        },
{
}

/// A configured analog gain controller reaches the native module with every value the caller
/// set; its clipping predictor runs exactly when configured, with the caller's values and the
/// mode of the same name.
pub proof fn lemma_analog_gain_controller_passes_through(
    c: config::Config,
    g: config::GainController1,
    a: config::AnalogGainController,
)
    requires
        c.gain_controller == Some(config::GainController::GainController1(g)),
        g.analog_gain_controller == Some(a),
    ensures
        ({
            let n = native_config(c).gain_controller1.analog_gain_controller;
            &&& n.enabled
            &&& n.startup_min_volume == a.startup_min_volume
            &&& n.clipped_level_min == a.clipped_level_min
            &&& n.enable_digital_adaptive == a.enable_digital_adaptive
            &&& n.clipped_level_step == a.clipped_level_step
            &&& n.clipped_ratio_threshold == a.clipped_ratio_threshold
            &&& n.clipped_wait_frames == a.clipped_wait_frames
            &&& n.clipping_predictor.enabled == (a.clipping_predictor is Some)
        }),
        a.clipping_predictor matches Some(p) ==> {
            let n = native_config(c).gain_controller1.analog_gain_controller.clipping_predictor;
            &&& n.window_length == p.window_length
            &&& n.reference_window_length == p.reference_window_length
            &&& n.reference_window_delay == p.reference_window_delay
            &&& n.clipping_threshold == p.clipping_threshold
            &&& n.crest_factor_margin == p.crest_factor_margin
            &&& n.use_predicted_step == p.use_predicted_step
            &&& (p.mode == config::ClippingPredictorMode::ClippingEventPrediction)
                <==> (n.mode == native::ClippingPredictorMode::ClippingEventPrediction)
            &&& (p.mode == config::ClippingPredictorMode::AdaptiveStepClippingPeakPrediction)
                <==> (n.mode == native::ClippingPredictorMode::AdaptiveStepClippingPeakPrediction)
            &&& (p.mode == config::ClippingPredictorMode::FixedStepClippingPeakPrediction)
                <==> (n.mode == native::ClippingPredictorMode::FixedStepClippingPeakPrediction)
        },
{
}

/// Gain controller 2 reaches the native module with the caller's input volume controller
/// choice and fixed gain; its adaptive digital controller runs exactly when configured, with
/// every value the caller set.
pub proof fn lemma_gain_controller2_passes_through(c: config::Config)
    ensures
        c.gain_controller matches Some(config::GainController::GainController2(g)) ==> {
            let n = native_config(c).gain_controller2;
            &&& n.input_volume_controller.enabled == g.input_volume_controller_enabled
            &&& n.fixed_digital.gain_db == g.fixed_digital.gain_db
            &&& n.adaptive_digital.enabled == (g.adaptive_digital is Some)
            &&& (g.adaptive_digital matches Some(a) ==> {
                &&& n.adaptive_digital.headroom_db == a.headroom_db
                &&& n.adaptive_digital.max_gain_db == a.max_gain_db
                &&& n.adaptive_digital.initial_gain_db == a.initial_gain_db
                &&& n.adaptive_digital.max_gain_change_db_per_second == a.max_gain_change_db_per_second
                &&& n.adaptive_digital.max_output_noise_level_dbfs == a.max_output_noise_level_dbfs
            })
        },
{
}

/// A submodule that the configuration leaves out reaches the native module as all zeros:
/// every flag off and every number zero.
pub proof fn lemma_left_out_submodules_are_zero(c: config::Config)
    ensures
        !(c.capture_amplifier matches Some(config::CaptureAmplifier::PreAmplifier(_))) ==> {
            let n = native_config(c).pre_amplifier;
            !n.enabled && n.fixed_gain_factor.0 == 0
        },
        !(c.capture_amplifier matches Some(config::CaptureAmplifier::CaptureLevelAdjustment(_))) ==> {
            let n = native_config(c).capture_level_adjustment;
            &&& !n.enabled
            &&& n.pre_gain_factor.0 == 0
            &&& n.post_gain_factor.0 == 0
            &&& !n.analog_mic_gain_emulation.enabled
            &&& n.analog_mic_gain_emulation.initial_level == 0
        },
        c.high_pass_filter is None ==> {
            let n = native_config(c).high_pass_filter;
            !n.enabled && !n.apply_in_full_band
        },
        c.echo_canceller is None ==> {
            let n = native_config(c).echo_canceller;
            &&& !n.enabled
            &&& !n.mobile_mode
            &&& !n.enforce_high_pass_filtering
            &&& !n.export_linear_aec_output
        },
        c.noise_suppression is None ==> {
            let n = native_config(c).noise_suppression;
            &&& !n.enabled
            &&& n.level == native::NoiseSuppressionLevel::Low
            &&& !n.analyze_linear_aec_output_when_available
        },
        !(c.gain_controller matches Some(config::GainController::GainController1(_))) ==> {
            let n = native_config(c).gain_controller1;
            &&& !n.enabled
            &&& n.mode == native::GainControllerMode::AdaptiveAnalog
            &&& n.target_level_dbfs == 0
            &&& n.compression_gain_db == 0
            &&& !n.enable_limiter
            &&& !n.analog_gain_controller.enabled
        },
        !(c.gain_controller matches Some(config::GainController::GainController2(_))) ==> {
            let n = native_config(c).gain_controller2;
            &&& !n.enabled
            &&& !n.input_volume_controller.enabled
            &&& !n.adaptive_digital.enabled
            &&& n.fixed_digital.gain_db.0 == 0
        },
{
}

/// A left-out analog gain controller or clipping predictor reaches the native module as all
/// zeros.
pub proof fn lemma_left_out_agc_parts_are_zero(c: config::Config, g: config::GainController1)
    requires
        c.gain_controller == Some(config::GainController::GainController1(g)),
    ensures
        g.analog_gain_controller is None ==> {
            let n = native_config(c).gain_controller1.analog_gain_controller;
            &&& !n.enabled
            &&& n.startup_min_volume == 0
            &&& n.clipped_level_min == 0
            &&& !n.enable_digital_adaptive
            &&& n.clipped_level_step == 0
            &&& n.clipped_ratio_threshold.0 == 0
            &&& n.clipped_wait_frames == 0
            &&& !n.clipping_predictor.enabled
        },
        (g.analog_gain_controller matches Some(a) && a.clipping_predictor is None) ==> {
            let n = native_config(c).gain_controller1.analog_gain_controller.clipping_predictor;
            &&& !n.enabled
            &&& n.mode == native::ClippingPredictorMode::ClippingEventPrediction
            &&& n.window_length == 0
            &&& n.reference_window_length == 0
            &&& n.reference_window_delay == 0
            &&& n.clipping_threshold.0 == 0
            &&& n.crest_factor_margin.0 == 0
            &&& !n.use_predicted_step
        },
{
}

} // verus!
