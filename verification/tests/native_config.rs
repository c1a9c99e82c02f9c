use webrtc_audio_processing::config::{
    AdaptiveDigital, AnalogGainController, AnalogMicGainEmulation, CaptureAmplifier,
    CaptureLevelAdjustment, ClippingPredictor, ClippingPredictorMode, Config, DownmixMethod,
    EchoCanceller, F32Bits, FixedDigital, GainController, GainController1, GainController2,
    GainControllerMode, HighPassFilter, NoiseSuppression, NoiseSuppressionLevel, Pipeline,
    PipelineProcessingRate, PreAmplifier,
};
use webrtc_audio_processing::native;

fn bits(x: f32) -> F32Bits {
    F32Bits(x.to_bits())
}

fn to_native(c: Config) -> native::Config {
    native::Config::from_config(c)
}

#[test]
fn default_config_reaches_native_all_off() {
    let n = to_native(Config::default());
    assert_eq!(n.pipeline.maximum_internal_processing_rate, 48_000);
    assert_eq!(n.pipeline.capture_downmix_method, native::DownmixMethod::AverageChannels);
    assert_eq!(n.pre_amplifier, native::PreAmplifier::default());
    assert_eq!(n.capture_level_adjustment, native::CaptureLevelAdjustment::default());
    assert_eq!(n.high_pass_filter, native::HighPassFilter::default());
    assert_eq!(n.echo_canceller, native::EchoCanceller::default());
    assert_eq!(n.noise_suppression, native::NoiseSuppression::default());
    assert!(!n.transient_suppression.enabled);
    assert_eq!(n.gain_controller1, native::GainController1::default());
    assert_eq!(n.gain_controller2, native::GainController2::default());
}

#[test]
fn native_defaults_are_all_zero() {
    let p = native::PreAmplifier::default();
    assert!(!p.enabled);
    assert_eq!(p.fixed_gain_factor, F32Bits(0));
    let ns = native::NoiseSuppression::default();
    assert!(!ns.enabled);
    assert_eq!(ns.level, native::NoiseSuppressionLevel::Low);
    let g1 = native::GainController1::default();
    assert_eq!(g1.mode, native::GainControllerMode::AdaptiveAnalog);
    assert_eq!(g1.target_level_dbfs, 0);
    assert!(!g1.analog_gain_controller.enabled);
    assert!(!g1.analog_gain_controller.clipping_predictor.enabled);
}

#[test]
fn pipeline_values_pass_through() {
    let c = Config {
        pipeline: Pipeline {
            maximum_internal_processing_rate: PipelineProcessingRate::Max32000Hz,
            multi_channel_render: true,
            multi_channel_capture: false,
            capture_downmix_method: DownmixMethod::UseFirstChannel,
        },
        ..Config::default()
    };
    let n = to_native(c);
    assert_eq!(n.pipeline.maximum_internal_processing_rate, 32_000);
    assert!(n.pipeline.multi_channel_render);
    assert!(!n.pipeline.multi_channel_capture);
    assert_eq!(n.pipeline.capture_downmix_method, native::DownmixMethod::UseFirstChannel);
}

#[test]
fn pre_amplifier_excludes_capture_level_adjustment() {
    let c = Config {
        capture_amplifier: Some(CaptureAmplifier::PreAmplifier(PreAmplifier {
            fixed_gain_factor: bits(2.5),
        })),
        ..Config::default()
    };
    let n = to_native(c);
    assert!(n.pre_amplifier.enabled);
    assert_eq!(n.pre_amplifier.fixed_gain_factor, bits(2.5));
    assert!(!n.capture_level_adjustment.enabled);
}

#[test]
fn capture_level_adjustment_excludes_pre_amplifier() {
    let c = Config {
        capture_amplifier: Some(CaptureAmplifier::CaptureLevelAdjustment(CaptureLevelAdjustment {
            pre_gain_factor: bits(0.5),
            post_gain_factor: bits(2.0),
            analog_mic_gain_emulation: Some(AnalogMicGainEmulation { initial_level: 200 }),
        })),
        ..Config::default()
    };
    let n = to_native(c);
    assert!(!n.pre_amplifier.enabled);
    let cla = n.capture_level_adjustment;
    assert!(cla.enabled);
    assert_eq!(cla.pre_gain_factor, bits(0.5));
    assert_eq!(cla.post_gain_factor, bits(2.0));
    assert!(cla.analog_mic_gain_emulation.enabled);
    assert_eq!(cla.analog_mic_gain_emulation.initial_level, 200);
}

#[test]
fn capture_level_adjustment_without_mic_emulation() {
    let c = Config {
        capture_amplifier: Some(CaptureAmplifier::CaptureLevelAdjustment(
            CaptureLevelAdjustment::default(),
        )),
        ..Config::default()
    };
    let n = to_native(c);
    assert!(n.capture_level_adjustment.enabled);
    assert_eq!(
        n.capture_level_adjustment.analog_mic_gain_emulation,
        native::AnalogMicGainEmulation::default()
    );
}

#[test]
fn high_pass_filter_passes_full_band_flag() {
    let c = Config {
        high_pass_filter: Some(HighPassFilter { apply_in_full_band: false }),
        ..Config::default()
    };
    let n = to_native(c);
    assert!(n.high_pass_filter.enabled);
    assert!(!n.high_pass_filter.apply_in_full_band);
}

#[test]
fn full_echo_canceller_enforces_high_pass() {
    let c = Config { echo_canceller: Some(EchoCanceller::default()), ..Config::default() };
    let ec = to_native(c).echo_canceller;
    assert!(ec.enabled);
    assert!(!ec.mobile_mode);
    assert!(ec.enforce_high_pass_filtering);
    assert!(!ec.export_linear_aec_output);
}

#[test]
fn mobile_echo_canceller_runs_aecm() {
    let c = Config {
        echo_canceller: Some(EchoCanceller::Mobile { stream_delay_ms: 0 }),
        ..Config::default()
    };
    let ec = to_native(c).echo_canceller;
    assert!(ec.enabled);
    assert!(ec.mobile_mode);
    assert!(!ec.enforce_high_pass_filtering);
}

#[test]
fn noise_suppression_can_export_linear_aec_output() {
    let ns = NoiseSuppression { level: NoiseSuppressionLevel::VeryHigh, analyze_linear_aec_output: true };
    let with_aec = Config {
        echo_canceller: Some(EchoCanceller::default()),
        noise_suppression: Some(ns),
        ..Config::default()
    };
    let n = to_native(with_aec);
    assert!(n.echo_canceller.export_linear_aec_output);
    assert!(n.noise_suppression.enabled);
    assert_eq!(n.noise_suppression.level, native::NoiseSuppressionLevel::VeryHigh);
    assert!(n.noise_suppression.analyze_linear_aec_output_when_available);

    let without_aec = Config { noise_suppression: Some(ns), ..Config::default() };
    let n = to_native(without_aec);
    assert!(!n.echo_canceller.enabled);
    assert!(!n.echo_canceller.export_linear_aec_output);

    let not_asked = Config {
        echo_canceller: Some(EchoCanceller::default()),
        noise_suppression: Some(NoiseSuppression::default()),
        ..Config::default()
    };
    let n = to_native(not_asked);
    assert!(!n.echo_canceller.export_linear_aec_output);
    assert_eq!(n.noise_suppression.level, native::NoiseSuppressionLevel::Moderate);
}

#[test]
fn noise_suppression_levels() {
    let levels = [
        (NoiseSuppressionLevel::Low, native::NoiseSuppressionLevel::Low),
        (NoiseSuppressionLevel::Moderate, native::NoiseSuppressionLevel::Moderate),
        (NoiseSuppressionLevel::High, native::NoiseSuppressionLevel::High),
        (NoiseSuppressionLevel::VeryHigh, native::NoiseSuppressionLevel::VeryHigh),
    ];
    for (level, expected) in levels {
        assert_eq!(native::NoiseSuppressionLevel::from_config(level), expected);
    }
}

#[test]
fn gain_controller1_with_analog_controller_and_predictor() {
    let g1 = GainController1 {
        mode: GainControllerMode::FixedDigital,
        target_level_dbfs: 7,
        compression_gain_db: 20,
        enable_limiter: false,
        analog_gain_controller: Some(AnalogGainController {
            clipping_predictor: Some(ClippingPredictor {
                mode: ClippingPredictorMode::FixedStepClippingPeakPrediction,
                ..ClippingPredictor::default()
            }),
            ..AnalogGainController::default()
        }),
    };
    let n = to_native(Config { gain_controller: Some(GainController::GainController1(g1)), ..Config::default() });
    assert!(n.gain_controller1.enabled);
    assert!(!n.gain_controller2.enabled);
    assert_eq!(n.gain_controller1.mode, native::GainControllerMode::FixedDigital);
    assert_eq!(n.gain_controller1.target_level_dbfs, 7);
    assert_eq!(n.gain_controller1.compression_gain_db, 20);
    assert!(!n.gain_controller1.enable_limiter);
    let agc = n.gain_controller1.analog_gain_controller;
    assert!(agc.enabled);
    assert_eq!(agc.clipped_level_min, 70);
    assert_eq!(agc.clipped_level_step, 15);
    assert_eq!(agc.clipped_ratio_threshold, bits(0.1));
    assert_eq!(agc.clipped_wait_frames, 300);
    assert!(agc.enable_digital_adaptive);
    let cp = agc.clipping_predictor;
    assert!(cp.enabled);
    assert_eq!(cp.mode, native::ClippingPredictorMode::FixedStepClippingPeakPrediction);
    assert_eq!(cp.window_length, 5);
    assert_eq!(cp.clipping_threshold, bits(-1.0));
    assert_eq!(cp.crest_factor_margin, bits(3.0));
    assert!(cp.use_predicted_step);
}

#[test]
fn gain_controller1_without_analog_controller() {
    let n = to_native(Config {
        gain_controller: Some(GainController::GainController1(GainController1::default())),
        ..Config::default()
    });
    assert!(n.gain_controller1.enabled);
    assert_eq!(n.gain_controller1.mode, native::GainControllerMode::AdaptiveAnalog);
    assert_eq!(n.gain_controller1.analog_gain_controller, native::AnalogGainController::default());
}

#[test]
fn gain_controller2_with_adaptive_digital() {
    let g2 = GainController2 {
        input_volume_controller_enabled: true,
        adaptive_digital: Some(AdaptiveDigital::default()),
        fixed_digital: FixedDigital { gain_db: bits(4.0) },
    };
    let n = to_native(Config { gain_controller: Some(GainController::GainController2(g2)), ..Config::default() });
    assert!(!n.gain_controller1.enabled);
    let g = n.gain_controller2;
    assert!(g.enabled);
    assert!(g.input_volume_controller.enabled);
    assert!(g.adaptive_digital.enabled);
    assert_eq!(g.adaptive_digital.headroom_db, bits(5.0));
    assert_eq!(g.adaptive_digital.max_output_noise_level_dbfs, bits(-50.0));
    assert_eq!(g.fixed_digital.gain_db, bits(4.0));
}

#[test]
fn gain_controller2_without_adaptive_digital() {
    let n = to_native(Config {
        gain_controller: Some(GainController::GainController2(GainController2::default())),
        ..Config::default()
    });
    assert!(n.gain_controller2.enabled);
    assert!(!n.gain_controller2.input_volume_controller.enabled);
    assert_eq!(n.gain_controller2.adaptive_digital, native::AdaptiveDigital::default());
}

#[test]
fn enum_translations() {
    assert_eq!(native::DownmixMethod::from_config(DownmixMethod::Average), native::DownmixMethod::AverageChannels);
    assert_eq!(
        native::GainControllerMode::from_config(GainControllerMode::AdaptiveDigital),
        native::GainControllerMode::AdaptiveDigital
    );
    assert_eq!(
        native::ClippingPredictorMode::from_config(ClippingPredictorMode::AdaptiveStepClippingPeakPrediction),
        native::ClippingPredictorMode::AdaptiveStepClippingPeakPrediction
    );
}
