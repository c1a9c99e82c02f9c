use webrtc_audio_processing::config::{
    AdaptiveDigital, AnalogGainController, AnalogMicGainEmulation, CaptureLevelAdjustment,
    ClippingPredictor, ClippingPredictorMode, Config, DownmixMethod, EchoCanceller, F32Bits,
    FixedDigital, GainController1, GainController2, GainControllerMode, HighPassFilter,
    InitializationConfig, NoiseSuppression, NoiseSuppressionLevel, Pipeline,
    PipelineProcessingRate, PreAmplifier,
};

fn bits(x: f32) -> F32Bits {
    F32Bits(x.to_bits())
}

#[test]
fn initialization_config_default_is_mono_48k() {
    let c = InitializationConfig::default();
    assert_eq!(c.num_capture_channels, 1);
    assert_eq!(c.num_render_channels, 1);
    assert_eq!(c.sample_rate_hz, 48_000);
}

#[test]
fn config_default_switches_every_submodule_off() {
    let c = Config::default();
    assert_eq!(c.pipeline, Pipeline::default());
    assert!(c.capture_amplifier.is_none());
    assert!(c.high_pass_filter.is_none());
    assert!(c.echo_canceller.is_none());
    assert!(c.noise_suppression.is_none());
    assert!(c.gain_controller.is_none());
}

#[test]
fn pipeline_default_is_48k_mono_average() {
    let p = Pipeline::default();
    assert_eq!(p.maximum_internal_processing_rate, PipelineProcessingRate::Max48000Hz);
    assert!(!p.multi_channel_render);
    assert!(!p.multi_channel_capture);
    assert_eq!(p.capture_downmix_method, DownmixMethod::Average);
}

#[test]
fn processing_rate_in_hz() {
    assert_eq!(PipelineProcessingRate::Max32000Hz.hz(), 32_000);
    assert_eq!(PipelineProcessingRate::Max48000Hz.hz(), 48_000);
    assert_eq!(PipelineProcessingRate::default(), PipelineProcessingRate::Max48000Hz);
}

#[test]
fn float_defaults_hold_the_exact_bits() {
    assert_eq!(PreAmplifier::default().fixed_gain_factor, bits(1.0));
    let cla = CaptureLevelAdjustment::default();
    assert_eq!(cla.pre_gain_factor, bits(1.0));
    assert_eq!(cla.post_gain_factor, bits(1.0));
    assert!(cla.analog_mic_gain_emulation.is_none());
    assert_eq!(FixedDigital::default().gain_db, bits(0.0));

    let ad = AdaptiveDigital::default();
    assert_eq!(ad.headroom_db, bits(5.0));
    assert_eq!(ad.max_gain_db, bits(50.0));
    assert_eq!(ad.initial_gain_db, bits(15.0));
    assert_eq!(ad.max_gain_change_db_per_second, bits(6.0));
    assert_eq!(ad.max_output_noise_level_dbfs, bits(-50.0));
}

#[test]
fn submodule_defaults() {
    assert_eq!(AnalogMicGainEmulation::default().initial_level, 255);
    assert!(HighPassFilter::default().apply_in_full_band);
    assert_eq!(EchoCanceller::default(), EchoCanceller::Full { stream_delay_ms: None });
    assert_eq!(
        NoiseSuppression::default(),
        NoiseSuppression { level: NoiseSuppressionLevel::Moderate, analyze_linear_aec_output: false }
    );
}

#[test]
fn gain_controller_defaults() {
    let g1 = GainController1::default();
    assert_eq!(g1.mode, GainControllerMode::AdaptiveAnalog);
    assert_eq!(g1.target_level_dbfs, 3);
    assert_eq!(g1.compression_gain_db, 9);
    assert!(g1.enable_limiter);
    assert!(g1.analog_gain_controller.is_none());

    let agc = AnalogGainController::default();
    assert_eq!(agc.startup_min_volume, 0);
    assert_eq!(agc.clipped_level_min, 70);
    assert!(agc.enable_digital_adaptive);
    assert_eq!(agc.clipped_level_step, 15);
    assert_eq!(agc.clipped_ratio_threshold, bits(0.1));
    assert_eq!(agc.clipped_wait_frames, 300);
    assert!(agc.clipping_predictor.is_none());

    let cp = ClippingPredictor::default();
    assert_eq!(cp.mode, ClippingPredictorMode::ClippingEventPrediction);
    assert_eq!(cp.window_length, 5);
    assert_eq!(cp.reference_window_length, 5);
    assert_eq!(cp.reference_window_delay, 5);
    assert_eq!(cp.clipping_threshold, bits(-1.0));
    assert_eq!(cp.crest_factor_margin, bits(3.0));
    assert!(cp.use_predicted_step);

    let g2 = GainController2::default();
    assert!(!g2.input_volume_controller_enabled);
    assert!(g2.adaptive_digital.is_none());
    assert_eq!(g2.fixed_digital, FixedDigital { gain_db: bits(0.0) });
}
