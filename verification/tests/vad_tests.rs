use dictation_core::detector::{VadFrameProcessor, VoiceActivityDetector};
use dictation_core::vad::{Hysteresis, VadAggressiveness, VadConfig, VadEvent, VadSignal};

#[test]
fn test_vad_config_default() {
    let config = VadConfig::default();
    assert_eq!(config.frame_duration_ms, 10);
    assert_eq!(config.hangover_frames, 30);
    assert_eq!(config.pre_roll_ms, 300);
}

#[test]
fn test_vad_creation() {
    let vad = VoiceActivityDetector::new(VadConfig::default());
    assert!(!vad.is_speaking());
    assert_eq!(vad.frame_size(), 160); // 10ms at 16kHz
}

#[test]
fn test_vad_frame_size() {
    let config = VadConfig { frame_duration_ms: 20, ..Default::default() };
    let vad = VoiceActivityDetector::new(config);
    assert_eq!(vad.frame_size(), 320); // 20ms at 16kHz
}

#[test]
fn test_vad_reset() {
    let mut vad = VoiceActivityDetector::new(VadConfig::default());
    // Process some frames to change state
    let silence = vec![0i16; 160];
    for _ in 0..10 {
        vad.process_frame(&silence);
    }
    vad.reset();
    assert!(!vad.is_speaking());
}

#[test]
fn test_vad_with_silence() {
    let config = VadConfig::default();
    let mut vad = VoiceActivityDetector::new(config);

    // Process silence - should not detect speech
    // Frame size for 10ms at 16kHz = 160 samples
    let silence = vec![0i16; 160];
    let event = vad.process_frame(&silence);

    // Silence should not trigger speech start
    assert!(
        !matches!(event, VadEvent::SpeechStart { .. }),
        "Silence should not trigger speech start"
    );
}

#[test]
fn test_vad_config_defaults() {
    let config = VadConfig::default();

    // Verify reasonable defaults
    assert!(config.speech_frames_threshold > 0);
    assert!(config.hangover_frames > 0);
    assert!(config.pre_roll_ms > 0);
    assert!(config.frame_duration_ms > 0);
    assert!(config.sample_rate > 0);
}

#[test]
fn test_vad_multiple_silence_frames() {
    let config = VadConfig::default();
    let mut vad = VoiceActivityDetector::new(config);

    // Process multiple frames of silence
    let silence = vec![0i16; 160];
    for _ in 0..10 {
        let event = vad.process_frame(&silence);
        // Should never start speech on pure silence
        assert!(
            !matches!(event, VadEvent::SpeechStart { .. }),
            "Should not detect speech in silence"
        );
    }
}

#[test]
fn test_vad_creation_with_custom_config() {
    let config = VadConfig {
        speech_frames_threshold: 5,
        hangover_frames: 50,
        pre_roll_ms: 500,
        frame_duration_ms: 20,
        sample_rate: 16000,
        ..Default::default()
    };

    let vad = VoiceActivityDetector::new(config);
    // Just verify creation doesn't panic
    assert!(!vad.is_speaking());
}

#[test]
fn vad_config_default_values() {
    let config = VadConfig::default();
    assert_eq!(config.aggressiveness, VadAggressiveness::Aggressive);
    assert_eq!(config.speech_frames_threshold, 3);
    assert_eq!(config.sample_rate, 16000);
    assert_eq!(VadAggressiveness::default(), VadAggressiveness::Aggressive);
    let vad = VoiceActivityDetector::new(VadConfig { frame_duration_ms: 30, ..config });
    assert_eq!(vad.frame_size(), 480);
    assert_eq!(vad.config().frame_duration_ms, 30);
}

#[test]
fn speech_start_comes_once_at_the_threshold() {
    let config = VadConfig::default();
    let mut h = Hysteresis::new();
    assert_eq!(h.step(&config, true), VadSignal::NoEvent);
    assert_eq!(h.step(&config, true), VadSignal::NoEvent);
    assert_eq!(h.step(&config, true), VadSignal::SpeechStart);
    assert!(h.is_speaking);
    for _ in 0..100 {
        assert_eq!(h.step(&config, true), VadSignal::NoEvent);
    }
    assert_eq!(h.speech_frames, 103);
    assert_eq!(h.silence_frames, 0);
}

#[test]
fn speech_end_comes_once_after_the_hangover() {
    let config = VadConfig { hangover_frames: 4, ..Default::default() };
    let mut h = Hysteresis { is_speaking: true, speech_frames: 7, silence_frames: 0 };
    assert_eq!(h.step(&config, false), VadSignal::NoEvent);
    assert_eq!(h.speech_frames, 0);
    assert_eq!(h.step(&config, false), VadSignal::NoEvent);
    assert_eq!(h.step(&config, false), VadSignal::NoEvent);
    assert_eq!(h.step(&config, false), VadSignal::SpeechEnd);
    assert!(!h.is_speaking);
    for _ in 0..20 {
        assert_eq!(h.step(&config, false), VadSignal::NoEvent);
    }
}

#[test]
fn mixed_frames_below_the_thresholds_report_nothing() {
    let config = VadConfig { speech_frames_threshold: 3, hangover_frames: 3, ..Default::default() };
    let mut h = Hysteresis::new();
    for speech in [true, true, false, true, false, false, true, true, false] {
        assert_eq!(h.step(&config, speech), VadSignal::NoEvent);
    }
    assert!(!h.is_speaking);
    let mut speaking = Hysteresis { is_speaking: true, speech_frames: 3, silence_frames: 0 };
    for speech in [false, false, true, false, true, true, false, false, true] {
        assert_eq!(speaking.step(&config, speech), VadSignal::NoEvent);
    }
    assert!(speaking.is_speaking);
}

#[test]
fn zero_thresholds_cross_at_the_first_frame() {
    let config = VadConfig { speech_frames_threshold: 0, hangover_frames: 0, ..Default::default() };
    let mut h = Hysteresis::new();
    assert_eq!(h.step(&config, false), VadSignal::NoEvent);
    assert_eq!(h.step(&config, true), VadSignal::SpeechStart);
    assert_eq!(h.step(&config, true), VadSignal::NoEvent);
    assert_eq!(h.step(&config, false), VadSignal::SpeechEnd);
    assert_eq!(h.step(&config, false), VadSignal::NoEvent);
}

#[test]
fn run_counters_stop_at_the_largest_value() {
    let config = VadConfig::default();
    let mut h = Hysteresis { is_speaking: true, speech_frames: u32::MAX, silence_frames: 0 };
    assert_eq!(h.step(&config, true), VadSignal::NoEvent);
    assert_eq!(h.speech_frames, u32::MAX);
    let mut quiet = Hysteresis { is_speaking: false, speech_frames: 0, silence_frames: u32::MAX };
    assert_eq!(quiet.step(&config, false), VadSignal::NoEvent);
    assert_eq!(quiet.silence_frames, u32::MAX);
}

#[test]
fn speech_start_carries_the_pre_roll_oldest_first() {
    let config = VadConfig {
        speech_frames_threshold: 2,
        hangover_frames: 2,
        pre_roll_ms: 30,
        frame_duration_ms: 10,
        ..Default::default()
    };
    let mut vad = VoiceActivityDetector::new(config);
    assert!(matches!(vad.process_classified_frame(&[1, 1], false), VadEvent::NoEvent));
    assert!(matches!(vad.process_classified_frame(&[2, 2], false), VadEvent::NoEvent));
    assert!(matches!(vad.process_classified_frame(&[3, 3], true), VadEvent::NoEvent));
    let event = vad.process_classified_frame(&[4, 4], true);
    assert!(matches!(&event, VadEvent::SpeechStart { pre_roll } if pre_roll == &vec![2, 2, 3, 3, 4, 4]));
    assert!(vad.is_speaking());
    assert!(matches!(vad.process_classified_frame(&[5], true), VadEvent::NoEvent));
    assert!(matches!(vad.process_classified_frame(&[6], false), VadEvent::NoEvent));
    assert!(matches!(vad.process_classified_frame(&[7], false), VadEvent::SpeechEnd));
    assert!(!vad.is_speaking());
    assert!(matches!(vad.process_classified_frame(&[8], true), VadEvent::NoEvent));
    let again = vad.process_classified_frame(&[9], true);
    assert!(matches!(&again, VadEvent::SpeechStart { pre_roll } if pre_roll == &vec![7, 8, 9]));
}

#[test]
fn pre_roll_of_zero_capacity_is_empty_and_reset_clears() {
    let config = VadConfig {
        speech_frames_threshold: 1,
        pre_roll_ms: 5,
        frame_duration_ms: 10,
        ..Default::default()
    };
    let mut vad = VoiceActivityDetector::new(config);
    let event = vad.process_classified_frame(&[1, 2, 3], true);
    assert!(matches!(&event, VadEvent::SpeechStart { pre_roll } if pre_roll.is_empty()));

    let mut ring = VoiceActivityDetector::new(VadConfig {
        speech_frames_threshold: 2,
        ..Default::default()
    });
    assert!(matches!(ring.process_classified_frame(&[1], true), VadEvent::NoEvent));
    ring.reset();
    assert!(!ring.is_speaking());
    assert!(matches!(ring.process_classified_frame(&[2], true), VadEvent::NoEvent));
    let event = ring.process_classified_frame(&[3], true);
    assert!(matches!(&event, VadEvent::SpeechStart { pre_roll } if pre_roll == &vec![2, 3]));
}

#[test]
fn frames_of_the_wrong_size_count_as_silence() {
    let mut vad = VoiceActivityDetector::new(VadConfig {
        speech_frames_threshold: 1,
        ..Default::default()
    });
    for _ in 0..5 {
        let event = vad.process_frame(&[i16::MAX; 7]);
        assert!(matches!(event, VadEvent::NoEvent));
    }
    assert!(!vad.is_speaking());
}

#[test]
fn test_frame_processor_creation() {
    let processor = VadFrameProcessor::new(VadConfig::default(), 44100);
    assert!(!processor.is_speaking());
}

#[test]
fn source_frame_size_scales_with_the_rate_and_rounds_up() {
    assert_eq!(VadFrameProcessor::new(VadConfig::default(), 16000).source_frame_size(), 160);
    assert_eq!(VadFrameProcessor::new(VadConfig::default(), 44100).source_frame_size(), 441);
    assert_eq!(VadFrameProcessor::new(VadConfig::default(), 48000).source_frame_size(), 480);
    assert_eq!(VadFrameProcessor::new(VadConfig::default(), 22050).source_frame_size(), 221);
    assert_eq!(VadFrameProcessor::new(VadConfig::default(), 0).source_frame_size(), 0);
    let long = VadConfig { frame_duration_ms: 30, ..Default::default() };
    assert_eq!(VadFrameProcessor::new(long, 8000).source_frame_size(), 240);
    assert_eq!(VadFrameProcessor::new(long, u32::MAX).source_frame_size(), 128_849_019);
}

#[test]
fn the_processor_feeds_whole_frames_and_keeps_the_rest() {
    let mut processor = VadFrameProcessor::new(VadConfig::default(), 16000);
    assert!(processor.process(&[0; 100]).is_empty());
    assert_eq!(processor.pending_len(), 100);
    assert!(processor.process(&[0; 60]).is_empty());
    assert_eq!(processor.pending_len(), 0);
    assert!(processor.process(&[0; 500]).is_empty());
    assert_eq!(processor.pending_len(), 20);
    assert!(processor.process(&[]).is_empty());
    assert_eq!(processor.pending_len(), 20);
    for _ in 0..50 {
        let events = processor.process(&[0; 333]);
        assert!(events.iter().all(|e| !matches!(e, VadEvent::SpeechStart { .. })));
        assert!(processor.pending_len() < 160);
    }
    assert!(!processor.is_speaking());
    processor.reset();
    assert_eq!(processor.pending_len(), 0);
    assert!(!processor.is_speaking());
}

#[test]
fn usable_configurations() {
    assert!(VadConfig::default().is_usable());
    assert!(!VadConfig { frame_duration_ms: 0, ..Default::default() }.is_usable());
    assert!(VadConfig { frame_duration_ms: 268_435, ..Default::default() }.is_usable());
    assert!(!VadConfig { frame_duration_ms: 268_436, ..Default::default() }.is_usable());
    assert!(!VadConfig { frame_duration_ms: u32::MAX, ..Default::default() }.is_usable());
}
