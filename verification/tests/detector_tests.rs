use silence_remover::config::VadConfig;
use silence_remover::detector::VoiceActivityDetector;

fn default_config() -> VadConfig {
    VadConfig::default()
}

/// A frame whose energies sit well above the threshold fraction of the
/// min-max range: half zeros, half a loud value.
fn loud_frame(frame_size: usize, value: i32) -> Vec<i32> {
    let mut f = Vec::new();
    for i in 0..frame_size {
        f.push(if i % 2 == 0 { 0 } else { value });
    }
    f
}

#[test]
fn first_zero_frame_is_voiced_with_counter_one() {
    let cfg = default_config();
    let mut vad = VoiceActivityDetector::new(cfg);
    let samples = vec![0i32; cfg.frame_size];
    let voiced = vad.is_voice(&samples, 0);
    assert!(voiced);
    assert_eq!(vad.silence_count(), 1);
    assert_eq!(vad.frames_seen(), 1);
}

#[test]
fn voiced_frame_resets_silence_counter() {
    let cfg = default_config();
    let mut vad = VoiceActivityDetector::new(cfg);
    let mut samples = loud_frame(cfg.frame_size, 1000);
    samples.extend(vec![0i32; 2 * cfg.frame_size]);

    let voiced = vad.is_voice(&samples, 0);
    assert!(voiced);
    assert_eq!(vad.silence_count(), 0);

    let voiced = vad.is_voice(&samples, cfg.frame_size);
    assert!(voiced);
    assert_eq!(vad.silence_count(), 1);

    let voiced = vad.is_voice(&samples, 2 * cfg.frame_size);
    assert!(voiced);
    assert_eq!(vad.silence_count(), 2);
}

#[test]
fn threshold_sum_is_sum_of_frame_thresholds() {
    let cfg = default_config();
    let mut vad = VoiceActivityDetector::new(cfg);
    let mut samples = loud_frame(cfg.frame_size, 1000);
    samples.extend(vec![0i32; cfg.frame_size]);

    // Frame 1: energies 0 and 1_000_000, so min 0, max 1_000_000, and
    // the threshold numerator over threshold_den = 10 is
    // 0 * 10 + 1_000_000 * 1 = 1_000_000.
    vad.is_voice(&samples, 0);
    assert_eq!(vad.threshold_sum(), 1_000_000);
    assert_eq!(vad.frames_seen(), 1);

    // Frame 2: all zero, threshold numerator 0; the sum is unchanged
    // and the running threshold is the mean of 100_000 and 0.
    vad.is_voice(&samples, cfg.frame_size);
    assert_eq!(vad.threshold_sum(), 1_000_000);
    assert_eq!(vad.frames_seen(), 2);
}

#[test]
fn hangover_expires_after_silence_frame_limit() {
    let cfg = default_config();
    let mut vad = VoiceActivityDetector::new(cfg);
    let samples = vec![0i32; cfg.frame_size * (cfg.silence_frame_limit + 5)];
    let mut verdicts = Vec::new();
    let mut i = 0;
    while i + cfg.frame_size <= samples.len() {
        verdicts.push(vad.is_voice(&samples, i));
        i += cfg.step_size;
    }
    // On an all-zero channel every frame is silent, so the counter
    // counts up from 1 and the verdict stays voiced exactly while the
    // counter is within the limit: the first `silence_frame_limit`
    // frames.
    for (k, &v) in verdicts.iter().enumerate() {
        assert_eq!(v, k + 1 <= cfg.silence_frame_limit);
    }
}

#[test]
fn scan_indices_increasing_multiples_of_step() {
    let cfg = default_config();
    let mut vad = VoiceActivityDetector::new(cfg);
    let mut samples = Vec::new();
    for _ in 0..30 {
        samples.extend(loud_frame(cfg.frame_size, 800));
    }
    let frames = vad.process_channel(&samples);
    assert!(!frames.is_empty());
    for w in frames.windows(2) {
        assert!(w[0] < w[1]);
    }
    for &i in &frames {
        assert_eq!(i % cfg.step_size, 0);
        assert!(i + cfg.frame_size <= samples.len());
    }
}

#[test]
fn scan_of_all_zero_channel_keeps_first_twenty_frames() {
    let cfg = default_config();
    let mut vad = VoiceActivityDetector::new(cfg);
    let samples = vec![0i32; cfg.frame_size * 25];
    let frames = vad.process_channel(&samples);
    let expected: Vec<usize> = (0..cfg.silence_frame_limit).map(|k| k * cfg.step_size).collect();
    assert_eq!(frames, expected);
}

#[test]
fn trailing_partial_frame_is_never_classified() {
    let cfg = default_config();
    let mut vad = VoiceActivityDetector::new(cfg);
    // Two full frames plus a partial one: only two frames are walked.
    let samples = vec![0i32; cfg.frame_size * 2 + cfg.frame_size / 2];
    let frames = vad.process_channel(&samples);
    assert_eq!(frames, vec![0, cfg.step_size]);
    assert_eq!(vad.frames_seen(), 2);
}

#[test]
fn short_channel_yields_no_frames() {
    let cfg = default_config();
    let mut vad = VoiceActivityDetector::new(cfg);
    let samples = vec![0i32; cfg.frame_size - 1];
    let frames = vad.process_channel(&samples);
    assert!(frames.is_empty());
    assert_eq!(vad.frames_seen(), 0);
}

#[test]
fn default_config_values() {
    let cfg = VadConfig::default();
    assert_eq!(cfg.threshold_num, 1);
    assert_eq!(cfg.threshold_den, 10);
    assert_eq!(cfg.silence_frame_limit, 20);
    assert_eq!(cfg.frame_size, 160);
    assert_eq!(cfg.step_size, 160);
}
