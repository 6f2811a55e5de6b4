use silence_remover::config::VadConfig;
use silence_remover::evaluator::evaluate_channels;
use silence_remover::evaluator::Channel;
use silence_remover::processor::AudioProcessor;
use silence_remover::processor::UnsupportedFormatError;

fn interleave(left: &[i32], right: &[i32]) -> Vec<i32> {
    assert_eq!(left.len(), right.len());
    let mut out = Vec::new();
    for k in 0..left.len() {
        out.push(left[k]);
        out.push(right[k]);
    }
    out
}

/// One second of a full-scale 440 Hz tone at 16 kHz.
fn full_scale_sine(len: usize) -> Vec<i32> {
    let mut out = Vec::new();
    for i in 0..len {
        let x = (i as f64) * 2.0 * std::f64::consts::PI * 440.0 / 16000.0;
        out.push((x.sin() * (i32::MAX as f64)) as i32);
    }
    out
}

fn loud_channel(frames: usize, frame_size: usize, value: i32) -> Vec<i32> {
    let mut out = Vec::new();
    for _ in 0..frames {
        for i in 0..frame_size {
            out.push(if i % 2 == 0 { 0 } else { value });
        }
    }
    out
}

#[test]
fn rejects_mono_input() {
    let processor = AudioProcessor::new(VadConfig::default());
    let samples = vec![0i32; 480];
    assert_eq!(processor.process_samples(1, &samples), Err(UnsupportedFormatError));
}

#[test]
fn rejects_four_channel_input() {
    let processor = AudioProcessor::new(VadConfig::default());
    let samples = vec![0i32; 480];
    assert_eq!(processor.process_samples(4, &samples), Err(UnsupportedFormatError));
}

#[test]
fn accepts_stereo_input() {
    let processor = AudioProcessor::new(VadConfig::default());
    let samples = vec![0i32; 480];
    assert!(processor.process_samples(2, &samples).is_ok());
}

#[test]
fn empty_stereo_input_gives_empty_output() {
    let processor = AudioProcessor::new(VadConfig::default());
    let samples: Vec<i32> = Vec::new();
    assert_eq!(processor.process_samples(2, &samples), Ok(Vec::new()));
}

#[test]
fn input_shorter_than_one_frame_gives_empty_output() {
    let cfg = VadConfig::default();
    let processor = AudioProcessor::new(cfg);
    let samples = vec![7i32; 2 * (cfg.frame_size - 1)];
    assert_eq!(processor.process_samples(2, &samples), Ok(Vec::new()));
}

#[test]
fn pipeline_is_deterministic() {
    let cfg = VadConfig::default();
    let processor = AudioProcessor::new(cfg);
    let left = full_scale_sine(16000);
    let right = loud_channel(40, cfg.frame_size, 900);
    let mut right = right;
    right.resize(16000, 0);
    let samples = interleave(&left, &right);
    let once = processor.process_samples(2, &samples).unwrap();
    let twice = processor.process_samples(2, &samples).unwrap();
    assert_eq!(once, twice);
}

#[test]
fn tie_break_selects_left_channel() {
    let cfg = VadConfig::default();
    let ch = loud_channel(10, cfg.frame_size, 1000);
    let (selected, frames) = evaluate_channels(&cfg, &ch, &ch);
    assert_eq!(selected, Channel::Left);
    assert_eq!(frames.len(), 10);
}

#[test]
fn right_channel_selected_when_it_has_more_voiced_frames() {
    let cfg = VadConfig::default();
    let frames = 25;
    let left = vec![0i32; frames * cfg.frame_size];
    let right = loud_channel(frames, cfg.frame_size, 1000);
    let (selected, voice_frames) = evaluate_channels(&cfg, &left, &right);
    // The all-zero left channel keeps only its hangover frames, the
    // loud right channel keeps every frame.
    assert_eq!(selected, Channel::Right);
    assert_eq!(voice_frames.len(), frames);

    let processor = AudioProcessor::new(cfg);
    let out = processor.process_samples(2, &interleave(&left, &right)).unwrap();
    assert_eq!(out, right);
}

#[test]
fn stereo_sine_against_silence_keeps_whole_left_channel() {
    let cfg = VadConfig::default();
    let left = full_scale_sine(16000);
    let right = vec![0i32; 16000];
    let (selected, voice_frames) = evaluate_channels(&cfg, &left, &right);
    assert_eq!(selected, Channel::Left);
    // Every left frame carries the tone, so all 100 frames are voiced;
    // the all-zero right channel would keep only its 20 hangover
    // frames.
    assert_eq!(voice_frames.len(), 100);

    let processor = AudioProcessor::new(cfg);
    let samples = interleave(&left, &right);
    let out = processor.process_samples(2, &samples).unwrap();
    assert_eq!(out.len(), voice_frames.len() * cfg.frame_size);
    assert_eq!(out, left);
}

#[test]
fn all_zero_stereo_input_truncates_at_hangover_expiry() {
    let cfg = VadConfig::default();
    let processor = AudioProcessor::new(cfg);
    let samples = vec![0i32; 2 * 16000];
    let out = processor.process_samples(2, &samples).unwrap();
    // Each channel's first frame is silent but within the hangover, and
    // so are the following ones while the counter stays within the
    // limit: exactly `silence_frame_limit` frames survive.
    assert_eq!(out.len(), cfg.silence_frame_limit * cfg.frame_size);
    assert!(out.iter().all(|&s| s == 0));
}

#[test]
fn overlapping_frames_duplicate_shared_samples() {
    let cfg = VadConfig {
        threshold_num: 1,
        threshold_den: 10,
        silence_frame_limit: 20,
        frame_size: 4,
        step_size: 2,
    };
    let left = vec![0, 1000, 0, 1000, 0, 1000];
    let right = vec![0i32; 6];
    let processor = AudioProcessor::new(cfg);
    let out = processor.process_samples(2, &interleave(&left, &right)).unwrap();
    // Both left frames (at 0 and 2) are voiced; the overlapped samples
    // at positions 2 and 3 appear once per containing frame.
    assert_eq!(out, vec![0, 1000, 0, 1000, 0, 1000, 0, 1000]);
}
