use voxlore::audio::resampler::Resampler;

#[test]
fn test_no_resampling_needed() {
    let mut r = Resampler::new(16000, 16000);
    assert!(!r.needs_resampling());
    let input = vec![100, 200, 300];
    assert_eq!(r.resample(&input), input);
}

#[test]
fn test_downsample_48k_to_16k() {
    let mut r = Resampler::new(48000, 16000);
    assert!(r.needs_resampling());
    // 48kHz -> 16kHz is 3:1 ratio
    let input: Vec<i16> = (0..48).collect();
    let output = r.resample(&input);
    // Should produce roughly 16 samples from 48
    assert!(output.len() >= 15 && output.len() <= 17);
}

#[test]
fn identity_for_any_equal_rates() {
    for rate in [0u32, 1, 8000, 44100, u32::MAX] {
        let mut r = Resampler::new(rate, rate);
        let input: Vec<i16> = vec![i16::MIN, -1, 0, 1, i16::MAX];
        assert_eq!(r.resample(&input), input);
        assert_eq!(r.resample(&[]), Vec::<i16>::new());
    }
}

#[test]
fn downsample_480_samples_gives_160() {
    let mut r = Resampler::new(48000, 16000);
    let input: Vec<i16> = (0..480).collect();
    let output = r.resample(&input);
    assert!(output.len() >= 159 && output.len() <= 161);
    assert_eq!(output.len(), 160);
    let expected: Vec<i16> = (0..160).map(|k| 3 * k + 2).collect();
    assert_eq!(output, expected);
}

#[test]
fn chunks_continue_the_stream() {
    let input: Vec<i16> = (0..1000).collect();
    let mut whole = Resampler::new(44100, 16000);
    let all = whole.resample(&input);
    let mut parts = Resampler::new(44100, 16000);
    let mut joined = parts.resample(&input[..7]);
    joined.extend(parts.resample(&input[7..500]));
    joined.extend(parts.resample(&input[500..500]));
    joined.extend(parts.resample(&input[500..]));
    assert_eq!(joined, all);
}

#[test]
fn downsampling_stays_within_its_bound() {
    let mut r = Resampler::new(44100, 16000);
    let input: Vec<i16> = vec![5; 1000];
    let output = r.resample(&input);
    // 1000 * 16000 / 44100 = 362.8...
    assert_eq!(output.len(), 362);
    assert!(output.len() <= 363 + 1);
}

#[test]
fn first_kept_sample_of_a_three_to_one_stream_is_the_third() {
    let mut r = Resampler::new(3, 1);
    assert_eq!(r.resample(&[10, 20, 30, 40, 50, 60, 70]), vec![30, 60]);
    assert_eq!(r.resample(&[80, 90]), vec![90]);
}

#[test]
fn upsampling_keeps_every_sample_once() {
    let mut r = Resampler::new(8000, 16000);
    let input: Vec<i16> = (0..100).collect();
    assert_eq!(r.resample(&input), input);
    assert_eq!(r.resample(&input), input);
}

#[test]
fn target_rate_zero_keeps_nothing() {
    let mut r = Resampler::new(48000, 0);
    assert_eq!(r.resample(&[1, 2, 3, 4, 5, 6]), Vec::<i16>::new());
}

#[test]
fn source_rate_zero_keeps_everything() {
    let mut r = Resampler::new(0, 16000);
    assert_eq!(r.resample(&[1, 2, 3]), vec![1, 2, 3]);
}
