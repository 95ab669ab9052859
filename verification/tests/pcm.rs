use scribe::pcm::resample_to_pcm16;

fn quantized(samples: &[f32]) -> Vec<i16> {
    samples.iter().map(|s| (s.clamp(-1.0, 1.0) * i16::MAX as f32) as i16).collect()
}

#[test]
fn resampling_produces_24khz_pcm16() {
    let input = vec![0.5; 48_000];
    let output = resample_to_pcm16(&quantized(&input), 48_000, 24_000);
    assert_eq!(output.len(), 24_000 * 2);
    assert_eq!(&output[..2], &16383i16.to_le_bytes());
}

#[test]
fn resampling_to_the_same_rate_keeps_samples() {
    let samples = vec![1i16, -2, 300, i16::MIN, i16::MAX, -1];
    let output = resample_to_pcm16(&samples, 24_000, 24_000);
    let expected: Vec<u8> = samples.iter().flat_map(|s| s.to_le_bytes()).collect();
    assert_eq!(output, expected);
}

#[test]
fn resampling_down_skips_samples() {
    let output = resample_to_pcm16(&[10, 20, 30, 40, 50], 44_100, 24_000);
    assert_eq!(output, vec![10, 0, 20, 0]);
}

#[test]
fn resampling_up_repeats_samples() {
    let output = resample_to_pcm16(&[1, 2], 8_000, 24_000);
    assert_eq!(output, vec![1, 0, 1, 0, 1, 0, 2, 0, 2, 0, 2, 0]);
}

#[test]
fn nothing_to_resample() {
    assert!(resample_to_pcm16(&[], 48_000, 24_000).is_empty());
    assert!(resample_to_pcm16(&[1, 2, 3], 0, 24_000).is_empty());
    assert!(resample_to_pcm16(&[1, 2, 3], 48_000, 0).is_empty());
    assert!(resample_to_pcm16(&[1], 48_000, 24_000).is_empty());
}

#[test]
fn resampling_keeps_whole_seconds() {
    for (seconds, source, target) in [(1, 44_100, 24_000), (3, 8_000, 24_000), (2, 48_000, 16_000)] {
        let samples = vec![0i16; seconds * source as usize];
        let output = resample_to_pcm16(&samples, source, target);
        assert_eq!(output.len(), seconds * target as usize * 2);
    }
}
