use scribe::recording::RecordingState;

fn bits(data: &[f32]) -> Vec<u32> {
    data.iter().map(|sample| sample.to_bits()).collect()
}

fn rms(data: &[f32]) -> u32 {
    let sum: f32 = data.iter().map(|s| s * s).sum();
    (sum / data.len() as f32).sqrt().to_bits()
}

fn push(state: &mut RecordingState, data: &[f32]) {
    state.push_samples(&bits(data), rms(data));
}

fn has_audio_content(state: &RecordingState) -> bool {
    let samples: Vec<f32> = state.samples.iter().map(|bits| f32::from_bits(*bits)).collect();
    state.has_audio_content(rms(&samples))
}

#[test]
fn test_initial_state() {
    let state = RecordingState::default();
    assert!(!state.is_active());
    assert!(!state.is_paused());
    assert!(state.samples.is_empty());
}

#[test]
fn initial_state_has_a_rate_and_no_level() {
    let state = RecordingState::default();
    assert_eq!(state.sample_rate, 44100);
    assert_eq!(f32::from_bits(state.get_audio_level()), 0.0);
}

#[test]
fn test_start_recording() {
    let mut state = RecordingState::default();
    state.start();

    assert!(state.is_active());
    assert!(!state.is_paused());
    assert!(state.should_capture());
}

#[test]
fn test_start_clears_previous_samples() {
    let mut state = RecordingState::default();
    state.samples.extend_from_slice(&bits(&[0.1, 0.2, 0.3]));

    state.start();

    assert!(state.samples.is_empty());
}

#[test]
fn test_stop_recording() {
    let mut state = RecordingState::default();
    state.start();
    push(&mut state, &[0.5, 0.5, 0.5]);

    let samples = state.stop();

    assert!(!state.is_active());
    assert_eq!(samples.len(), 3);
    assert_eq!(f32::from_bits(state.get_audio_level()), 0.0);
}

#[test]
fn test_cancel_discards_samples() {
    let mut state = RecordingState::default();
    state.start();
    push(&mut state, &[0.5, 0.5, 0.5]);

    state.cancel();

    assert!(!state.is_active());
    assert!(state.samples.is_empty());
}

#[test]
fn test_pause_stops_capture() {
    let mut state = RecordingState::default();
    state.start();

    let is_paused = state.toggle_pause();

    assert!(is_paused);
    assert!(state.is_active());
    assert!(state.is_paused());
    assert!(!state.should_capture());
}

#[test]
fn test_resume_from_pause() {
    let mut state = RecordingState::default();
    state.start();
    state.toggle_pause();

    let is_paused = state.toggle_pause();

    assert!(!is_paused);
    assert!(state.should_capture());
}

#[test]
fn test_samples_not_captured_when_paused() {
    let mut state = RecordingState::default();
    state.start();
    push(&mut state, &[0.1, 0.2]);

    state.toggle_pause();
    push(&mut state, &[0.3, 0.4]);

    state.toggle_pause();
    push(&mut state, &[0.5, 0.6]);

    assert_eq!(state.samples.len(), 4);
    assert_eq!(state.samples, bits(&[0.1, 0.2, 0.5, 0.6]));
}

#[test]
fn test_has_audio_content_detects_silence() {
    let mut state = RecordingState::default();
    state.start();

    state.samples.extend_from_slice(&bits(&[0.0001, -0.0001, 0.0]));
    assert!(!has_audio_content(&state));

    state.samples.clear();
    state.samples.extend_from_slice(&bits(&[0.5, -0.3, 0.4]));
    assert!(has_audio_content(&state));
}

#[test]
fn test_stop_also_clears_pause() {
    let mut state = RecordingState::default();
    state.start();
    state.toggle_pause();

    state.stop();

    assert!(!state.is_paused());
}

#[test]
fn nothing_recorded_is_no_audio_content() {
    let state = RecordingState::default();
    assert!(!state.has_audio_content(1.0f32.to_bits()));
}

#[test]
fn stop_keeps_the_samples_in_the_state() {
    let mut state = RecordingState::default();
    state.start();
    push(&mut state, &[0.25, -0.25]);
    assert_eq!(state.stop(), bits(&[0.25, -0.25]));
    assert_eq!(state.samples, bits(&[0.25, -0.25]));
}

#[test]
fn level_follows_the_latest_samples() {
    let mut state = RecordingState::default();
    state.start();
    push(&mut state, &[0.5, -0.5]);
    assert_eq!(f32::from_bits(state.get_audio_level()), 0.5);
    push(&mut state, &[3.0, 3.0]);
    assert_eq!(f32::from_bits(state.get_audio_level()), 1.0);
    push(&mut state, &[]);
    assert_eq!(f32::from_bits(state.get_audio_level()), 1.0);
    assert_eq!(state.samples.len(), 4);
}

#[test]
fn level_is_silent_unless_capturing() {
    let mut state = RecordingState::default();
    push(&mut state, &[0.5]);
    assert_eq!(f32::from_bits(state.get_audio_level()), 0.0);
    state.start();
    push(&mut state, &[0.5]);
    state.toggle_pause();
    assert_eq!(f32::from_bits(state.get_audio_level()), 0.0);
    push(&mut state, &[0.5]);
    assert_eq!(f32::from_bits(state.get_audio_level()), 0.0);
    state.toggle_pause();
    push(&mut state, &[0.5]);
    state.cancel();
    assert_eq!(f32::from_bits(state.get_audio_level()), 0.0);
}

#[test]
fn stopped_and_cancelled_recordings_take_in_nothing() {
    let mut state = RecordingState::default();
    state.start();
    push(&mut state, &[0.5]);
    state.stop();
    push(&mut state, &[0.25]);
    assert_eq!(state.samples, bits(&[0.5]));
    state.start();
    push(&mut state, &[0.5]);
    state.cancel();
    push(&mut state, &[0.25]);
    assert!(state.samples.is_empty());
}

#[test]
fn recordings_hold_what_was_captured_since_the_last_start() {
    let mut state = RecordingState::default();
    push(&mut state, &[0.9]);
    assert!(state.samples.is_empty());
    state.start();
    push(&mut state, &[0.1]);
    state.stop();
    state.start();
    push(&mut state, &[0.2]);
    state.toggle_pause();
    push(&mut state, &[0.3]);
    state.toggle_pause();
    push(&mut state, &[0.4]);
    state.stop();
    push(&mut state, &[0.5]);
    assert_eq!(state.samples, bits(&[0.2, 0.4]));
    state.cancel();
    push(&mut state, &[0.6]);
    assert!(state.samples.is_empty());
}

#[test]
fn levels_lie_between_zero_and_one() {
    let mut state = RecordingState::default();
    state.start();
    let chunks: [&[f32]; 6] =
        [&[], &[f32::NAN], &[f32::MAX, f32::MAX], &[f32::INFINITY], &[-0.25], &[-3.0, 0.0]];
    for data in chunks {
        push(&mut state, data);
        let level = f32::from_bits(state.get_audio_level());
        assert!((0.0..=1.0).contains(&level));
    }
}
