use scribe::capture::{
    max_recording_duration, mono_frames, CaptureTick, StartReply, StartupFailure, WavFormat,
    WAV_BYTES_PER_SAMPLE,
};
use scribe::recording::RecordingState;
use std::time::Duration;

#[test]
fn recording_duration_stays_below_the_upload_limit() {
    let duration = Duration::from_secs(max_recording_duration(48_000));
    assert_eq!(duration, Duration::from_secs(250));
    assert!(duration.as_secs() * 48_000 * WAV_BYTES_PER_SAMPLE < 25_000_000);
}

#[test]
fn recording_duration_is_never_nothing() {
    assert_eq!(max_recording_duration(44_100), 272);
    assert_eq!(max_recording_duration(0), 1);
    assert_eq!(max_recording_duration(12_000_000), 1);
    assert_eq!(max_recording_duration(12_000_001), 1);
    assert_eq!(max_recording_duration(u32::MAX), 1);
}

fn running() -> RecordingState {
    let mut state = RecordingState::default();
    assert_eq!(state.start_recording(), Ok(()));
    state
}

#[test]
fn a_recording_starts_once() {
    let mut state = running();
    state.push_samples(&[1, 2], 0);
    assert_eq!(state.start_recording(), Err("Already recording".to_string()));
    assert_eq!(state.samples, vec![1, 2]);
}

#[test]
fn failed_starts_are_abandoned() {
    let why = || "why".to_string();
    let cases = vec![
        (StartupFailure::NoDevice, "No input device available"),
        (StartupFailure::Config(why()), "Failed to get default input config: why"),
        (StartupFailure::Format(why()), "Unsupported input sample format: why"),
        (StartupFailure::Build(why()), "Failed to build input stream: why"),
        (StartupFailure::Play(why()), "Failed to start recording: why"),
    ];
    for (failure, words) in cases {
        let mut state = running();
        assert_eq!(state.abandon_start(failure), words);
        assert!(!state.is_active());
    }
}

#[test]
fn starts_are_concluded() {
    let mut state = running();
    let outcome = state.conclude_start(StartReply::Ready);
    assert_eq!((outcome.status, outcome.chime, outcome.result), ("recording", true, Ok(())));
    assert!(state.is_active());

    let outcome = state.conclude_start(StartReply::Failed("why".to_string()));
    assert_eq!(outcome.result, Err("why".to_string()));
    assert_eq!((outcome.status, outcome.chime), ("error", false));
    assert!(state.is_active());

    let outcome = state.conclude_start(StartReply::TimedOut);
    assert_eq!(
        outcome.result,
        Err("Timed out while starting microphone input".to_string())
    );
    assert_eq!((outcome.status, outcome.chime), ("error", false));
    assert!(!state.is_active());
}

#[test]
fn recordings_end_at_their_limit() {
    let mut state = running();
    state.push_samples(&[7], 0);
    assert_eq!(state.capture_tick(249, 48_000), CaptureTick::Continue);
    assert!(state.is_active());
    assert_eq!(state.capture_tick(250, 48_000), CaptureTick::LimitReached);
    assert!(!state.is_active());
    assert_eq!(state.samples, vec![7]);
    assert_eq!(state.capture_tick(251, 48_000), CaptureTick::Ended);
}

#[test]
fn recordings_are_worth_a_file_when_they_hold_sound() {
    let mut state = running();
    state.input_opened(16_000);
    let full = 1.0f32.to_bits();
    assert_eq!(state.recorded_file(&[], full), Err("No audio recorded".to_string()));
    let silent = Err("No audio detected. Please check microphone permissions in System Settings → Privacy & Security → Microphone".to_string());
    assert_eq!(state.recorded_file(&[full], full), silent);
    state.push_samples(&[full], full);
    assert_eq!(state.recorded_file(&[full], 0.0f32.to_bits()), silent);
    assert_eq!(state.recorded_file(&[], full), Err("No audio recorded".to_string()));
    assert_eq!(
        state.recorded_file(&[full], full),
        Ok(WavFormat { channels: 1, sample_rate: 16_000, bits_per_sample: 16 })
    );
}

#[test]
fn only_a_running_recording_is_cancelled_or_paused() {
    let mut state = RecordingState::default();
    assert_eq!(state.cancel_recording(), Err("Not recording".to_string()));
    assert_eq!(state.pause_recording(), Err("Not recording".to_string()));
    assert!(!state.is_paused());
    state.start();
    assert_eq!(state.pause_recording(), Ok(true));
    assert_eq!(state.pause_recording(), Ok(false));
    let feedback = state.cancel_recording().unwrap();
    assert_eq!((feedback.status, feedback.sound), ("idle", "cancel"));
    assert!(!state.is_active());
}

#[test]
fn stops_are_shown_and_heard() {
    let mut state = running();
    state.push_samples(&[7], 0);
    let (samples, feedback) = state.stop_recording();
    assert_eq!(samples, vec![7]);
    assert_eq!((feedback.status, feedback.sound), ("idle", "stop"));
    assert!(!state.is_active());
    assert_eq!(state.samples, vec![7]);
}

#[test]
fn frames_are_those_of_chunks() {
    assert_eq!(mono_frames(5, 0), None);
    assert_eq!(mono_frames(5, 1), None);
    assert_eq!(mono_frames(0, 2), Some(vec![]));
    assert_eq!(mono_frames(4, 2), Some(vec![(0, 2), (2, 4)]));
    assert_eq!(mono_frames(5, 2), Some(vec![(0, 2), (2, 4), (4, 5)]));
    assert_eq!(mono_frames(3, usize::MAX), Some(vec![(0, 3)]));
    let data: Vec<usize> = (0..100).collect();
    for channels in 2..9 {
        let chunks: Vec<&[usize]> = data.chunks(channels).collect();
        let frames = mono_frames(data.len(), channels).unwrap();
        let framed: Vec<&[usize]> = frames.iter().map(|(a, b)| &data[*a..*b]).collect();
        assert_eq!(framed, chunks);
    }
}

#[test]
fn recordings_could_not_run_a_second_longer() {
    for rate in [8_000, 44_100, 48_000, 96_000, 12_000_000] {
        let seconds = max_recording_duration(rate);
        assert!(seconds * u64::from(rate) * WAV_BYTES_PER_SAMPLE <= 24_000_000);
        assert!((seconds + 1) * u64::from(rate) * WAV_BYTES_PER_SAMPLE > 24_000_000);
    }
}
