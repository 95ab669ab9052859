use scribe::live::{buffered_milliseconds, check_live_finish, live_result, LiveOutcome, LiveSlot};
use scribe::recording::RecordingState;

#[test]
fn live_transcription_starts_beside_a_recording() {
    let mut state = RecordingState::default();
    assert_eq!(
        state.check_live_start(false),
        Err("Start recording before realtime transcription".to_string())
    );
    state.start();
    assert_eq!(state.check_live_start(false), Ok(()));
    assert_eq!(
        state.check_live_start(true),
        Err("Realtime transcription is already active".to_string())
    );
}

#[test]
fn waiting_audio_is_measured() {
    assert_eq!(buffered_milliseconds(48_000, 48_000), 1_000);
    assert_eq!(buffered_milliseconds(47, 48_000), 0);
    assert_eq!(buffered_milliseconds(1_000, 0), 0);
    assert_eq!(buffered_milliseconds(u64::MAX, 2), u64::MAX / 2);
}

#[test]
fn live_transcription_needs_all_of_the_audio() {
    assert_eq!(check_live_finish(true, 0), Ok(()));
    assert_eq!(
        check_live_finish(false, 3),
        Err("Realtime transcription is not active".to_string())
    );
    assert_eq!(
        check_live_finish(true, 4_810),
        Err("Realtime audio stream dropped 4810 samples; using saved recording".to_string())
    );
}

#[test]
fn live_results_are_told() {
    assert_eq!(
        live_result(LiveOutcome::TimedOut),
        Err("Timed out while finishing realtime transcription".to_string())
    );
    assert_eq!(
        live_result(LiveOutcome::Lost),
        Err("Realtime transcription ended unexpectedly".to_string())
    );
    assert_eq!(live_result(LiveOutcome::Ended(Ok("hi".to_string()))), Ok("hi".to_string()));
    assert_eq!(live_result(LiveOutcome::Ended(Err("no".to_string()))), Err("no".to_string()));
}

#[test]
fn one_live_transcription_is_pending_until_finished_or_cancelled() {
    let mut state = RecordingState::default();
    let mut slot = LiveSlot::default();
    assert!(!slot.pending);
    assert_eq!(
        slot.start(&state),
        Err("Start recording before realtime transcription".to_string())
    );
    assert!(!slot.pending);
    assert_eq!(slot.finish(0), Err("Realtime transcription is not active".to_string()));

    state.start();
    assert_eq!(slot.start(&state), Ok(()));
    assert_eq!(
        slot.start(&state),
        Err("Realtime transcription is already active".to_string())
    );
    assert!(slot.pending);
    state.stop();
    assert!(slot.start(&state).is_err());
    assert!(slot.pending);
    assert_eq!(slot.finish(0), Ok(()));
    assert!(!slot.pending);

    state.start();
    assert_eq!(slot.start(&state), Ok(()));
    assert_eq!(
        slot.finish(2),
        Err("Realtime audio stream dropped 2 samples; using saved recording".to_string())
    );
    assert!(!slot.pending);

    assert_eq!(slot.start(&state), Ok(()));
    slot.cancel();
    assert!(!slot.pending);
    slot.cancel();
    assert!(!slot.pending);
}
