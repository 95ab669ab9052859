use scribe::realtime::{
    append_segment, audio_message, commit_message, session_update_message, transcription_settings,
    AudioPoll, AudioStep, Incoming, RealtimeFailure, RealtimeSession, Reception,
    TickStep,
};
use serde_json::Value;

#[test]
fn transcription_settings_are_english_without_an_implicit_prompt() {
    let settings = transcription_settings("gpt-4o-mini-transcribe", "");

    assert_eq!(settings["model"], "gpt-4o-mini-transcribe");
    assert_eq!(settings["language"], "en");
    assert!(settings.get("prompt").is_none());
}

#[test]
fn segments_are_joined_without_empty_gaps() {
    let mut transcript = String::new();
    append_segment(&mut transcript, " hello ");
    append_segment(&mut transcript, "");
    append_segment(&mut transcript, "world");
    assert_eq!(transcript, "hello world");
}

#[test]
fn settings_take_the_named_model_and_the_prompt() {
    let settings = transcription_settings("gpt-4o-transcribe", " names: Ada ");
    assert_eq!(settings["model"], "gpt-4o-transcribe");
    assert_eq!(settings["prompt"], " names: Ada ");
    let settings = transcription_settings("whisper-1", " \n ");
    assert_eq!(settings["model"], "gpt-4o-mini-transcribe");
    assert!(settings.get("prompt").is_none());
}

#[test]
fn session_update_configures_the_session() {
    let message = session_update_message("gpt-4o-transcribe", "");
    assert_eq!(
        message,
        concat_lines(&[
            r#"{"session":{"audio":{"input":{"#,
            r#""format":{"rate":24000,"type":"audio/pcm"},"#,
            r#""transcription":{"language":"en","model":"gpt-4o-transcribe"},"#,
            r#""turn_detection":{"silence_duration_ms":500,"type":"server_vad"}}},"#,
            r#""type":"transcription"},"type":"session.update"}"#,
        ])
    );
}

fn concat_lines(lines: &[&str]) -> String {
    lines.join("")
}

#[test]
fn audio_is_sent_as_base64() {
    assert_eq!(
        audio_message(&[1, -1, 258], 24_000).unwrap(),
        r#"{"audio":"AQD//wIB","type":"input_audio_buffer.append"}"#
    );
    assert_eq!(
        audio_message(&[1], 24_000).unwrap(),
        r#"{"audio":"AQA=","type":"input_audio_buffer.append"}"#
    );
    assert_eq!(
        audio_message(&[-1025, 16191], 24_000).unwrap(),
        r#"{"audio":"//s/Pw==","type":"input_audio_buffer.append"}"#
    );
    assert_eq!(audio_message(&[], 24_000), None);
    assert_eq!(audio_message(&[1], 48_000), None);
}

#[test]
fn commit_ends_the_audio() {
    assert_eq!(commit_message(), r#"{"type":"input_audio_buffer.commit"}"#);
}

fn text(message: &str) -> Incoming {
    Incoming::Text(message.to_string())
}

fn delta(words: &str) -> Incoming {
    text(&format!(
        r#"{{"type":"conversation.item.input_audio_transcription.delta","delta":"{words}"}}"#
    ))
}

fn completed(words: &str) -> Incoming {
    text(&format!(
        r#"{{"type":"conversation.item.input_audio_transcription.completed","transcript":"{words}"}}"#
    ))
}

const COMPLETED_WITHOUT_WORDS: &str =
    r#"{"type":"conversation.item.input_audio_transcription.completed"}"#;

#[test]
fn session_joins_what_it_hears() {
    let mut session = RealtimeSession::new();
    assert_eq!(session.receive(delta("hel")), Ok(Reception::Continue));
    assert_eq!(session.receive(completed(" hello ")), Ok(Reception::Continue));
    assert_eq!(session.receive(completed("  ")), Ok(Reception::Continue));
    assert_eq!(session.receive(delta("wor")), Ok(Reception::Continue));
    assert_eq!(session.receive(delta("ld")), Ok(Reception::Continue));
    assert_eq!(session.receive(text(COMPLETED_WITHOUT_WORDS)), Ok(Reception::Continue));
    assert_eq!(session.receive(delta(" again ")), Ok(Reception::Continue));
    assert_eq!(session.finish(), Ok("hello world again".to_string()));
}

#[test]
fn session_is_complete_with_the_first_segment_after_the_audio() {
    let mut session = RealtimeSession::new();
    session.close_producer();
    assert_eq!(session.receive(delta("hello")), Ok(Reception::Continue));
    assert_eq!(session.receive(completed("hello")), Ok(Reception::Finish));
    assert_eq!(session.finish(), Ok("hello".to_string()));
}

#[test]
fn session_without_words_fails() {
    let mut session = RealtimeSession::new();
    assert_eq!(session.receive(delta(" ")), Ok(Reception::Continue));
    assert_eq!(session.finish(), Err("Realtime transcription returned no text".to_string()));
}

#[test]
fn session_fails_with_the_words_of_the_server() {
    let mut session = RealtimeSession::new();
    assert_eq!(
        session.receive(text(r#"{"type":"error","error":{"message":"no credit"}}"#)),
        Err("Realtime API error: no credit".to_string())
    );
    assert_eq!(
        session.receive(text(r#"{"type":"error","error":["message"]}"#)),
        Err("Realtime API error: Unknown realtime API error".to_string())
    );
    assert_eq!(
        session.receive(text(r#"{"type":"error"}"#)),
        Err("Realtime API error: Unknown realtime API error".to_string())
    );
}

#[test]
fn session_ignores_what_it_does_not_know() {
    let mut session = RealtimeSession::new();
    for message in ["[]", "null", "{}", r#"{"type":1}"#, r#"{"type":"session.updated"}"#] {
        assert_eq!(session.receive(text(message)), Ok(Reception::Continue));
    }
    let no_delta = r#"{"type":"conversation.item.input_audio_transcription.delta","delta":7}"#;
    assert_eq!(session.receive(text(no_delta)), Ok(Reception::Continue));
    assert_eq!(session.receive(Incoming::Other), Ok(Reception::Continue));
    assert_eq!(session.receive(Incoming::Closed), Ok(Reception::Finish));
    assert!(session.finish().is_err());
}

#[test]
fn session_fails_on_what_it_cannot_read() {
    let mut session = RealtimeSession::new();
    let words = serde_json::from_str::<Value>("not json").unwrap_err().to_string();
    assert_eq!(
        session.receive(text("not json")),
        Err(format!("Invalid realtime API event: {words}"))
    );
    assert_eq!(
        session.receive(Incoming::Failed("reset".to_string())),
        Err("Realtime API read failed: reset".to_string())
    );
}

#[test]
fn session_takes_events_that_were_read_already() {
    let event: Value = serde_json::from_str(COMPLETED_WITHOUT_WORDS).unwrap();
    let mut session = RealtimeSession::new();
    session.receive(delta("pending")).unwrap();
    assert_eq!(session.take_event(&event), Ok(Reception::Continue));
    assert_eq!(session.finish(), Ok("pending".to_string()));
}

#[test]
fn session_commits_once_and_waits_eight_seconds() {
    let mut session = RealtimeSession::new();
    assert!(!session.owes_commit());
    assert!(!session.is_overdue(u64::MAX));
    assert!(matches!(session.take_audio(AudioPoll::Empty, 24_000), AudioStep::Stop));
    assert!(!session.owes_commit());
    assert!(matches!(session.take_audio(AudioPoll::Closed, 24_000), AudioStep::Stop));
    assert!(session.owes_commit());
    session.commit_sent(5);
    assert!(!session.owes_commit());
    assert!(!session.is_overdue(8_000_000_004));
    assert!(session.is_overdue(8_000_000_005));
    session.close_producer();
    assert!(!session.owes_commit());
}

#[test]
fn session_tells_the_end_then_waits_then_gives_up() {
    let mut session = RealtimeSession::new();
    assert!(matches!(session.after_audio(u64::MAX), TickStep::Wait));
    session.close_producer();
    match session.after_audio(0) {
        TickStep::Commit(message) => assert_eq!(message, commit_message()),
        _ => panic!("the end was to be told"),
    }
    session.commit_sent(0);
    assert!(matches!(session.after_audio(7_999_999_999), TickStep::Wait));
    assert!(matches!(session.after_audio(8_000_000_000), TickStep::Finish));
}

#[test]
fn session_sends_audio_and_skips_what_is_too_short() {
    let mut session = RealtimeSession::new();
    match session.take_audio(AudioPoll::Chunk(vec![1]), 24_000) {
        AudioStep::Send(message) => {
            assert_eq!(message, r#"{"audio":"AQA=","type":"input_audio_buffer.append"}"#)
        }
        _ => panic!("a message was due"),
    }
    assert!(matches!(session.take_audio(AudioPoll::Chunk(vec![1]), 48_000), AudioStep::Skip));
}

#[test]
fn failures_are_put_into_words() {
    let e = || "why".to_string();
    assert_eq!(RealtimeFailure::Request(e()).words(), "Invalid realtime API request: why");
    assert_eq!(RealtimeFailure::ApiKey(e()).words(), "Invalid API key header: why");
    assert_eq!(RealtimeFailure::Connection(e()).words(), "Realtime API connection failed: why");
    assert_eq!(
        RealtimeFailure::Configure(e()).words(),
        "Failed to configure realtime transcription: why"
    );
    assert_eq!(RealtimeFailure::Stream(e()).words(), "Failed to stream audio: why");
    assert_eq!(RealtimeFailure::Commit(e()).words(), "Failed to finish realtime audio: why");
}

#[test]
fn audio_is_sent_in_order_and_then_the_commit() {
    let polls = vec![
        AudioPoll::Chunk(vec![1]),
        AudioPoll::Empty,
        AudioPoll::Chunk(vec![]),
        AudioPoll::Chunk(vec![2]),
        AudioPoll::Closed,
        AudioPoll::Closed,
    ];
    let mut session = RealtimeSession::new();
    let mut sent = Vec::new();
    for polled in polls {
        match session.take_audio(polled, 24_000) {
            AudioStep::Send(message) => sent.push(message),
            AudioStep::Skip => {}
            AudioStep::Stop => {
                if let TickStep::Commit(message) = session.after_audio(3) {
                    sent.push(message);
                    session.commit_sent(3);
                }
            }
        }
    }
    assert_eq!(
        sent,
        vec![
            audio_message(&[1], 24_000).unwrap(),
            audio_message(&[2], 24_000).unwrap(),
            commit_message(),
        ]
    );
}
