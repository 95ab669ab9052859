use scribe::config::DEFAULT_POST_PROCESS_PROMPT;
use scribe::transcription::{
    bearer, finalize_live_transcript, finalize_transcript, post_process_request,
    post_process_transcript, transcribe, upload_form, ApiReply, TranscriptStep,
    UploadFailure,
};
use serde_json::Value;

fn json(text: &str) -> Value {
    serde_json::from_str(text).unwrap()
}

fn reply(text: &str) -> ApiReply<Value> {
    ApiReply::Body(json(text))
}

fn why() -> String {
    "why".to_string()
}

#[test]
fn keys_are_sent_as_bearers() {
    assert_eq!(bearer("key"), "Bearer key");
}

#[test]
fn forms_hold_what_is_uploaded() {
    let form = upload_form(Some("20240101_120000.wav".to_string()), Some("names".to_string()));
    assert_eq!(
        form.fields,
        vec![
            ("model".to_string(), "gpt-4o-mini-transcribe".to_string()),
            ("languages[]".to_string(), "en".to_string()),
        ]
    );
    assert_eq!(form.file_name, "20240101_120000.wav");
    assert_eq!(form.mime_type, "audio/wav");
    assert_eq!(form.prompt, Some("names".to_string()));

    let form = upload_form(None, Some(String::new()));
    assert_eq!(form.file_name, "audio.wav");
    assert_eq!(form.prompt, None);
    assert_eq!(upload_form(None, None).prompt, None);
    assert_eq!(upload_form(None, Some(" ".to_string())).prompt, Some(" ".to_string()));
}

#[test]
fn uploads_that_cannot_be_made_tell_why() {
    assert_eq!(
        UploadFailure::Client(why()).words(),
        "Failed to configure OpenAI client: why"
    );
    assert_eq!(UploadFailure::AudioFile(why()).words(), "Failed to read audio file: why");
}

fn failure(reply: ApiReply<String>) -> String {
    match transcribe(reply, Some(true)) {
        Ok(_) => panic!("an error was due"),
        Err(error) => error,
    }
}

#[test]
fn failed_transcriptions_tell_why() {
    assert_eq!(failure(ApiReply::SendFailed(why())), "API request failed: why");
    assert_eq!(failure(ApiReply::Refused(why())), "OpenAI API error: why");
    assert_eq!(
        failure(ApiReply::Unreadable(why())),
        "Failed to read transcription response: why"
    );
}

#[test]
fn transcripts_are_trimmed_and_cleaned_up_only_on_demand() {
    for wish in [None, Some(false)] {
        match transcribe(ApiReply::Body(" hello \n".to_string()), wish) {
            Ok(TranscriptStep::Done(result)) => {
                assert_eq!(result.transcript, "hello");
                assert!(!result.post_process_applied);
                assert_eq!(result.post_process_error, None);
            }
            _ => panic!("the transcript was finished"),
        }
    }
    match transcribe(ApiReply::Body(" hello \n".to_string()), Some(true)) {
        Ok(TranscriptStep::PostProcess(transcript)) => assert_eq!(transcript, "hello"),
        _ => panic!("the transcript was to be cleaned up"),
    }
}

#[test]
fn live_transcripts_are_taken_as_they_are() {
    match finalize_live_transcript(" hello ".to_string(), false) {
        TranscriptStep::Done(result) => assert_eq!(result.transcript, " hello "),
        _ => panic!("the transcript was finished"),
    }
    match finalize_live_transcript("hello".to_string(), true) {
        TranscriptStep::PostProcess(transcript) => assert_eq!(transcript, "hello"),
        _ => panic!("the transcript was to be cleaned up"),
    }
}

#[test]
fn cleanups_are_asked_for() {
    let request = post_process_request("um hello", Some("Be brief.".to_string()));
    assert_eq!(
        request,
        json(
            r#"{"model":"gpt-4o-mini","temperature":0,"messages":[
                {"role":"system","content":"Be brief."},
                {"role":"user","content":"Clean this transcript and return only the final text:\n\num hello"}
            ]}"#
        )
    );
    for prompt in [None, Some(" ".to_string())] {
        let request = post_process_request("x", prompt);
        assert_eq!(request["messages"][0]["content"], DEFAULT_POST_PROCESS_PROMPT);
    }
}

#[test]
fn cleaned_transcripts_are_read() {
    let body = r#"{"choices":[{"message":{"content":" Hello. "}},{"message":{"content":"no"}}]}"#;
    assert_eq!(post_process_transcript(reply(body)), Ok("Hello.".to_string()));
    let empty = Err("Post-process returned an empty transcript".to_string());
    for body in [
        "{}",
        "[]",
        r#"{"choices":[]}"#,
        r#"{"choices":{"0":{"message":{"content":"x"}}}}"#,
        r#"{"choices":[{"message":{"content":" \n"}}]}"#,
        r#"{"choices":[{"message":{"content":7}}]}"#,
        r#"{"choices":[{"message":"x"}]}"#,
        r#"{"choices":["x"]}"#,
    ] {
        assert_eq!(post_process_transcript(reply(body)), empty);
    }
    assert_eq!(
        post_process_transcript(ApiReply::SendFailed(why())),
        Err("Post-process request failed: why".to_string())
    );
    assert_eq!(
        post_process_transcript(ApiReply::Refused(why())),
        Err("Post-process API error: why".to_string())
    );
    assert_eq!(
        post_process_transcript(ApiReply::Unreadable(why())),
        Err("Failed to read post-process response: why".to_string())
    );
}

#[test]
fn cleanups_never_lose_a_transcript() {
    let body = r#"{"choices":[{"message":{"content":"Hello."}}]}"#;
    let result = finalize_transcript("um hello".to_string(), reply(body));
    assert_eq!(result.transcript, "Hello.");
    assert!(result.post_process_applied);
    assert_eq!(result.post_process_error, None);

    let result = finalize_transcript("um hello".to_string(), ApiReply::Refused(why()));
    assert_eq!(result.transcript, "um hello");
    assert!(!result.post_process_applied);
    assert_eq!(result.post_process_error, Some("Post-process API error: why".to_string()));
}
