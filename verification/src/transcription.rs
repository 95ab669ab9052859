//! Transcription of a recording: what is uploaded, and what is made of the replies of the
//! transcription and of the cleanup.

use serde_json::Value;
use vstd::prelude::*;

use crate::capture::fails_with;
use crate::config::{text_matches, DEFAULT_POST_PROCESS_PROMPT};
use crate::json::{
    element, entries_of, entry, json_of, jsons_of, lemma_object_of_three, lemma_object_of_two,
    list_value, member, member_text, number_value, object, object_value, text_value, Json,
};
use crate::text::{
    blank, concat, decimal, text_of, tight, trim, trimmed, trimmed_is_empty_iff_blank, trimmed_is_tight,
};

verus! {

/// Where recordings are transcribed.
pub const TRANSCRIPTIONS_URL: &'static str = "https://api.openai.com/v1/audio/transcriptions";

/// Where transcripts are cleaned up.
pub const CHAT_URL: &'static str = "https://api.openai.com/v1/chat/completions";

/// How long to wait for a connection.
pub const CONNECT_TIMEOUT_SECONDS: u64 = 10;

/// How long to wait for a reply.
pub const REQUEST_TIMEOUT_SECONDS: u64 = 180;

/// The model that cleans up transcripts.
pub const POST_PROCESS_MODEL: &'static str = "gpt-4o-mini";

/// The `Authorization` header for a key.
pub fn bearer(api_key: &str) -> (header: String)
    ensures
        header@ == "Bearer "@ + api_key@,
{
    concat("Bearer ", api_key)
}

/// Why a recording could not be uploaded.
pub enum UploadFailure {
    /// There is no client to send it with.
    Client(String),
    /// Its file could not be read.
    AudioFile(String),
}

impl UploadFailure {
    /// How the failure is put into words.
    pub open spec fn in_words(self) -> Seq<char> {
        match self {
            UploadFailure::Client(error) => "Failed to configure OpenAI client: "@ + error@,
            UploadFailure::AudioFile(error) => "Failed to read audio file: "@ + error@,
        }
    }

    /// How the failure is put into words.
    pub fn words(self) -> (words: String)
        ensures
            words@ == self.in_words(),
    {
        match self {
            UploadFailure::Client(error) => concat(
                "Failed to configure OpenAI client: ",
                error.as_str(),
            ),
            UploadFailure::AudioFile(error) => concat(
                "Failed to read audio file: ",
                error.as_str(),
            ),
        }
    }
}

/// What is uploaded with a recording.
pub struct UploadForm {
    /// The text fields that come before the file: names and values.
    pub fields: Vec<(String, String)>,
    /// The name of the file.
    pub file_name: String,
    /// The type of the file.
    pub mime_type: String,
    /// The prompt that comes after the file, where there is one.
    pub prompt: Option<String>,
}

/// The texts of fields.
pub open spec fn fields_of(fields: Seq<(String, String)>) -> Seq<(Seq<char>, Seq<char>)> {
    fields.map_values(|field: (String, String)| (field.0@, field.1@))
}

/// The name under which a recording is uploaded, given that of its file, where that is known.
pub open spec fn upload_name(file_name: Option<Seq<char>>) -> Seq<char> {
    match file_name {
        Some(name) => name,
        None => "audio.wav"@,
    }
}

/// What is uploaded with a recording. A prompt is sent where there is one and it is not empty.
pub fn upload_form(file_name: Option<String>, prompt: Option<String>) -> (form: UploadForm)
    ensures
        fields_of(form.fields@) == seq![
            ("model"@, "gpt-4o-mini-transcribe"@),
            ("languages[]"@, "en"@),
        ],
        form.file_name@ == upload_name(text_of(file_name)),
        form.mime_type@ == "audio/wav"@,
        text_of(form.prompt) == match text_of(prompt) {
            Some(prompt) => if prompt.len() == 0 {
                None
            } else {
                Some(prompt)
            },
            None => None,
        },
{
    let mut fields: Vec<(String, String)> = Vec::new();
    fields.push(("model".to_owned(), "gpt-4o-mini-transcribe".to_owned()));
    fields.push(("languages[]".to_owned(), "en".to_owned()));
    assert(fields_of(fields@) =~= seq![
        ("model"@, "gpt-4o-mini-transcribe"@),
        ("languages[]"@, "en"@),
    ]);
    let file_name = match file_name {
        Some(name) => name,
        None => "audio.wav".to_owned(),
    };
    let prompt = match prompt {
        Some(prompt) => if prompt.as_str().is_empty() {
            None
        } else {
            Some(prompt)
        },
        None => None,
    };
    UploadForm { fields, file_name, mime_type: "audio/wav".to_owned(), prompt }
}

/// What came back for a request.
pub enum ApiReply<B> {
    /// The request could not be sent, for this reason.
    SendFailed(String),
    /// The service refused it, with this text.
    Refused(String),
    /// The reply could not be read, for this reason.
    Unreadable(String),
    /// The reply was read.
    Body(B),
}

/// The transcript that a reply of the transcription stands for, or the error.
pub open spec fn replied_transcript(reply: ApiReply<String>) -> Result<Seq<char>, Seq<char>> {
    match reply {
        ApiReply::SendFailed(error) => Err("API request failed: "@ + error@),
        ApiReply::Refused(error) => Err("OpenAI API error: "@ + error@),
        ApiReply::Unreadable(error) => Err("Failed to read transcription response: "@ + error@),
        ApiReply::Body(text) => Ok(trimmed(text@)),
    }
}

/// The transcript that a reply of the transcription stands for, or the error.
pub fn transcript_of_reply(reply: ApiReply<String>) -> (r: Result<String, String>)
    ensures
        text_matches(r, replied_transcript(reply)),
{
    match reply {
        ApiReply::SendFailed(error) => Err(concat("API request failed: ", error.as_str())),
        ApiReply::Refused(error) => Err(concat("OpenAI API error: ", error.as_str())),
        ApiReply::Unreadable(error) => Err(
            concat("Failed to read transcription response: ", error.as_str()),
        ),
        ApiReply::Body(text) => Ok(trim(text.as_str()).to_owned()),
    }
}

/// A finished transcript, and what became of its cleanup.
pub struct TranscriptionResult {
    pub transcript: String,
    pub post_process_applied: bool,
    pub post_process_error: Option<String>,
}

/// A finished transcript, and what became of its cleanup.
pub struct Transcript {
    pub words: Seq<char>,
    pub cleaned: bool,
    pub error: Option<Seq<char>>,
}

impl View for TranscriptionResult {
    type V = Transcript;

    open spec fn view(&self) -> Transcript {
        Transcript {
            words: self.transcript@,
            cleaned: self.post_process_applied,
            error: text_of(self.post_process_error),
        }
    }
}

impl Transcript {
    /// A transcript that was not to be cleaned up.
    pub open spec fn raw(words: Seq<char>) -> Self {
        Transcript { words, cleaned: false, error: None }
    }

    /// A transcript after its cleanup: the cleaned words, or the words as they were and the error
    /// where the cleanup failed.
    pub open spec fn finalized(words: Seq<char>, cleaned: Result<Seq<char>, Seq<char>>) -> Self {
        match cleaned {
            Ok(cleaned) => Transcript { words: cleaned, cleaned: true, error: None },
            Err(error) => Transcript { words, cleaned: false, error: Some(error) },
        }
    }
}

/// What is done with a transcript.
pub enum TranscriptStep {
    /// It is finished.
    Done(TranscriptionResult),
    /// It is to be cleaned up.
    PostProcess(String),
}

/// What is done with a transcript, by whether transcripts are to be cleaned up.
pub open spec fn step_matches(step: TranscriptStep, words: Seq<char>, post_process: bool) -> bool {
    match step {
        TranscriptStep::Done(result) => !post_process && result@ == Transcript::raw(words),
        TranscriptStep::PostProcess(transcript) => post_process && transcript@ == words,
    }
}

/// What is done with the transcript of a live session.
pub fn finalize_live_transcript(transcript: String, post_process_enabled: bool) -> (step:
    TranscriptStep)
    ensures
        step_matches(step, transcript@, post_process_enabled),
{
    if post_process_enabled {
        TranscriptStep::PostProcess(transcript)
    } else {
        TranscriptStep::Done(
            TranscriptionResult {
                transcript,
                post_process_applied: false,
                post_process_error: None,
            },
        )
    }
}

/// What is done with the reply of the transcription of a recording. Without word on it,
/// transcripts are not cleaned up.
pub fn transcribe(reply: ApiReply<String>, post_process_enabled: Option<bool>) -> (r: Result<
    TranscriptStep,
    String,
>)
    ensures
        match replied_transcript(reply) {
            Ok(words) => r is Ok && step_matches(
                r->Ok_0,
                words,
                post_process_enabled == Some(true),
            ),
            Err(error) => fails_with(r, error),
        },
{
    match transcript_of_reply(reply) {
        Ok(transcript) => Ok(
            finalize_live_transcript(transcript, post_process_enabled.unwrap_or(false)),
        ),
        Err(error) => Err(error),
    }
}

/// What the cleanup of a transcript is asked for: the prompt that was given, or the default where
/// there is none but whitespace.
pub open spec fn system_prompt(prompt: Option<Seq<char>>) -> Seq<char> {
    match prompt {
        Some(prompt) => if blank(prompt) {
            DEFAULT_POST_PROCESS_PROMPT@
        } else {
            prompt
        },
        None => DEFAULT_POST_PROCESS_PROMPT@,
    }
}

/// The text that asks for the cleanup of a transcript.
pub open spec fn cleanup_request(transcript: Seq<char>) -> Seq<char> {
    "Clean this transcript and return only the final text:\n\n"@ + transcript
}

/// One message of a conversation.
pub open spec fn chat_message_json(role: Seq<char>, content: Seq<char>) -> Json {
    object(seq![("role"@, Json::Text(role)), ("content"@, Json::Text(content))])
}

/// The request for the cleanup of a transcript.
pub open spec fn post_process_json(transcript: Seq<char>, prompt: Option<Seq<char>>) -> Json {
    object(
        seq![
            ("model"@, Json::Text(POST_PROCESS_MODEL@)),
            ("temperature"@, Json::Number(decimal(0))),
            (
                "messages"@,
                Json::List(
                    seq![
                        chat_message_json("system"@, system_prompt(prompt)),
                        chat_message_json("user"@, cleanup_request(transcript)),
                    ],
                ),
            ),
        ],
    )
}

fn chat_message(role: &str, content: &str) -> (r: Value)
    ensures
        json_of(r) == chat_message_json(role@, content@),
{
    let mut entries: Vec<(String, Value)> = Vec::new();
    entries.push(entry("role", text_value(role)));
    entries.push(entry("content", text_value(content)));
    proof {
        reveal_strlit("role");
        reveal_strlit("content");
    }
    assert("role"@.len() == 4 && "content"@.len() == 7);
    assert(entries_of(entries@) =~= seq![
        ("role"@, Json::Text(role@)),
        ("content"@, Json::Text(content@)),
    ]);
    object_value(entries)
}

/// The request for the cleanup of a transcript.
pub fn post_process_request(transcript: &str, prompt: Option<String>) -> (request: Value)
    ensures
        json_of(request) == post_process_json(transcript@, text_of(prompt)),
{
    let ghost asked = text_of(prompt);
    let system = match prompt {
        Some(prompt) => {
            proof {
                trimmed_is_empty_iff_blank(prompt@);
            }
            if trim(prompt.as_str()).is_empty() {
                DEFAULT_POST_PROCESS_PROMPT.to_owned()
            } else {
                prompt
            }
        },
        None => DEFAULT_POST_PROCESS_PROMPT.to_owned(),
    };
    let user = concat("Clean this transcript and return only the final text:\n\n", transcript);
    let mut messages: Vec<Value> = Vec::new();
    messages.push(chat_message("system", system.as_str()));
    messages.push(chat_message("user", user.as_str()));
    assert(jsons_of(messages@) =~= seq![
        chat_message_json("system"@, system_prompt(asked)),
        chat_message_json("user"@, cleanup_request(transcript@)),
    ]);
    let list = list_value(messages);
    let mut entries: Vec<(String, Value)> = Vec::new();
    entries.push(entry("model", text_value(POST_PROCESS_MODEL)));
    entries.push(entry("temperature", number_value(0)));
    entries.push(entry("messages", list));
    proof {
        reveal_strlit("model");
        reveal_strlit("temperature");
        reveal_strlit("messages");
    }
    assert("model"@.len() == 5 && "temperature"@.len() == 11 && "messages"@.len() == 8);
    assert(entries_of(entries@) =~= seq![
        ("model"@, Json::Text(POST_PROCESS_MODEL@)),
        ("temperature"@, Json::Number(decimal(0))),
        ("messages"@, json_of(list)),
    ]);
    object_value(entries)
}

/// The text of the first choice in a reply of the cleanup.
pub open spec fn first_choice(body: Json) -> Option<Seq<char>> {
    match body.member("choices"@) {
        Some(choices) => match choices.element(0) {
            Some(choice) => match choice.member("message"@) {
                Some(message) => message.member_text("content"@),
                None => None,
            },
            None => None,
        },
        None => None,
    }
}

/// The cleaned transcript that a reply of the cleanup stands for, or the error. A reply without
/// words is an error.
pub open spec fn cleaned_body(body: Json) -> Result<Seq<char>, Seq<char>> {
    match first_choice(body) {
        Some(content) => if blank(content) {
            Err("Post-process returned an empty transcript"@)
        } else {
            Ok(trimmed(content))
        },
        None => Err("Post-process returned an empty transcript"@),
    }
}

/// The cleaned transcript that a reply of the cleanup stands for, or the error.
pub open spec fn cleaned_transcript(reply: ApiReply<Value>) -> Result<Seq<char>, Seq<char>> {
    match reply {
        ApiReply::SendFailed(error) => Err("Post-process request failed: "@ + error@),
        ApiReply::Refused(error) => Err("Post-process API error: "@ + error@),
        ApiReply::Unreadable(error) => Err("Failed to read post-process response: "@ + error@),
        ApiReply::Body(body) => cleaned_body(json_of(body)),
    }
}

/// The text of the first choice in a reply of the cleanup.
fn choice_text(body: &Value) -> (r: Option<&str>)
    ensures
        match r {
            Some(text) => first_choice(json_of(*body)) == Some(text@),
            None => first_choice(json_of(*body)) is None,
        },
{
    match member(body, "choices") {
        Some(choices) => match element(choices, 0) {
            Some(choice) => match member(choice, "message") {
                Some(message) => member_text(message, "content"),
                None => None,
            },
            None => None,
        },
        None => None,
    }
}

/// The cleaned transcript that a reply of the cleanup stands for, or the error.
pub fn post_process_transcript(reply: ApiReply<Value>) -> (r: Result<String, String>)
    ensures
        text_matches(r, cleaned_transcript(reply)),
{
    match reply {
        ApiReply::SendFailed(error) => Err(concat("Post-process request failed: ", error.as_str())),
        ApiReply::Refused(error) => Err(concat("Post-process API error: ", error.as_str())),
        ApiReply::Unreadable(error) => Err(
            concat("Failed to read post-process response: ", error.as_str()),
        ),
        ApiReply::Body(body) => {
            let content = match choice_text(&body) {
                Some(content) => content,
                None => {
                    return Err("Post-process returned an empty transcript".to_owned());
                },
            };
            proof {
                trimmed_is_empty_iff_blank(content@);
            }
            let cleaned = trim(content).to_owned();
            if cleaned.as_str().is_empty() {
                return Err("Post-process returned an empty transcript".to_owned());
            }
            Ok(cleaned)
        },
    }
}

/// A transcript after its cleanup.
pub fn finalize_transcript(transcript: String, reply: ApiReply<Value>) -> (result:
    TranscriptionResult)
    ensures
        result@ == Transcript::finalized(transcript@, cleaned_transcript(reply)),
{
    match post_process_transcript(reply) {
        Ok(cleaned) => TranscriptionResult {
            transcript: cleaned,
            post_process_applied: true,
            post_process_error: None,
        },
        Err(error) => TranscriptionResult {
            transcript,
            post_process_applied: false,
            post_process_error: Some(error),
        },
    }
}

/// A cleanup never loses a transcript: either its words replace those of the transcript, and then
/// there are some and no whitespace around them, or it failed, the words stay as they were and the
/// error is told.
pub proof fn cleanups_never_lose_a_transcript(words: Seq<char>, reply: ApiReply<Value>)
    ensures
        ({
            let result = Transcript::finalized(words, cleaned_transcript(reply));
            &&& result.cleaned <==> result.error is None
            &&& result.cleaned ==> result.words.len() > 0 && tight(result.words)
            &&& !result.cleaned ==> result.words == words
        }),
{
    if let ApiReply::Body(body) = reply {
        if let Some(content) = first_choice(json_of(body)) {
            trimmed_is_empty_iff_blank(content);
            trimmed_is_tight(content);
        }
    }
}

/// The first choice of a reply is the text at `choices[0].message.content`, and there is none
/// exactly where there is no string at that place.
pub proof fn first_choices_are_where_the_service_puts_them(body: Json, words: Seq<char>)
    ensures
        first_choice(body) == Some(words) <==> exists|choices: Json, choice: Json, message: Json|
            {
                &&& body.member("choices"@) == Some(choices)
                &&& #[trigger] choices.element(0) == Some(choice)
                &&& #[trigger] choice.member("message"@) == Some(message)
                &&& #[trigger] message.member_text("content"@) == Some(words)
            },
{
    if first_choice(body) == Some(words) {
        let choices = body.member("choices"@)->0;
        let choice = choices.element(0)->0;
        let message = choice.member("message"@)->0;
        assert(choices.element(0) == Some(choice));
        assert(choice.member("message"@) == Some(message));
        assert(message.member_text("content"@) == Some(words));
    }
}

/// A good cleanup is always used: wherever the reply has a string at `choices[0].message.content`
/// that is not blank, the result is that string without the whitespace around it, it counts as
/// cleaned and there is no error, whatever the transcript was.
pub proof fn good_cleanups_are_used(
    transcript: Seq<char>,
    body: Value,
    choices: Json,
    choice: Json,
    message: Json,
    content: Seq<char>,
)
    requires
        json_of(body).member("choices"@) == Some(choices),
        choices.element(0) == Some(choice),
        choice.member("message"@) == Some(message),
        message.member_text("content"@) == Some(content),
        !blank(content),
    ensures
        ({
            let result = Transcript::finalized(
                transcript,
                cleaned_transcript(ApiReply::Body(body)),
            );
            &&& result.words == trimmed(content)
            &&& result.cleaned
            &&& result.error is None
        }),
{
}

/// A cleaned transcript does not depend on what was said: of two transcripts that are cleaned up to
/// the same reply, the one is cleaned exactly when the other is, and to the same words.
pub proof fn cleanups_depend_on_the_reply_alone(
    words: Seq<char>,
    other: Seq<char>,
    reply: ApiReply<Value>,
)
    ensures
        ({
            let one = Transcript::finalized(words, cleaned_transcript(reply));
            let two = Transcript::finalized(other, cleaned_transcript(reply));
            &&& one.cleaned == two.cleaned
            &&& one.error == two.error
            &&& one.cleaned ==> one.words == two.words
        }),
{
}

/// A cleanup that cannot be used leaves the transcript as it was, and tells why: that the request
/// failed, was refused or was not understood, with the reason in full, or that there were no words.
pub proof fn failed_cleanups_leave_the_transcript_and_tell_why(
    transcript: Seq<char>,
    reason: String,
    body: Value,
)
    ensures
        ({
            let result = Transcript::finalized(
                transcript,
                cleaned_transcript(ApiReply::SendFailed(reason)),
            );
            &&& result.words == transcript && !result.cleaned
            &&& result.error == Some("Post-process request failed: "@ + reason@)
        }),
        ({
            let result = Transcript::finalized(
                transcript,
                cleaned_transcript(ApiReply::Refused(reason)),
            );
            &&& result.words == transcript && !result.cleaned
            &&& result.error == Some("Post-process API error: "@ + reason@)
        }),
        ({
            let result = Transcript::finalized(
                transcript,
                cleaned_transcript(ApiReply::Unreadable(reason)),
            );
            &&& result.words == transcript && !result.cleaned
            &&& result.error == Some("Failed to read post-process response: "@ + reason@)
        }),
        first_choice(json_of(body)) is None || blank(first_choice(json_of(body))->0) ==> {
            let result = Transcript::finalized(
                transcript,
                cleaned_transcript(ApiReply::Body(body)),
            );
            &&& result.words == transcript && !result.cleaned
            &&& result.error == Some("Post-process returned an empty transcript"@)
        },
        first_choice(json_of(body)) is None || blank(first_choice(json_of(body))->0)
            ==> cleaned_transcript(ApiReply::Body(body)) == Err::<Seq<char>, Seq<char>>(
            "Post-process returned an empty transcript"@,
        ),
        first_choice(json_of(body)) is Some && !blank(first_choice(json_of(body))->0)
            ==> cleaned_transcript(ApiReply::Body(body)) == Ok::<Seq<char>, Seq<char>>(
            trimmed(first_choice(json_of(body))->0),
        ),
        cleaned_transcript(ApiReply::SendFailed(reason)) == Err::<Seq<char>, Seq<char>>(
            "Post-process request failed: "@ + reason@,
        ),
        cleaned_transcript(ApiReply::Refused(reason)) == Err::<Seq<char>, Seq<char>>(
            "Post-process API error: "@ + reason@,
        ),
        cleaned_transcript(ApiReply::Unreadable(reason)) == Err::<Seq<char>, Seq<char>>(
            "Failed to read post-process response: "@ + reason@,
        ),
{
}

/// The transcript of a recording is the service's text without the whitespace around it, even where
/// nothing is left; a reply that is none tells its reason in full.
pub proof fn transcripts_are_the_text_of_the_reply(text: String)
    ensures
        replied_transcript(ApiReply::Body(text)) == Ok::<Seq<char>, Seq<char>>(trimmed(text@)),
        replied_transcript(ApiReply::SendFailed(text)) == Err::<Seq<char>, Seq<char>>(
            "API request failed: "@ + text@,
        ),
        replied_transcript(ApiReply::Refused(text)) == Err::<Seq<char>, Seq<char>>(
            "OpenAI API error: "@ + text@,
        ),
        replied_transcript(ApiReply::Unreadable(text)) == Err::<Seq<char>, Seq<char>>(
            "Failed to read transcription response: "@ + text@,
        ),
{
}

/// A transcript goes on to the cleanup exactly where that is wanted, with all its words; otherwise
/// it is finished with all its words, neither cleaned nor with an error.
pub proof fn transcripts_are_cleaned_up_exactly_where_wanted(
    step: TranscriptStep,
    words: Seq<char>,
    post_process: bool,
)
    ensures
        step_matches(step, words, post_process) && post_process <==> (
        step matches TranscriptStep::PostProcess(transcript) && transcript@ == words
            && post_process),
        step_matches(step, words, post_process) && !post_process <==> (
        step matches TranscriptStep::Done(result) && result.transcript@ == words
            && !result.post_process_applied && result.post_process_error is None && !post_process),
        Transcript::raw(words).words == words,
        !Transcript::raw(words).cleaned,
        Transcript::raw(words).error is None,
{
}

/// A finished transcript is seen as it is: no part of it stands for another.
pub proof fn results_are_seen_as_they_are(result: TranscriptionResult)
    ensures
        result@.words == result.transcript@,
        result@.cleaned == result.post_process_applied,
        result.post_process_error is None ==> result@.error is None,
        result.post_process_error is Some ==> result@.error == Some(result.post_process_error->0@),
{
}

/// A recording is uploaded under its own name, and as `audio.wav` where it has none. The fields of a
/// form are seen each with its name and its value, in order.
pub proof fn uploads_keep_names_and_fields(name: Seq<char>, fields: Seq<(String, String)>)
    ensures
        upload_name(Some(name)) == name,
        upload_name(None) == "audio.wav"@,
        fields_of(fields).len() == fields.len(),
        forall|i: int|
            0 <= i < fields.len() ==> #[trigger] fields_of(fields)[i] == (
                fields[i].0@,
                fields[i].1@,
            ),
{
}

/// The request for a cleanup names the model, asks for no variation, and holds two messages: the
/// system's, with the prompt as it was given or the default where none was but whitespace, and the
/// user's, with the whole transcript after what is asked for. It holds nothing else.
pub proof fn cleanups_are_asked_for_with_prompt_and_transcript(
    transcript: Seq<char>,
    prompt: Option<Seq<char>>,
)
    ensures
        post_process_json(transcript, prompt) matches Json::Object(request) && {
            &&& request.dom() == set!["model"@, "temperature"@, "messages"@]
            &&& request["model"@] == Json::Text("gpt-4o-mini"@)
            &&& request["temperature"@] == Json::Number(decimal(0))
            &&& request["messages"@] matches Json::List(messages) && {
                &&& messages.len() == 2
                &&& messages[0] matches Json::Object(system) && {
                    &&& system.dom() == set!["role"@, "content"@]
                    &&& system["role"@] == Json::Text("system"@)
                    &&& prompt is Some && !blank(prompt->0) ==> system["content"@] == Json::Text(
                        prompt->0,
                    )
                    &&& prompt is None || blank(prompt->0) ==> system["content"@] == Json::Text(
                        "Clean up this voice transcript. Remove filler words like um, uh, ah, and you know. Fix punctuation, capitalization, spelling, and grammar. Preserve the speaker's meaning, wording, tone, and formatting as much as possible. Return only the cleaned transcript."@,
                    )
                }
                &&& messages[1] matches Json::Object(user) && {
                    &&& user.dom() == set!["role"@, "content"@]
                    &&& user["role"@] == Json::Text("user"@)
                    &&& user["content"@] == Json::Text(
                        "Clean this transcript and return only the final text:\n\n"@ + transcript,
                    )
                }
            }
        },
{
    reveal_strlit("role");
    reveal_strlit("content");
    reveal_strlit("model");
    reveal_strlit("temperature");
    reveal_strlit("messages");
    assert("role"@.len() == 4 && "content"@.len() == 7);
    assert("model"@.len() == 5 && "temperature"@.len() == 11 && "messages"@.len() == 8);
    lemma_object_of_two(
        ("role"@, Json::Text("system"@)),
        ("content"@, Json::Text(system_prompt(prompt))),
    );
    lemma_object_of_two(
        ("role"@, Json::Text("user"@)),
        ("content"@, Json::Text(cleanup_request(transcript))),
    );
    lemma_object_of_three(
        ("model"@, Json::Text(POST_PROCESS_MODEL@)),
        ("temperature"@, Json::Number(decimal(0))),
        (
            "messages"@,
            Json::List(
                seq![
                    chat_message_json("system"@, system_prompt(prompt)),
                    chat_message_json("user"@, cleanup_request(transcript)),
                ],
            ),
        ),
    );
}

/// Why a recording could not be uploaded is told with its reason in full.
pub proof fn upload_failures_tell_their_reason(reason: String)
    ensures
        UploadFailure::Client(reason).in_words() == "Failed to configure OpenAI client: "@ + reason@,
        UploadFailure::AudioFile(reason).in_words() == "Failed to read audio file: "@ + reason@,
{
}

/// Requests go to the transcription and chat services of OpenAI, and wait for ten seconds for a
/// connection and for three minutes for a reply.
pub proof fn requests_go_to_their_services()
    ensures
        TRANSCRIPTIONS_URL@ == "https://api.openai.com/v1/audio/transcriptions"@,
        CHAT_URL@ == "https://api.openai.com/v1/chat/completions"@,
        CONNECT_TIMEOUT_SECONDS == 10,
        REQUEST_TIMEOUT_SECONDS == 180,
        POST_PROCESS_MODEL@ == "gpt-4o-mini"@,
{
}

} // verus!
