//! Realtime transcription: the messages that a session sends, what it makes of the server's
//! events, and when it is over.

use serde_json::Value;
use vstd::prelude::*;

use crate::json::{
    entries_of, entry, json_of, json_read, json_text, lemma_object_of_one, lemma_object_of_three,
    lemma_object_of_two, member, member_text, members_of, number_value, object, object_value,
    read_value, text_value, value_text, Json,
};
use crate::pcm::{base64_len, base64_of, encode_base64, pcm16, resample_to_pcm16, resampled_len};
use crate::text::{
    blank, concat, decimal, same_text, tight, trim, trimmed, trimmed_is_empty_iff_blank,
    trimmed_is_tight, trimmed_keeps_tight,
};

verus! {

/// Where the realtime service is found.
pub const REALTIME_URL: &'static str = "wss://api.openai.com/v1/realtime?intent=transcription";

/// The sample rate that the realtime service takes.
pub const TARGET_SAMPLE_RATE: u32 = 24_000;

/// The model that a session asks for: the larger one by name, and the small one otherwise.
pub open spec fn selected_model(model: Seq<char>) -> Seq<char> {
    if model == "gpt-4o-transcribe"@ {
        "gpt-4o-transcribe"@
    } else {
        "gpt-4o-mini-transcribe"@
    }
}

/// The transcription settings of a session. Dictation is in English; a prompt is sent only where
/// there is one.
pub open spec fn settings_json(model: Seq<char>, prompt: Seq<char>) -> Json {
    let entries = seq![
        ("model"@, Json::Text(selected_model(model))),
        ("language"@, Json::Text("en"@)),
    ];
    if blank(prompt) {
        object(entries)
    } else {
        object(entries.push(("prompt"@, Json::Text(prompt))))
    }
}

/// The transcription settings of a session.
pub fn transcription_settings(model: &str, prompt: &str) -> (settings: Value)
    ensures
        json_of(settings) == settings_json(model@, prompt@),
{
    let selected = if same_text(model, "gpt-4o-transcribe") {
        "gpt-4o-transcribe"
    } else {
        "gpt-4o-mini-transcribe"
    };
    let mut entries: Vec<(String, Value)> = Vec::new();
    entries.push(entry("model", text_value(selected)));
    entries.push(entry("language", text_value("en")));
    let ghost base = seq![
        ("model"@, Json::Text(selected_model(model@))),
        ("language"@, Json::Text("en"@)),
    ];
    assert(entries_of(entries@) =~= base);
    proof {
        trimmed_is_empty_iff_blank(prompt@);
        reveal_strlit("model");
        reveal_strlit("language");
        reveal_strlit("prompt");
    }
    assert("model"@.len() == 5 && "language"@.len() == 8 && "prompt"@.len() == 6);
    if !trim(prompt).is_empty() {
        entries.push(entry("prompt", text_value(prompt)));
        assert(entries_of(entries@) =~= base.push(("prompt"@, Json::Text(prompt@))));
    }
    object_value(entries)
}

/// Whatever the model and the prompt, a session transcribes English, and it has a prompt exactly
/// when one was given.
pub proof fn settings_are_english_without_an_implicit_prompt(model: Seq<char>, prompt: Seq<char>)
    ensures
        settings_json(model, prompt).member_text("model"@) == Some(selected_model(model)),
        settings_json(model, prompt).member_text("language"@) == Some("en"@),
        blank(prompt) ==> settings_json(model, prompt).member("prompt"@) is None,
        !blank(prompt) ==> settings_json(model, prompt).member_text("prompt"@) == Some(prompt),
{
    reveal_strlit("model");
    reveal_strlit("language");
    reveal_strlit("prompt");
    assert("model"@.len() == 5 && "language"@.len() == 8 && "prompt"@.len() == 6);
    let entries = seq![
        ("model"@, Json::Text(selected_model(model))),
        ("language"@, Json::Text("en"@)),
    ];
    assert(entries.push(("prompt"@, Json::Text(prompt))).drop_last() =~= entries);
    reveal_with_fuel(members_of, 4);
}

/// The message that configures a session.
pub open spec fn session_update_json(model: Seq<char>, prompt: Seq<char>) -> Json {
    object(
        seq![
            ("type"@, Json::Text("session.update"@)),
            (
                "session"@,
                object(
                    seq![
                        ("type"@, Json::Text("transcription"@)),
                        (
                            "audio"@,
                            object(seq![("input"@, audio_input_json(settings_json(model, prompt)))]),
                        ),
                    ],
                ),
            ),
        ],
    )
}

/// How a session's audio comes in: its format, how it is transcribed, and that the server tells
/// the turns apart by half a second of silence.
pub open spec fn audio_input_json(transcription: Json) -> Json {
    object(
        seq![
            (
                "format"@,
                object(
                    seq![
                        ("type"@, Json::Text("audio/pcm"@)),
                        ("rate"@, Json::Number(decimal(24_000))),
                    ],
                ),
            ),
            ("transcription"@, transcription),
            (
                "turn_detection"@,
                object(
                    seq![
                        ("type"@, Json::Text("server_vad"@)),
                        ("silence_duration_ms"@, Json::Number(decimal(500))),
                    ],
                ),
            ),
        ],
    )
}

/// An object of one entry.
fn object_of_one(first: (String, Value)) -> (r: Value)
    ensures
        json_of(r) == object(seq![(first.0@, json_of(first.1))]),
{
    let mut entries: Vec<(String, Value)> = Vec::new();
    entries.push(first);
    assert(entries_of(entries@) =~= seq![(first.0@, json_of(first.1))]);
    object_value(entries)
}

/// An object of two entries.
fn object_of_two(first: (String, Value), second: (String, Value)) -> (r: Value)
    requires
        first.0@ != second.0@,
    ensures
        json_of(r) == object(seq![(first.0@, json_of(first.1)), (second.0@, json_of(second.1))]),
{
    let mut entries: Vec<(String, Value)> = Vec::new();
    entries.push(first);
    entries.push(second);
    assert(entries_of(entries@) =~= seq![
        (first.0@, json_of(first.1)),
        (second.0@, json_of(second.1)),
    ]);
    object_value(entries)
}

fn audio_input(transcription: Value) -> (r: Value)
    ensures
        json_of(r) == audio_input_json(json_of(transcription)),
{
    proof {
        reveal_strlit("type");
        reveal_strlit("rate");
        reveal_strlit("silence_duration_ms");
        reveal_strlit("format");
        reveal_strlit("transcription");
        reveal_strlit("turn_detection");
    }
    assert("type"@[0] != "rate"@[0]);
    assert("type"@.len() == 4 && "silence_duration_ms"@.len() == 19);
    assert("format"@.len() == 6 && "transcription"@.len() == 13 && "turn_detection"@.len() == 14);
    let format = object_of_two(
        entry("type", text_value("audio/pcm")),
        entry("rate", number_value(TARGET_SAMPLE_RATE as u64)),
    );
    let turn_detection = object_of_two(
        entry("type", text_value("server_vad")),
        entry("silence_duration_ms", number_value(500)),
    );
    let mut entries: Vec<(String, Value)> = Vec::new();
    entries.push(entry("format", format));
    entries.push(entry("transcription", transcription));
    entries.push(entry("turn_detection", turn_detection));
    assert(entries_of(entries@) =~= seq![
        ("format"@, json_of(format)),
        ("transcription"@, json_of(transcription)),
        ("turn_detection"@, json_of(turn_detection)),
    ]);
    object_value(entries)
}

/// The message that configures a session, as it is sent.
pub fn session_update_message(model: &str, prompt: &str) -> (message: String)
    ensures
        message@ == json_text(session_update_json(model@, prompt@)),
{
    proof {
        reveal_strlit("type");
        reveal_strlit("audio");
        reveal_strlit("session");
    }
    assert("type"@.len() == 4 && "audio"@.len() == 5 && "session"@.len() == 7);
    let input = audio_input(transcription_settings(model, prompt));
    let audio = object_of_one(entry("input", input));
    let session = object_of_two(
        entry("type", text_value("transcription")),
        entry("audio", audio),
    );
    let update = object_of_two(
        entry("type", text_value("session.update")),
        entry("session", session),
    );
    value_text(&update)
}

/// The message that carries a chunk of audio, given as the bytes to send.
pub open spec fn append_json(pcm: Seq<u8>) -> Json {
    object(
        seq![
            ("type"@, Json::Text("input_audio_buffer.append"@)),
            ("audio"@, Json::Text(base64_of(pcm))),
        ],
    )
}

/// The message that carries a chunk of audio recorded at `source_rate`, and nothing where the
/// chunk is too short to make a sample.
pub fn audio_message(samples: &[i16], source_rate: u32) -> (message: Option<String>)
    requires
        base64_len(2 * resampled_len(samples@.len(), source_rate as nat, 24_000)) <= isize::MAX,
    ensures
        ({
            let pcm = pcm16(samples@, source_rate as nat, 24_000);
            match message {
                Some(message) => pcm.len() > 0 && message@ == json_text(append_json(pcm)),
                None => pcm.len() == 0,
            }
        }),
{
    let pcm = resample_to_pcm16(samples, source_rate, TARGET_SAMPLE_RATE);
    if pcm.is_empty() {
        return None;
    }
    proof {
        reveal_strlit("type");
        reveal_strlit("audio");
    }
    assert("type"@.len() == 4 && "audio"@.len() == 5);
    let append = object_of_two(
        entry("type", text_value("input_audio_buffer.append")),
        entry("audio", text_value(encode_base64(pcm.as_slice()).as_str())),
    );
    Some(value_text(&append))
}

/// The message that ends the audio of a session.
pub open spec fn commit_json() -> Json {
    object(seq![("type"@, Json::Text("input_audio_buffer.commit"@))])
}

/// The message that ends the audio of a session, as it is sent.
pub fn commit_message() -> (message: String)
    ensures
        message@ == json_text(commit_json()),
{
    value_text(&object_of_one(entry("type", text_value("input_audio_buffer.commit"))))
}

/// A transcript with a segment added: the segment without the whitespace around it, after a
/// space where there is something before it. A segment of nothing but whitespace adds nothing.
pub open spec fn appended(transcript: Seq<char>, segment: Seq<char>) -> Seq<char> {
    let segment = trimmed(segment);
    if segment.len() == 0 {
        transcript
    } else if transcript.len() == 0 {
        segment
    } else {
        transcript.push(' ') + segment
    }
}

/// Adds a segment to a transcript.
pub fn append_segment(transcript: &mut String, segment: &str)
    ensures
        final(transcript)@ == appended(old(transcript)@, segment@),
{
    let segment = trim(segment);
    if segment.is_empty() {
        return;
    }
    if !transcript.as_str().is_empty() {
        transcript.append(" ");
        proof {
            reveal_strlit(" ");
        }
        assert(transcript@ =~= old(transcript)@.push(' '));
    } else {
        assert(transcript@ =~= Seq::empty());
        assert(transcript@ + segment@ =~= segment@);
    }
    transcript.append(segment);
}

/// The transcript of segments added one after the other.
pub open spec fn transcript_of(segments: Seq<Seq<char>>) -> Seq<char>
    decreases segments.len(),
{
    if segments.len() == 0 {
        Seq::empty()
    } else {
        appended(transcript_of(segments.drop_last()), segments.last())
    }
}

/// The segments that hold more than whitespace, without the whitespace around them.
pub open spec fn spoken(segments: Seq<Seq<char>>) -> Seq<Seq<char>>
    decreases segments.len(),
{
    if segments.len() == 0 {
        Seq::empty()
    } else if blank(segments.last()) {
        spoken(segments.drop_last())
    } else {
        spoken(segments.drop_last()).push(trimmed(segments.last()))
    }
}

/// Phrases with a single space between each two.
pub open spec fn spaced(phrases: Seq<Seq<char>>) -> Seq<char>
    decreases phrases.len(),
{
    if phrases.len() == 0 {
        Seq::empty()
    } else if phrases.len() == 1 {
        phrases[0]
    } else {
        spaced(phrases.drop_last()).push(' ') + phrases.last()
    }
}

/// Segments are joined without empty gaps: the transcript is the segments that hold more than
/// whitespace, trimmed, with a single space between each two, and it has no whitespace at its
/// ends.
pub proof fn segments_join_without_empty_gaps(segments: Seq<Seq<char>>)
    ensures
        transcript_of(segments) == spaced(spoken(segments)),
        tight(transcript_of(segments)),
        transcript_of(segments).len() == 0 <==> spoken(segments).len() == 0,
        spoken(segments).len() == 0 <==> forall|i: int|
            0 <= i < segments.len() ==> blank(#[trigger] segments[i]),
    decreases segments.len(),
{
    if segments.len() > 0 {
        let before = segments.drop_last();
        let last = segments.last();
        segments_join_without_empty_gaps(before);
        trimmed_is_empty_iff_blank(last);
        trimmed_is_tight(last);
        if blank(last) {
            assert forall|i: int|
                spoken(segments).len() == 0 && 0 <= i < segments.len() implies blank(
                #[trigger] segments[i],
            ) by {
                if i < before.len() {
                    assert(blank(before[i]));
                }
            }
            assert forall|i: int|
                (forall|k: int| 0 <= k < segments.len() ==> blank(#[trigger] segments[k])) && 0 <= i
                    < before.len() implies blank(#[trigger] before[i]) by {
                assert(blank(segments[i]));
            }
        } else {
            let phrases = spoken(segments);
            assert(phrases.drop_last() =~= spoken(before));
            assert(!blank(segments[segments.len() - 1]));
        }
    }
}

/// What a session has taken in so far.
pub struct Transcription {
    /// The segments that the server completed, joined.
    pub completed: Seq<char>,
    /// The text of the segment that is under way.
    pub delta: Seq<char>,
    /// Whether there is no more audio to come.
    pub producer_closed: bool,
    /// Whether the server was told so.
    pub commit_sent: bool,
    /// When to stop waiting for the server, in nanoseconds since the session began.
    pub deadline: Option<nat>,
}

/// What a session does after an event of the server.
pub enum Verdict {
    /// It waits for more.
    Continue,
    /// It is complete.
    Finish,
    /// It fails, with these words.
    Fail(Seq<char>),
}

/// How long a session waits for the last transcript once its audio has ended, in nanoseconds.
pub const FINISH_TIMEOUT_NANOS: u64 = 8_000_000_000;

impl Transcription {
    /// A session that has taken in nothing.
    pub open spec fn fresh() -> Self {
        Transcription {
            completed: Seq::empty(),
            delta: Seq::empty(),
            producer_closed: false,
            commit_sent: false,
            deadline: None,
        }
    }

    /// The session once there is no more audio to come.
    pub open spec fn closed(self) -> Self {
        Transcription { producer_closed: true, ..self }
    }

    /// The session after it asked for recorded audio.
    pub open spec fn polled(self, polled: Polled) -> Self {
        match polled {
            Polled::Closed => self.closed(),
            _ => self,
        }
    }

    /// Whether the server is still to be told that the audio has ended.
    pub open spec fn owes_commit(self) -> bool {
        self.producer_closed && !self.commit_sent
    }

    /// The session once the server was told, at `now`, that the audio has ended.
    pub open spec fn committed(self, now: nat) -> Self {
        Transcription {
            commit_sent: true,
            deadline: Some(now + FINISH_TIMEOUT_NANOS as nat),
            ..self
        }
    }

    /// Whether the session has waited long enough for the last transcript.
    pub open spec fn overdue(self, now: nat) -> bool {
        self.deadline is Some && now >= self.deadline->0
    }

    /// The session after an event of the server.
    pub open spec fn after(self, event: Json) -> Self {
        let kind = event.member_text("type"@);
        if kind == Some("conversation.item.input_audio_transcription.delta"@) {
            match event.member_text("delta"@) {
                Some(delta) => Transcription { delta: self.delta + delta, ..self },
                None => self,
            }
        } else if kind == Some("conversation.item.input_audio_transcription.completed"@) {
            let segment = match event.member_text("transcript"@) {
                Some(transcript) => transcript,
                None => self.delta,
            };
            Transcription {
                completed: appended(self.completed, segment),
                delta: Seq::empty(),
                ..self
            }
        } else {
            self
        }
    }

    /// What the session does after an event of the server: it is complete with the first segment
    /// that is completed once the audio has ended, and an error of the server fails it.
    pub open spec fn verdict(self, event: Json) -> Verdict {
        let kind = event.member_text("type"@);
        if kind == Some("conversation.item.input_audio_transcription.completed"@)
            && self.producer_closed {
            Verdict::Finish
        } else if kind == Some("error"@) {
            Verdict::Fail("Realtime API error: "@ + error_words(event))
        } else {
            Verdict::Continue
        }
    }

    /// The words of the finished transcript, and nothing where there are none.
    pub open spec fn transcript(self) -> Seq<char> {
        trimmed(appended(self.completed, self.delta))
    }
}

/// What an error event says.
pub open spec fn error_words(event: Json) -> Seq<char> {
    let message = match event.member("error"@) {
        Some(error) => error.member_text("message"@),
        None => None,
    };
    match message {
        Some(message) => message,
        None => "Unknown realtime API error"@,
    }
}

/// What came of asking for recorded audio.
pub enum Polled {
    /// A chunk of it.
    Chunk(Seq<i16>),
    /// There is none yet.
    Empty,
    /// There is no more to come.
    Closed,
}

impl Polled {
    /// The message that is sent for what came, where one is: for each chunk that makes a sample.
    pub open spec fn message(self, source_rate: u32) -> Option<Json> {
        match self {
            Polled::Chunk(samples) => {
                let pcm = pcm16(samples, source_rate as nat, 24_000);
                if pcm.len() > 0 {
                    Some(append_json(pcm))
                } else {
                    None
                }
            },
            _ => None,
        }
    }
}

/// Something that happens to a session.
pub enum SessionEvent {
    /// It asked for recorded audio.
    Audio(Polled),
    /// The server was told so, this many nanoseconds into the session.
    CommitSent(nat),
    /// An event of the server came in.
    Server(Json),
}

impl Transcription {
    /// The session after something happened to it.
    pub open spec fn step(self, event: SessionEvent) -> Self {
        match event {
            SessionEvent::Audio(polled) => self.polled(polled),
            SessionEvent::CommitSent(now) => if self.owes_commit() {
                self.committed(now)
            } else {
                self
            },
            SessionEvent::Server(event) => self.after(event),
        }
    }

    /// A new session after all that happened to it.
    pub open spec fn run(events: Seq<SessionEvent>) -> Self
        decreases events.len(),
    {
        if events.len() == 0 {
            Transcription::fresh()
        } else {
            Transcription::run(events.drop_last()).step(events.last())
        }
    }
}

/// The segments that the server completed, in order, and the text of the one under way.
pub open spec fn heard(events: Seq<SessionEvent>) -> (Seq<Seq<char>>, Seq<char>)
    decreases events.len(),
{
    if events.len() == 0 {
        (Seq::empty(), Seq::empty())
    } else {
        let (segments, pending) = heard(events.drop_last());
        match events.last() {
            SessionEvent::Server(event) => {
                let kind = event.member_text("type"@);
                if kind == Some("conversation.item.input_audio_transcription.delta"@) {
                    match event.member_text("delta"@) {
                        Some(delta) => (segments, pending + delta),
                        None => (segments, pending),
                    }
                } else if kind == Some("conversation.item.input_audio_transcription.completed"@) {
                    match event.member_text("transcript"@) {
                        Some(transcript) => (segments.push(transcript), Seq::empty()),
                        None => (segments.push(pending), Seq::empty()),
                    }
                } else {
                    (segments, pending)
                }
            },
            _ => (segments, pending),
        }
    }
}

/// In every state that a session reaches, the server was told that the audio has ended only after
/// it had, and there is a time to stop waiting exactly when the server was told.
pub proof fn sessions_commit_only_ended_audio(events: Seq<SessionEvent>)
    ensures
        Transcription::run(events).commit_sent ==> Transcription::run(events).producer_closed,
        Transcription::run(events).commit_sent <==> Transcription::run(events).deadline is Some,
    decreases events.len(),
{
    if events.len() > 0 {
        sessions_commit_only_ended_audio(events.drop_last());
    }
}

/// A session tells the server only once that the audio has ended, and from then on the time to
/// stop waiting stays what it is.
pub proof fn sessions_commit_once(before: Seq<SessionEvent>, later: Seq<SessionEvent>)
    requires
        Transcription::run(before).commit_sent,
    ensures
        !Transcription::run(before + later).owes_commit(),
        Transcription::run(before + later).deadline == Transcription::run(before).deadline,
    decreases later.len(),
{
    if later.len() > 0 {
        sessions_commit_once(before, later.drop_last());
        sessions_commit_only_ended_audio(before + later.drop_last());
        sessions_commit_only_ended_audio(before);
        assert((before + later).drop_last() =~= before + later.drop_last());
    } else {
        assert(before + later =~= before);
    }
}

/// The messages that a session sends while all this happens to it: those of its audio, and the
/// commit where it is owed.
pub open spec fn sent(events: Seq<SessionEvent>, source_rate: u32) -> Seq<Json>
    decreases events.len(),
{
    if events.len() == 0 {
        Seq::empty()
    } else {
        let before = sent(events.drop_last(), source_rate);
        match events.last() {
            SessionEvent::Audio(polled) => match polled.message(source_rate) {
                Some(message) => before.push(message),
                None => before,
            },
            SessionEvent::CommitSent(now) => if Transcription::run(
                events.drop_last(),
            ).owes_commit() {
                before.push(commit_json())
            } else {
                before
            },
            SessionEvent::Server(event) => before,
        }
    }
}

/// The messages of the chunks that come in, in order.
pub open spec fn chunk_messages(events: Seq<SessionEvent>, source_rate: u32) -> Seq<Json>
    decreases events.len(),
{
    if events.len() == 0 {
        Seq::empty()
    } else {
        let before = chunk_messages(events.drop_last(), source_rate);
        match events.last() {
            SessionEvent::Audio(polled) => match polled.message(source_rate) {
                Some(message) => before.push(message),
                None => before,
            },
            _ => before,
        }
    }
}

/// Whether no chunk comes in once there is no more audio to come.
pub open spec fn audio_ends(events: Seq<SessionEvent>) -> bool {
    forall|i: int, j: int|
        0 <= i < j < events.len() && #[trigger] events[i] == SessionEvent::Audio(Polled::Closed)
            ==> !(#[trigger] events[j] matches SessionEvent::Audio(polled) && polled is Chunk)
}

proof fn lemma_closed_by_an_event(events: Seq<SessionEvent>) -> (i: int)
    requires
        Transcription::run(events).producer_closed,
    ensures
        0 <= i < events.len(),
        events[i] == SessionEvent::Audio(Polled::Closed),
    decreases events.len(),
{
    if events[events.len() - 1] == SessionEvent::Audio(Polled::Closed) {
        events.len() - 1
    } else {
        lemma_closed_by_an_event(events.drop_last())
    }
}

/// A session sends one message for each chunk that makes a sample, in the order of the chunks, and
/// after all of them one that tells the server that the audio has ended, exactly where it was told.
pub proof fn sessions_send_the_audio_in_order_and_then_commit(
    events: Seq<SessionEvent>,
    source_rate: u32,
)
    requires
        audio_ends(events),
    ensures
        sent(events, source_rate) == if Transcription::run(events).commit_sent {
            chunk_messages(events, source_rate).push(commit_json())
        } else {
            chunk_messages(events, source_rate)
        },
    decreases events.len(),
{
    if events.len() > 0 {
        let before = events.drop_last();
        assert forall|i: int, j: int|
            0 <= i < j < before.len() && #[trigger] before[i] == SessionEvent::Audio(
                Polled::Closed,
            ) implies !(#[trigger] before[j] matches SessionEvent::Audio(polled)
            && polled is Chunk) by {
            assert(events[i] == before[i] && events[j] == before[j]);
        }
        sessions_send_the_audio_in_order_and_then_commit(before, source_rate);
        sessions_commit_only_ended_audio(before);
        if let SessionEvent::Audio(polled) = events[events.len() - 1] {
            if polled is Chunk && Transcription::run(before).commit_sent {
                let i = lemma_closed_by_an_event(before);
                assert(events[i] == SessionEvent::Audio(Polled::Closed));
                assert(false);
            }
        }
    }
}

/// The transcript of a session is what it heard, without empty gaps: the segments that the server
/// completed, in order, and then the one under way, each trimmed, those of nothing but whitespace
/// left out, with a single space between each two.
pub proof fn sessions_transcribe_what_they_heard(events: Seq<SessionEvent>)
    ensures
        Transcription::run(events).transcript() == spaced(
            spoken(heard(events).0.push(heard(events).1)),
        ),
{
    lemma_run_holds_what_was_heard(events);
    let (segments, pending) = heard(events);
    let all = segments.push(pending);
    assert(all.drop_last() =~= segments);
    segments_join_without_empty_gaps(all);
    trimmed_keeps_tight(transcript_of(all));
}

proof fn lemma_run_holds_what_was_heard(events: Seq<SessionEvent>)
    ensures
        Transcription::run(events).completed == transcript_of(heard(events).0),
        Transcription::run(events).delta == heard(events).1,
    decreases events.len(),
{
    if events.len() > 0 {
        let before = events.drop_last();
        lemma_run_holds_what_was_heard(before);
        let (segments, pending) = heard(before);
        assert(segments.push(pending).drop_last() =~= segments);
        if let SessionEvent::Server(event) = events.last() {
            if let Some(transcript) = event.member_text("transcript"@) {
                assert(segments.push(transcript).drop_last() =~= segments);
            }
        }
    }
}

/// What a session does next.
#[derive(Clone, Copy, Debug, PartialEq, Eq, Structural)]
pub enum Reception {
    /// It waits for more.
    Continue,
    /// It is complete.
    Finish,
}

/// Whether a session's answer is what the verdict says.
pub open spec fn answers(answer: Result<Reception, String>, verdict: Verdict) -> bool {
    match answer {
        Ok(Reception::Continue) => verdict == Verdict::Continue,
        Ok(Reception::Finish) => verdict == Verdict::Finish,
        Err(error) => verdict == Verdict::Fail(error@),
    }
}

/// What came in on a session's connection.
pub enum Incoming {
    /// The connection was closed.
    Closed,
    /// Reading from it failed, with these words.
    Failed(String),
    /// A text message.
    Text(String),
    /// A message of another kind.
    Other,
}

/// What came of asking for recorded audio.
pub enum AudioPoll {
    /// A chunk of it.
    Chunk(Vec<i16>),
    /// There is none yet.
    Empty,
    /// There is no more to come.
    Closed,
}

impl View for AudioPoll {
    type V = Polled;

    open spec fn view(&self) -> Polled {
        match *self {
            AudioPoll::Chunk(samples) => Polled::Chunk(samples@),
            AudioPoll::Empty => Polled::Empty,
            AudioPoll::Closed => Polled::Closed,
        }
    }
}

/// What a session does after asking for recorded audio.
pub enum AudioStep {
    /// It sends this message and asks again.
    Send(String),
    /// It asks again.
    Skip,
    /// It asks no more until the next time.
    Stop,
}

/// What a session does once it has asked for all the audio that there is.
pub enum TickStep {
    /// It sends this message, which tells the server that the audio has ended.
    Commit(String),
    /// It waits.
    Wait,
    /// It stops waiting for the last transcript and is complete.
    Finish,
}

/// What made a session impossible.
pub enum RealtimeFailure {
    /// The request could not be made.
    Request(String),
    /// The API key cannot be sent.
    ApiKey(String),
    /// There is no connection.
    Connection(String),
    /// The session could not be configured.
    Configure(String),
    /// Audio could not be sent.
    Stream(String),
    /// The server could not be told that the audio has ended.
    Commit(String),
}

impl RealtimeFailure {
    /// How the failure is put into words.
    pub open spec fn in_words(self) -> Seq<char> {
        match self {
            RealtimeFailure::Request(error) => "Invalid realtime API request: "@ + error@,
            RealtimeFailure::ApiKey(error) => "Invalid API key header: "@ + error@,
            RealtimeFailure::Connection(error) => "Realtime API connection failed: "@ + error@,
            RealtimeFailure::Configure(error) => "Failed to configure realtime transcription: "@
                + error@,
            RealtimeFailure::Stream(error) => "Failed to stream audio: "@ + error@,
            RealtimeFailure::Commit(error) => "Failed to finish realtime audio: "@ + error@,
        }
    }

    /// How the failure is put into words.
    pub fn words(self) -> (words: String)
        ensures
            words@ == self.in_words(),
    {
        match self {
            RealtimeFailure::Request(error) => concat(
                "Invalid realtime API request: ",
                error.as_str(),
            ),
            RealtimeFailure::ApiKey(error) => concat("Invalid API key header: ", error.as_str()),
            RealtimeFailure::Connection(error) => concat(
                "Realtime API connection failed: ",
                error.as_str(),
            ),
            RealtimeFailure::Configure(error) => concat(
                "Failed to configure realtime transcription: ",
                error.as_str(),
            ),
            RealtimeFailure::Stream(error) => concat("Failed to stream audio: ", error.as_str()),
            RealtimeFailure::Commit(error) => concat(
                "Failed to finish realtime audio: ",
                error.as_str(),
            ),
        }
    }
}

/// A realtime transcription session.
pub struct RealtimeSession {
    completed: String,
    delta: String,
    producer_closed: bool,
    commit_sent: bool,
    deadline: Option<u64>,
}

impl View for RealtimeSession {
    type V = Transcription;

    closed spec fn view(&self) -> Transcription {
        Transcription {
            completed: self.completed@,
            delta: self.delta@,
            producer_closed: self.producer_closed,
            commit_sent: self.commit_sent,
            deadline: match self.deadline {
                Some(deadline) => Some(deadline as nat),
                None => None,
            },
        }
    }
}

impl RealtimeSession {
    /// A session that has taken in nothing.
    pub fn new() -> (session: Self)
        ensures
            session@ == Transcription::fresh(),
    {
        RealtimeSession {
            completed: String::new(),
            delta: String::new(),
            producer_closed: false,
            commit_sent: false,
            deadline: None,
        }
    }

    /// There is no more audio to come.
    pub fn close_producer(&mut self)
        ensures
            final(self)@ == old(self)@.closed(),
    {
        self.producer_closed = true;
    }

    /// Takes in what came of asking for audio recorded at `source_rate`.
    pub fn take_audio(&mut self, polled: AudioPoll, source_rate: u32) -> (step: AudioStep)
        requires
            polled matches AudioPoll::Chunk(samples) ==> base64_len(
                2 * resampled_len(samples@.len(), source_rate as nat, 24_000),
            ) <= isize::MAX,
        ensures
            final(self)@ == old(self)@.polled(polled@),
            match step {
                AudioStep::Send(message) => polled@.message(source_rate) is Some && message@
                    == json_text(polled@.message(source_rate)->0),
                AudioStep::Skip => polled@ is Chunk && polled@.message(source_rate) is None,
                AudioStep::Stop => !(polled@ is Chunk),
            },
    {
        match polled {
            AudioPoll::Chunk(samples) => match audio_message(samples.as_slice(), source_rate) {
                Some(message) => AudioStep::Send(message),
                None => AudioStep::Skip,
            },
            AudioPoll::Empty => AudioStep::Stop,
            AudioPoll::Closed => {
                self.close_producer();
                AudioStep::Stop
            },
        }
    }

    /// Whether the server is still to be told that the audio has ended.
    pub fn owes_commit(&self) -> (r: bool)
        ensures
            r == self@.owes_commit(),
    {
        self.producer_closed && !self.commit_sent
    }

    /// The server was told, `now` nanoseconds into the session, that the audio has ended.
    pub fn commit_sent(&mut self, now: u64)
        requires
            old(self)@.owes_commit(),
            now + FINISH_TIMEOUT_NANOS <= u64::MAX,
        ensures
            final(self)@ == old(self)@.committed(now as nat),
    {
        self.commit_sent = true;
        self.deadline = Some(now + FINISH_TIMEOUT_NANOS);
    }

    /// Whether the session has waited long enough, `now` nanoseconds after it began.
    pub fn is_overdue(&self, now: u64) -> (r: bool)
        ensures
            r == self@.overdue(now as nat),
    {
        match self.deadline {
            Some(deadline) => now >= deadline,
            None => false,
        }
    }

    /// What the session does `now` nanoseconds after it began, once it has asked for all the audio
    /// that there is: it tells the server once that the audio has ended, and it is complete when
    /// it has waited long enough after that.
    pub fn after_audio(&self, now: u64) -> (step: TickStep)
        ensures
            match step {
                TickStep::Commit(message) => self@.owes_commit() && message@ == json_text(
                    commit_json(),
                ),
                TickStep::Finish => !self@.owes_commit() && self@.overdue(now as nat),
                TickStep::Wait => !self@.owes_commit() && !self@.overdue(now as nat),
            },
    {
        if self.owes_commit() {
            TickStep::Commit(commit_message())
        } else if self.is_overdue(now) {
            TickStep::Finish
        } else {
            TickStep::Wait
        }
    }

    /// Takes in an event of the server.
    pub fn take_event(&mut self, event: &Value) -> (answer: Result<Reception, String>)
        ensures
            final(self)@ == old(self)@.after(json_of(*event)),
            answers(answer, old(self)@.verdict(json_of(*event))),
    {
        let kind = match member_text(event, "type") {
            Some(kind) => kind,
            None => {
                return Ok(Reception::Continue);
            },
        };
        proof {
            reveal_strlit("conversation.item.input_audio_transcription.delta");
            reveal_strlit("conversation.item.input_audio_transcription.completed");
            reveal_strlit("error");
        }
        assert("error"@.len() == 5);
        assert("conversation.item.input_audio_transcription.delta"@.len() == 49);
        assert("conversation.item.input_audio_transcription.completed"@.len() == 53);
        if same_text(kind, "conversation.item.input_audio_transcription.delta") {
            if let Some(delta) = member_text(event, "delta") {
                self.delta.append(delta);
            }
        } else if same_text(kind, "conversation.item.input_audio_transcription.completed") {
            let segment = match member_text(event, "transcript") {
                Some(transcript) => transcript,
                None => self.delta.as_str(),
            };
            append_segment(&mut self.completed, segment);
            self.delta = String::new();
            if self.producer_closed {
                return Ok(Reception::Finish);
            }
        } else if same_text(kind, "error") {
            return Err(concat("Realtime API error: ", error_message(event)));
        }
        Ok(Reception::Continue)
    }

    /// Takes in what came in on the connection. A text that is no JSON fails the session; so does
    /// a failed read. A closed connection completes it.
    pub fn receive(&mut self, incoming: Incoming) -> (answer: Result<Reception, String>)
        ensures
            match incoming {
                Incoming::Text(text) => match json_read(text@) {
                    Ok(event) => {
                        &&& final(self)@ == old(self)@.after(event)
                        &&& answers(answer, old(self)@.verdict(event))
                    },
                    Err(words) => {
                        &&& final(self)@ == old(self)@
                        &&& answers(answer, Verdict::Fail("Invalid realtime API event: "@ + words))
                    },
                },
                Incoming::Failed(words) => {
                    &&& final(self)@ == old(self)@
                    &&& answers(answer, Verdict::Fail("Realtime API read failed: "@ + words@))
                },
                Incoming::Closed => {
                    &&& final(self)@ == old(self)@
                    &&& answers(answer, Verdict::Finish)
                },
                Incoming::Other => {
                    &&& final(self)@ == old(self)@
                    &&& answers(answer, Verdict::Continue)
                },
            },
    {
        match incoming {
            Incoming::Closed => Ok(Reception::Finish),
            Incoming::Failed(words) => Err(concat("Realtime API read failed: ", words.as_str())),
            Incoming::Other => Ok(Reception::Continue),
            Incoming::Text(text) => match read_value(text.as_str()) {
                Ok(event) => self.take_event(&event),
                Err(words) => Err(concat("Invalid realtime API event: ", words.as_str())),
            },
        }
    }

    /// Ends the session: its transcript, with what is still under way, or an error where there
    /// is no word in it.
    pub fn finish(self) -> (r: Result<String, String>)
        ensures
            match r {
                Ok(transcript) => transcript@ == self@.transcript() && transcript@.len() > 0,
                Err(error) => error@ == "Realtime transcription returned no text"@
                    && self@.transcript().len() == 0,
            },
    {
        let mut completed = self.completed;
        if !trim(self.delta.as_str()).is_empty() {
            append_segment(&mut completed, self.delta.as_str());
        }
        let transcript = trim(completed.as_str()).to_owned();
        if transcript.as_str().is_empty() {
            Err("Realtime transcription returned no text".to_owned())
        } else {
            Ok(transcript)
        }
    }
}

/// What an error event says.
fn error_message(event: &Value) -> (r: &str)
    ensures
        r@ == error_words(json_of(*event)),
{
    let message = match member(event, "error") {
        Some(error) => member_text(error, "message"),
        None => None,
    };
    match message {
        Some(message) => message,
        None => "Unknown realtime API error",
    }
}

/// The larger model is asked for exactly by its name, and the small one by any other.
pub proof fn models_are_selected_by_name(model: Seq<char>)
    ensures
        selected_model("gpt-4o-transcribe"@) == "gpt-4o-transcribe"@,
        model != "gpt-4o-transcribe"@ ==> selected_model(model) == "gpt-4o-mini-transcribe"@,
{
}

/// The settings of a session name the model, the language and, exactly where there is one, the
/// prompt as it was given; they hold nothing else.
pub proof fn settings_hold_model_language_and_prompt(model: Seq<char>, prompt: Seq<char>)
    ensures
        settings_json(model, prompt) matches Json::Object(members) && {
            &&& members.dom() == if blank(prompt) {
                set!["model"@, "language"@]
            } else {
                set!["model"@, "language"@, "prompt"@]
            }
            &&& members["model"@] == Json::Text(
                if model == "gpt-4o-transcribe"@ {
                    "gpt-4o-transcribe"@
                } else {
                    "gpt-4o-mini-transcribe"@
                },
            )
            &&& members["language"@] == Json::Text("en"@)
            &&& !blank(prompt) ==> members["prompt"@] == Json::Text(prompt)
        },
{
    reveal_strlit("model");
    reveal_strlit("language");
    reveal_strlit("prompt");
    assert("model"@.len() == 5 && "language"@.len() == 8 && "prompt"@.len() == 6);
    let first = ("model"@, Json::Text(selected_model(model)));
    let second = ("language"@, Json::Text("en"@));
    let third = ("prompt"@, Json::Text(prompt));
    lemma_object_of_two(first, second);
    lemma_object_of_three(first, second, third);
    assert(seq![first, second].push(third) =~= seq![first, second, third]);
}

/// The message that configures a session says that it is one of transcription, that the audio comes
/// as PCM at 24000 samples a second, that the server is to tell turns apart by half a second of
/// silence, and how to transcribe: with the model selected, in English, and with the prompt as it
/// was given, exactly where there is one. It says nothing else.
pub proof fn session_updates_carry_model_prompt_and_format(model: Seq<char>, prompt: Seq<char>)
    ensures
        session_update_json(model, prompt) matches Json::Object(update) && {
            &&& update.dom() == set!["type"@, "session"@]
            &&& update["type"@] == Json::Text("session.update"@)
            &&& update["session"@] matches Json::Object(session) && {
                &&& session.dom() == set!["type"@, "audio"@]
                &&& session["type"@] == Json::Text("transcription"@)
                &&& session["audio"@] matches Json::Object(audio) && {
                    &&& audio.dom() == set!["input"@]
                    &&& audio["input"@] matches Json::Object(input) && {
                        &&& input.dom() == set!["format"@, "transcription"@, "turn_detection"@]
                        &&& input["format"@] matches Json::Object(format) && {
                            &&& format.dom() == set!["type"@, "rate"@]
                            &&& format["type"@] == Json::Text("audio/pcm"@)
                            &&& format["rate"@] == Json::Number(decimal(24_000))
                        }
                        &&& input["turn_detection"@] matches Json::Object(detection) && {
                            &&& detection.dom() == set!["type"@, "silence_duration_ms"@]
                            &&& detection["type"@] == Json::Text("server_vad"@)
                            &&& detection["silence_duration_ms"@] == Json::Number(decimal(500))
                        }
                        &&& input["transcription"@].member_text("model"@) == Some(
                            if model == "gpt-4o-transcribe"@ {
                                "gpt-4o-transcribe"@
                            } else {
                                "gpt-4o-mini-transcribe"@
                            },
                        )
                        &&& input["transcription"@].member_text("language"@) == Some("en"@)
                        &&& blank(prompt) ==> input["transcription"@].member("prompt"@) is None
                        &&& !blank(prompt) ==> input["transcription"@].member_text("prompt"@)
                            == Some(prompt)
                    }
                }
            }
        },
{
    reveal_strlit("type");
    reveal_strlit("rate");
    reveal_strlit("silence_duration_ms");
    reveal_strlit("format");
    reveal_strlit("transcription");
    reveal_strlit("turn_detection");
    reveal_strlit("session");
    reveal_strlit("audio");
    assert("type"@[0] != "rate"@[0]);
    assert("type"@.len() == 4 && "silence_duration_ms"@.len() == 19 && "session"@.len() == 7);
    assert("format"@.len() == 6 && "transcription"@.len() == 13 && "turn_detection"@.len() == 14);
    assert("audio"@.len() == 5);
    let settings = settings_json(model, prompt);
    settings_are_english_without_an_implicit_prompt(model, prompt);
    let rate = ("rate"@, Json::Number(decimal(24_000)));
    let pcm = ("type"@, Json::Text("audio/pcm"@));
    lemma_object_of_two(pcm, rate);
    let vad = ("type"@, Json::Text("server_vad"@));
    let silence = ("silence_duration_ms"@, Json::Number(decimal(500)));
    lemma_object_of_two(vad, silence);
    lemma_object_of_three(
        ("format"@, object(seq![pcm, rate])),
        ("transcription"@, settings),
        ("turn_detection"@, object(seq![vad, silence])),
    );
    lemma_object_of_one("input"@, audio_input_json(settings));
    let audio = ("audio"@, object(seq![("input"@, audio_input_json(settings))]));
    let kind = ("type"@, Json::Text("transcription"@));
    lemma_object_of_two(kind, audio);
    lemma_object_of_two(
        ("type"@, Json::Text("session.update"@)),
        ("session"@, object(seq![kind, audio])),
    );
}

/// Two prompts that are not blank make the same message only where they are the same, and so do two
/// models only where the same is selected: neither is lost on the way.
pub proof fn different_prompts_make_different_updates(
    model: Seq<char>,
    prompt: Seq<char>,
    other_model: Seq<char>,
    other_prompt: Seq<char>,
)
    requires
        session_update_json(model, prompt) == session_update_json(other_model, other_prompt),
    ensures
        !blank(prompt) ==> prompt == other_prompt,
        blank(prompt) <==> blank(other_prompt),
        selected_model(model) == selected_model(other_model),
{
    session_updates_carry_model_prompt_and_format(model, prompt);
    session_updates_carry_model_prompt_and_format(other_model, other_prompt);
}

/// The message of a chunk carries its bytes in Base64 and nothing else, and the message that ends
/// the audio carries nothing.
pub proof fn audio_messages_carry_the_audio(pcm: Seq<u8>)
    ensures
        append_json(pcm) matches Json::Object(members) && {
            &&& members.dom() == set!["type"@, "audio"@]
            &&& members["type"@] == Json::Text("input_audio_buffer.append"@)
            &&& members["audio"@] == Json::Text(base64_of(pcm))
        },
        commit_json() matches Json::Object(members) && {
            &&& members.dom() == set!["type"@]
            &&& members["type"@] == Json::Text("input_audio_buffer.commit"@)
        },
{
    reveal_strlit("type");
    reveal_strlit("audio");
    assert("type"@.len() == 4 && "audio"@.len() == 5);
    lemma_object_of_two(
        ("type"@, Json::Text("input_audio_buffer.append"@)),
        ("audio"@, Json::Text(base64_of(pcm))),
    );
    lemma_object_of_one("type"@, Json::Text("input_audio_buffer.commit"@));
}

/// A message is sent exactly for a chunk that makes at least one sample, and carries all of the
/// chunk, resampled to 24000 samples a second. What a session asked for is seen as it came.
pub proof fn chunks_are_sent_exactly_where_they_make_a_sample(samples: Vec<i16>, source_rate: u32)
    ensures
        AudioPoll::Chunk(samples)@ == Polled::Chunk(samples@),
        AudioPoll::Empty@ is Empty,
        AudioPoll::Closed@ is Closed,
        Polled::Chunk(samples@).message(source_rate) is Some <==> resampled_len(
            samples@.len(),
            source_rate as nat,
            24_000,
        ) > 0,
        Polled::Chunk(samples@).message(source_rate) is Some ==> Polled::Chunk(samples@).message(
            source_rate,
        ) == Some(append_json(pcm16(samples@, source_rate as nat, 24_000))),
        Polled::Empty.message(source_rate) is None,
        Polled::Closed.message(source_rate) is None,
{
}

/// A segment of nothing but whitespace adds nothing to a transcript. Any other is added at its end,
/// trimmed, after a single space where there is something before it, and the transcript itself
/// stays as it is.
pub proof fn segments_are_added_at_the_end(transcript: Seq<char>, segment: Seq<char>)
    ensures
        blank(segment) ==> appended(transcript, segment) == transcript,
        !blank(segment) && transcript.len() == 0 ==> appended(transcript, segment) == trimmed(
            segment,
        ),
        !blank(segment) && transcript.len() > 0 ==> {
            let longer = appended(transcript, segment);
            let start = transcript.len() as int;
            &&& longer.len() == start + 1 + trimmed(segment).len()
            &&& longer.take(start) == transcript
            &&& longer[start] == ' '
            &&& longer.skip(start + 1) == trimmed(segment)
        },
{
    trimmed_is_empty_iff_blank(segment);
    if !blank(segment) && transcript.len() > 0 {
        let longer = appended(transcript, segment);
        let start = transcript.len() as int;
        assert(longer.take(start) =~= transcript);
        assert(longer.skip(start + 1) =~= trimmed(segment));
    }
}

/// A new session has heard nothing and told nothing. The end of the audio is the only thing that an
/// empty-handed look for audio can bring; the commit is owed from then until it is sent, and then
/// the session has eight seconds, no less and no more.
pub proof fn sessions_wait_eight_seconds_after_their_commit(
    session: Transcription,
    polled: Polled,
    now: nat,
    later: nat,
)
    ensures
        Transcription::fresh().completed.len() == 0 && Transcription::fresh().delta.len() == 0,
        !Transcription::fresh().producer_closed && !Transcription::fresh().commit_sent,
        Transcription::fresh().deadline is None,
        session.polled(polled).producer_closed <==> session.producer_closed || polled is Closed,
        session.closed().producer_closed,
        session.polled(polled).completed == session.completed && session.polled(polled).delta
            == session.delta,
        session.polled(polled).commit_sent == session.commit_sent && session.polled(polled).deadline
            == session.deadline,
        session.closed() == session.polled(Polled::Closed),
        session.owes_commit() <==> session.producer_closed && !session.commit_sent,
        session.committed(now).commit_sent && !session.committed(now).owes_commit(),
        session.committed(now).completed == session.completed && session.committed(now).delta
            == session.delta,
        session.committed(now).producer_closed == session.producer_closed,
        session.committed(now).overdue(later) <==> later >= now + 8_000_000_000,
        session.deadline is None ==> !session.overdue(later),
        session.overdue(now) && now <= later ==> session.overdue(later),
{
}

/// A delta adds its text to the segment under way, and nothing else. A completed segment takes the
/// place of the one under way: it is added to the transcript in the server's words, or in those
/// heard so far where the server gives none. Every other event leaves all as it is, and no event
/// says that the audio has ended or was committed.
pub proof fn events_change_only_what_they_speak_of(
    session: Transcription,
    event: Json,
    words: Seq<char>,
)
    ensures
        ({
            let kind = event.member_text("type"@);
            let delta = Some("conversation.item.input_audio_transcription.delta"@);
            let completed = Some("conversation.item.input_audio_transcription.completed"@);
            let after = session.after(event);
            &&& kind == delta && event.member_text("delta"@) == Some(words) ==> after.delta
                == session.delta + words && after.completed == session.completed
            &&& kind == delta && event.member_text("delta"@) is None ==> after == session
            &&& kind == completed ==> after.delta.len() == 0
            &&& kind == completed && event.member_text("transcript"@) == Some(words)
                ==> after.completed == appended(session.completed, words)
            &&& kind == completed && event.member_text("transcript"@) is None ==> after.completed
                == appended(session.completed, session.delta)
            &&& kind != delta && kind != completed ==> after == session
            &&& after.producer_closed == session.producer_closed
            &&& after.commit_sent == session.commit_sent
            &&& after.deadline == session.deadline
        }),
{
    reveal_strlit("conversation.item.input_audio_transcription.delta");
    reveal_strlit("conversation.item.input_audio_transcription.completed");
    assert("conversation.item.input_audio_transcription.delta"@.len() == 49);
    assert("conversation.item.input_audio_transcription.completed"@.len() == 53);
}

/// Whatever a session has heard, it is complete exactly with a completed segment once there is no
/// more audio to come, and fails exactly with an error, in the server's words where it gives any.
/// With every other event, and with every delta, it goes on, whether it has committed or not.
pub proof fn sessions_answer_by_the_kind_of_event(
    session: Transcription,
    event: Json,
    words: Seq<char>,
    error: Json,
)
    ensures
        ({
            let kind = event.member_text("type"@);
            let completed = Some("conversation.item.input_audio_transcription.completed"@);
            &&& session.verdict(event) is Finish <==> kind == completed && session.producer_closed
            &&& session.verdict(event) is Fail <==> kind == Some("error"@)
            &&& kind == Some("conversation.item.input_audio_transcription.delta"@)
                ==> session.verdict(event) is Continue
            &&& kind == Some("error"@) && event.member("error"@) == Some(error)
                && error.member_text("message"@) == Some(words) ==> session.verdict(event)
                == Verdict::Fail("Realtime API error: "@ + words)
            &&& kind == Some("error"@) && event.member("error"@) is None ==> session.verdict(event)
                == Verdict::Fail("Realtime API error: "@ + "Unknown realtime API error"@)
            &&& kind == Some("error"@) && event.member("error"@) == Some(error)
                && error.member_text("message"@) is None ==> session.verdict(event)
                == Verdict::Fail("Realtime API error: "@ + "Unknown realtime API error"@)
        }),
{
    reveal_strlit("conversation.item.input_audio_transcription.delta");
    reveal_strlit("conversation.item.input_audio_transcription.completed");
    reveal_strlit("error");
    assert("error"@.len() == 5);
    assert("conversation.item.input_audio_transcription.delta"@.len() == 49);
    assert("conversation.item.input_audio_transcription.completed"@.len() == 53);
}

proof fn lemma_closed_after_the_end(events: Seq<SessionEvent>, i: int)
    requires
        0 <= i < events.len(),
        events[i] == SessionEvent::Audio(Polled::Closed),
    ensures
        Transcription::run(events).producer_closed,
    decreases events.len(),
{
    if i < events.len() - 1 {
        assert(events.drop_last()[i] == events[i]);
        lemma_closed_after_the_end(events.drop_last(), i);
    }
}

/// In every state that a session reaches, committed or not, an event completes it exactly when it
/// brings a completed segment and the audio had ended before. Then nothing is left under way: the
/// words heard so far are in the transcript, or the server's own for them.
pub proof fn sessions_end_only_with_their_last_segment(events: Seq<SessionEvent>, event: Json)
    ensures
        ({
            let session = Transcription::run(events);
            let kind = event.member_text("type"@);
            let completed = Some("conversation.item.input_audio_transcription.completed"@);
            let ended = exists|i: int|
                0 <= i < events.len() && #[trigger] events[i] == SessionEvent::Audio(Polled::Closed);
            let after = Transcription::run(events.push(SessionEvent::Server(event)));
            &&& session.verdict(event) is Finish <==> kind == completed && ended
            &&& session.verdict(event) is Continue <==> !(kind == completed && ended) && kind
                != Some("error"@)
            &&& session.verdict(event) is Finish ==> after.delta.len() == 0
            &&& session.verdict(event) is Finish ==> after.completed == appended(
                session.completed,
                match event.member_text("transcript"@) {
                    Some(words) => words,
                    None => session.delta,
                },
            )
            &&& session.verdict(event) is Finish ==> after.transcript() == trimmed(after.completed)
        }),
{
    let session = Transcription::run(events);
    sessions_answer_by_the_kind_of_event(session, event, Seq::empty(), Json::Null);
    events_change_only_what_they_speak_of(session, event, Seq::empty());
    reveal_strlit("conversation.item.input_audio_transcription.completed");
    reveal_strlit("error");
    assert("error"@.len() == 5);
    assert("conversation.item.input_audio_transcription.completed"@.len() == 53);
    if session.producer_closed {
        let i = lemma_closed_by_an_event(events);
        assert(events[i] == SessionEvent::Audio(Polled::Closed));
    }
    if exists|i: int|
        0 <= i < events.len() && #[trigger] events[i] == SessionEvent::Audio(Polled::Closed) {
        let i = choose|i: int|
            0 <= i < events.len() && #[trigger] events[i] == SessionEvent::Audio(Polled::Closed);
        lemma_closed_after_the_end(events, i);
    }
    assert(events.push(SessionEvent::Server(event)).drop_last() =~= events);
    let after = Transcription::run(events.push(SessionEvent::Server(event)));
    trimmed_is_empty_iff_blank(after.delta);
    if after.delta.len() == 0 {
        assert(blank(after.delta));
    }
}

/// The transcript at the end is what was completed and then what was under way, joined as segments
/// are, without whitespace around it. Nothing is left out but what is blank.
pub proof fn transcripts_hold_what_was_completed_and_what_was_under_way(session: Transcription)
    ensures
        blank(session.delta) ==> session.transcript() == trimmed(session.completed),
        !blank(session.delta) && session.completed.len() == 0 ==> session.transcript() == trimmed(
            trimmed(session.delta),
        ),
        !blank(session.delta) && session.completed.len() > 0 ==> session.transcript() == trimmed(
            session.completed + seq![' '] + trimmed(session.delta),
        ),
{
    segments_are_added_at_the_end(session.completed, session.delta);
    trimmed_is_empty_iff_blank(session.delta);
    if !blank(session.delta) && session.completed.len() > 0 {
        assert(appended(session.completed, session.delta) =~= session.completed + seq![' ']
            + trimmed(session.delta));
    }
}

/// What happens to a session is taken in one thing after the other, each by what it is; a commit
/// counts only where one is owed.
pub proof fn sessions_take_in_one_event_after_the_other(
    events: Seq<SessionEvent>,
    polled: Polled,
    now: nat,
    event: Json,
)
    ensures
        Transcription::run(Seq::empty()) == Transcription::fresh(),
        Transcription::run(events.push(SessionEvent::Audio(polled))) == Transcription::run(
            events,
        ).polled(polled),
        Transcription::run(events.push(SessionEvent::Server(event))) == Transcription::run(
            events,
        ).after(event),
        Transcription::run(events).owes_commit() ==> Transcription::run(
            events.push(SessionEvent::CommitSent(now)),
        ) == Transcription::run(events).committed(now),
        !Transcription::run(events).owes_commit() ==> Transcription::run(
            events.push(SessionEvent::CommitSent(now)),
        ) == Transcription::run(events),
{
    assert(events.push(SessionEvent::Audio(polled)).drop_last() =~= events);
    assert(events.push(SessionEvent::Server(event)).drop_last() =~= events);
    assert(events.push(SessionEvent::CommitSent(now)).drop_last() =~= events);
}

/// An answer is what was decided exactly when it goes on, is complete, or fails with the same words,
/// as was decided.
pub proof fn answers_are_what_was_decided(answer: Result<Reception, String>, verdict: Verdict)
    ensures
        answers(answer, verdict) <==> {
            ||| answer == Ok::<Reception, String>(Reception::Continue) && verdict is Continue
            ||| answer == Ok::<Reception, String>(Reception::Finish) && verdict is Finish
            ||| (answer matches Err(error) && verdict == Verdict::Fail(error@))
        },
{
}

/// Whatever made a session impossible is told with its reason in full.
pub proof fn realtime_failures_tell_their_reason(reason: String)
    ensures
        RealtimeFailure::Request(reason).in_words() == "Invalid realtime API request: "@ + reason@,
        RealtimeFailure::ApiKey(reason).in_words() == "Invalid API key header: "@ + reason@,
        RealtimeFailure::Connection(reason).in_words() == "Realtime API connection failed: "@
            + reason@,
        RealtimeFailure::Configure(reason).in_words()
            == "Failed to configure realtime transcription: "@ + reason@,
        RealtimeFailure::Stream(reason).in_words() == "Failed to stream audio: "@ + reason@,
        RealtimeFailure::Commit(reason).in_words() == "Failed to finish realtime audio: "@ + reason@,
{
}

/// Sessions connect to the realtime service of OpenAI, for transcription.
pub proof fn sessions_connect_for_transcription()
    ensures
        REALTIME_URL@ == "wss://api.openai.com/v1/realtime?intent=transcription"@,
        TARGET_SAMPLE_RATE == 24_000,
        FINISH_TIMEOUT_NANOS == 8_000_000_000,
{
}

} // verus!
