//! Capturing audio: how the input starts, how long a recording may run, how it is mixed down, and
//! how it ends.

use vstd::prelude::*;

use crate::feedback::Feedback;
use crate::level::audible;
use crate::recording::RecordingState;
use crate::text::concat;

verus! {

/// The size that an uploaded recording stays within, below the 25 MB that the service takes.
pub const MAX_TRANSCRIPTION_FILE_BYTES: u64 = 24_000_000;

/// The size of one 16-bit sample.
pub const WAV_BYTES_PER_SAMPLE: u64 = 2;

/// For how many seconds a recording at a sample rate may run: for as many as the twelve million
/// samples last that fit in the upload limit, and for one where they do not last that long or
/// there is no rate.
pub open spec fn max_seconds(sample_rate: u32) -> int {
    if sample_rate == 0 || sample_rate > 12_000_000 {
        1
    } else {
        12_000_000int / sample_rate as int
    }
}

/// For how many seconds a recording at a sample rate may run.
pub fn max_recording_duration(sample_rate: u32) -> (seconds: u64)
    ensures
        seconds == max_seconds(sample_rate),
{
    let bytes_per_second: u64 = sample_rate as u64 * WAV_BYTES_PER_SAMPLE;
    let seconds: u64 = match MAX_TRANSCRIPTION_FILE_BYTES.checked_div(bytes_per_second) {
        Some(seconds) => seconds,
        None => 0,
    };
    proof {
        if sample_rate > 0 {
            let rate = sample_rate as int;
            assert(24_000_000int / (rate * 2) == 12_000_000int / rate) by (nonlinear_arith)
                requires
                    rate > 0,
            ;
            assert(12_000_000int / rate < 1 <==> rate > 12_000_000) by (nonlinear_arith)
                requires
                    rate > 0,
            ;
        }
    }
    if seconds < 1 {
        1
    } else {
        seconds
    }
}

/// A recording that runs for as long as it may stays below the upload limit of 25 MB, at every
/// sample rate at which one second of audio does.
pub proof fn recordings_stay_below_the_upload_limit(sample_rate: u32)
    requires
        2 * sample_rate < 25_000_000,
    ensures
        max_seconds(sample_rate) * sample_rate * 2 < 25_000_000,
{
    if sample_rate > 0 {
        let rate = sample_rate as int;
        assert(12_000_000int / rate * rate <= 12_000_000) by (nonlinear_arith)
            requires
                rate > 0,
        ;
    }
}

/// No recording could run a second longer and stay within the limit, at any sample rate at which
/// a second fits.
pub proof fn recordings_run_as_long_as_they_may(sample_rate: u32)
    requires
        0 < sample_rate <= 12_000_000,
    ensures
        (max_seconds(sample_rate) + 1) * sample_rate * 2 > 24_000_000,
{
    let rate = sample_rate as int;
    assert((12_000_000int / rate + 1) * rate > 12_000_000) by (nonlinear_arith)
        requires
            rate > 0,
    ;
}

/// Why the input could not be started.
pub enum StartupFailure {
    /// There is no input device.
    NoDevice,
    /// The device did not tell its configuration.
    Config(String),
    /// The device delivers samples of a format that is not known.
    Format(String),
    /// The input stream could not be built.
    Build(String),
    /// The input stream did not start.
    Play(String),
}

impl StartupFailure {
    /// How the failure is put into words.
    pub open spec fn words(self) -> Seq<char> {
        match self {
            StartupFailure::NoDevice => "No input device available"@,
            StartupFailure::Config(error) => "Failed to get default input config: "@ + error@,
            StartupFailure::Format(format) => "Unsupported input sample format: "@ + format@,
            StartupFailure::Build(error) => "Failed to build input stream: "@ + error@,
            StartupFailure::Play(error) => "Failed to start recording: "@ + error@,
        }
    }
}

/// What became of a start, as far as the app knows after waiting for it.
pub enum StartReply {
    /// The input runs.
    Ready,
    /// It could not be started, for this reason.
    Failed(String),
    /// There was no word in time.
    TimedOut,
}

/// What the app does once it knows what became of a start.
pub struct StartOutcome {
    /// The status to show in the menu bar.
    pub status: &'static str,
    /// Whether to play the sound of a start.
    pub chime: bool,
    /// What to answer.
    pub result: Result<(), String>,
}

/// What to do after a look at a running recording.
#[derive(Clone, Copy, Debug, PartialEq, Eq, Structural)]
pub enum CaptureTick {
    /// Go on.
    Continue,
    /// The recording has ended: close the input.
    Ended,
    /// The recording was stopped because it reached its limit: say so and close the input.
    LimitReached,
}

/// The format of a recording's file.
#[derive(Clone, Copy, Debug, PartialEq, Eq, Structural)]
pub struct WavFormat {
    pub channels: u16,
    pub sample_rate: u32,
    pub bits_per_sample: u16,
}

/// Whether a result is that error.
pub open spec fn fails_with<T>(result: Result<T, String>, words: Seq<char>) -> bool {
    match result {
        Ok(_) => false,
        Err(error) => error@ == words,
    }
}

impl RecordingState {
    /// Starts a recording, unless one is under way.
    pub fn start_recording(&mut self) -> (r: Result<(), String>)
        ensures
            if old(self)@.recording {
                fails_with(r, "Already recording"@) && final(self)@ == old(self)@
            } else {
                r is Ok && final(self)@ == old(self)@.started()
            },
    {
        if self.is_active() {
            return Err("Already recording".to_owned());
        }
        self.start();
        Ok(())
    }

    /// Notes the sample rate of the input that was opened.
    pub fn input_opened(&mut self, sample_rate: u32)
        ensures
            final(self)@ == old(self)@.at_rate(sample_rate),
    {
        self.sample_rate = sample_rate;
    }

    /// Gives up a start that failed, and puts the failure into words.
    pub fn abandon_start(&mut self, failure: StartupFailure) -> (words: String)
        ensures
            final(self)@ == old(self)@.cancelled(),
            words@ == failure.words(),
    {
        self.cancel();
        match failure {
            StartupFailure::NoDevice => "No input device available".to_owned(),
            StartupFailure::Config(error) => concat(
                "Failed to get default input config: ",
                error.as_str(),
            ),
            StartupFailure::Format(format) => concat(
                "Unsupported input sample format: ",
                format.as_str(),
            ),
            StartupFailure::Build(error) => concat("Failed to build input stream: ", error.as_str()),
            StartupFailure::Play(error) => concat("Failed to start recording: ", error.as_str()),
        }
    }

    /// Draws the conclusion from what became of a start. A start without word in time is
    /// cancelled.
    pub fn conclude_start(&mut self, reply: StartReply) -> (outcome: StartOutcome)
        ensures
            match reply {
                StartReply::Ready => {
                    &&& final(self)@ == old(self)@
                    &&& outcome.status@ == "recording"@
                    &&& outcome.chime
                    &&& outcome.result is Ok
                },
                StartReply::Failed(error) => {
                    &&& final(self)@ == old(self)@
                    &&& outcome.status@ == "error"@
                    &&& !outcome.chime
                    &&& fails_with(outcome.result, error@)
                },
                StartReply::TimedOut => {
                    &&& final(self)@ == old(self)@.cancelled()
                    &&& outcome.status@ == "error"@
                    &&& !outcome.chime
                    &&& fails_with(outcome.result, "Timed out while starting microphone input"@)
                },
            },
    {
        match reply {
            StartReply::Ready => StartOutcome { status: "recording", chime: true, result: Ok(()) },
            StartReply::Failed(error) => StartOutcome {
                status: "error",
                chime: false,
                result: Err(error),
            },
            StartReply::TimedOut => {
                self.cancel();
                StartOutcome {
                    status: "error",
                    chime: false,
                    result: Err("Timed out while starting microphone input".to_owned()),
                }
            },
        }
    }

    /// Looks at a recording that has run for `elapsed` whole seconds with an input of
    /// `sample_rate`, and stops it where it has run for as long as it may.
    pub fn capture_tick(&mut self, elapsed: u64, sample_rate: u32) -> (tick: CaptureTick)
        ensures
            if !old(self)@.recording {
                tick == CaptureTick::Ended && final(self)@ == old(self)@
            } else if elapsed >= max_seconds(sample_rate) {
                tick == CaptureTick::LimitReached && final(self)@ == old(self)@.stopped()
            } else {
                tick == CaptureTick::Continue && final(self)@ == old(self)@
            },
    {
        if !self.is_active() {
            return CaptureTick::Ended;
        }
        if elapsed >= max_recording_duration(sample_rate) {
            let _ = self.stop();
            return CaptureTick::LimitReached;
        }
        CaptureTick::Continue
    }

    /// Whether the audio that a stop handed out is worth a file, and the format of that file. The
    /// root mean square of what the recorder holds is `rms`.
    pub fn recorded_file(&self, captured: &[u32], rms: u32) -> (r: Result<WavFormat, String>)
        ensures
            if captured@.len() == 0 {
                fails_with(r, "No audio recorded"@)
            } else if self@.samples.len() == 0 || !audible(rms) {
                fails_with(r, no_audio_words())
            } else {
                r == Ok::<WavFormat, String>(
                    WavFormat {
                        channels: 1,
                        sample_rate: self@.sample_rate,
                        bits_per_sample: 16,
                    },
                )
            },
    {
        if captured.len() == 0 {
            return Err("No audio recorded".to_owned());
        }
        if !self.has_audio_content(rms) {
            return Err(
                "No audio detected. Please check microphone permissions in System Settings → Privacy & Security → Microphone".to_owned(),
            );
        }
        Ok(WavFormat { channels: 1, sample_rate: self.sample_rate, bits_per_sample: 16 })
    }

    /// Stops the recording and hands out the samples that were captured. The menu bar shows nothing
    /// any more, and the sound of a stop is played.
    pub fn stop_recording(&mut self) -> (r: (Vec<u32>, Feedback))
        ensures
            final(self)@ == old(self)@.stopped(),
            r.0@ == old(self)@.samples,
            r.1.status@ == "idle"@,
            r.1.sound@ == "stop"@,
    {
        let samples = self.stop();
        (samples, Feedback { status: "idle", sound: "stop" })
    }

    /// Cancels the recording, where one is under way. The menu bar shows nothing any more, and the
    /// sound of a cancel is played.
    pub fn cancel_recording(&mut self) -> (r: Result<Feedback, String>)
        ensures
            if old(self)@.recording {
                &&& final(self)@ == old(self)@.cancelled()
                &&& r is Ok
                &&& r->Ok_0.status@ == "idle"@
                &&& r->Ok_0.sound@ == "cancel"@
            } else {
                fails_with(r, "Not recording"@) && final(self)@ == old(self)@
            },
    {
        if !self.is_active() {
            return Err("Not recording".to_owned());
        }
        self.cancel();
        Ok(Feedback { status: "idle", sound: "cancel" })
    }

    /// Pauses or resumes the recording, where one is under way; tells whether it is paused now.
    pub fn pause_recording(&mut self) -> (r: Result<bool, String>)
        ensures
            if old(self)@.recording {
                r == Ok::<bool, String>(!old(self)@.paused) && final(self)@ == old(self)@.toggled()
            } else {
                fails_with(r, "Not recording"@) && final(self)@ == old(self)@
            },
    {
        if !self.is_active() {
            return Err("Not recording".to_owned());
        }
        Ok(self.toggle_pause())
    }
}

/// What is said of a recording that is silent, most likely for want of a permission.
pub open spec fn no_audio_words() -> Seq<char> {
    "No audio detected. Please check microphone permissions in System Settings → Privacy & Security → Microphone"@
}

/// How many frames of `channels` samples each `len` samples make, the last one perhaps shorter.
pub open spec fn frame_count(len: nat, channels: nat) -> nat {
    (len + channels - 1) as nat / channels
}

/// Where the frame at `i` starts and ends.
pub open spec fn frame(i: int, len: int, channels: int) -> (int, int) {
    let start = i * channels;
    (
        start,
        if start + channels < len {
            start + channels
        } else {
            len
        },
    )
}

/// Which samples of `len` interleaved ones are to be averaged into each sample of a mono signal:
/// those of one frame. A signal of one channel is taken as it is.
pub fn mono_frames(len: usize, channels: usize) -> (r: Option<Vec<(usize, usize)>>)
    ensures
        match r {
            None => channels <= 1,
            Some(frames) => {
                &&& channels > 1
                &&& frames@.len() == frame_count(len as nat, channels as nat)
                &&& forall|i: int|
                    0 <= i < frames@.len() ==> (#[trigger] frames@[i]).0 == frame(
                        i,
                        len as int,
                        channels as int,
                    ).0 && frames@[i].1 == frame(i, len as int, channels as int).1
            },
        },
{
    if channels <= 1 {
        return None;
    }
    let mut frames: Vec<(usize, usize)> = Vec::new();
    let mut start: usize = 0;
    assert(0 * channels == 0) by (nonlinear_arith);
    assert((channels - 1) / (channels as int) == 0) by (nonlinear_arith)
        requires
            channels > 0,
    ;
    while start < len
        invariant
            channels > 1,
            start <= len,
            start == len || start == frames@.len() * channels,
            start == len ==> frames@.len() == frame_count(len as nat, channels as nat),
            start < len ==> frames@.len() * channels < len,
            forall|i: int|
                0 <= i < frames@.len() ==> (#[trigger] frames@[i]).0 == frame(
                    i,
                    len as int,
                    channels as int,
                ).0 && frames@[i].1 == frame(i, len as int, channels as int).1,
        decreases len - start,
    {
        let end: usize = if len - start > channels {
            start + channels
        } else {
            len
        };
        let ghost n = frames@.len() as int;
        frames.push((start, end));
        proof {
            assert((n + 1) * channels == n * channels + channels) by (nonlinear_arith);
            if end == len {
                assert((len + channels - 1) / (channels as int) == n + 1) by (nonlinear_arith)
                    requires
                        n * channels < len <= n * channels + channels,
                        channels > 0,
                ;
            }
        }
        start = end;
    }
    Some(frames)
}

/// The frames of a signal follow one another without a gap, hold all of it, and are never empty
/// or longer than the number of channels.
pub proof fn frames_cover_the_signal(len: nat, channels: nat)
    requires
        channels > 1,
    ensures
        len > 0 ==> frame_count(len, channels) > 0 && frame(0, len as int, channels as int).0 == 0,
        forall|i: int|
            0 <= i < frame_count(len, channels) ==> {
                let (start, end) = #[trigger] frame(i, len as int, channels as int);
                &&& 0 <= start < end <= len
                &&& end - start <= channels
                &&& end == if i + 1 < frame_count(len, channels) {
                    (i + 1) * channels
                } else {
                    len as int
                }
            },
{
    let n = frame_count(len, channels);
    if len > 0 {
        assert(n > 0) by (nonlinear_arith)
            requires
                n == (len + channels - 1) as nat / channels,
                len > 0,
                channels > 1,
        ;
    }
    assert forall|i: int| 0 <= i < n implies ({
        let (start, end) = #[trigger] frame(i, len as int, channels as int);
        &&& 0 <= start < end <= len
        &&& end - start <= channels
        &&& end == if i + 1 < n {
            (i + 1) * channels
        } else {
            len as int
        }
    }) by {
        assert(0 <= i * channels < len) by (nonlinear_arith)
            requires
                0 <= i < n,
                n == (len + channels - 1) / (channels as int),
                channels > 1,
        ;
        assert((i + 1) * channels == i * channels + channels) by (nonlinear_arith);
        if i + 1 < n {
            assert((i + 1) * channels < len) by (nonlinear_arith)
                requires
                    0 <= i + 1 < n,
                    n == (len + channels - 1) / (channels as int),
                    channels > 1,
            ;
        } else {
            assert((i + 1) * channels >= len) by (nonlinear_arith)
                requires
                    i + 1 == n,
                    n == (len + channels - 1) / (channels as int),
                    channels > 1,
            ;
        }
    }
}

/// A result fails with some words exactly when it is an error and those are its words.
pub proof fn failures_have_their_own_words<T>(result: Result<T, String>, words: Seq<char>)
    ensures
        fails_with(result, words) <==> (result matches Err(error) && error@ == words),
{
}

/// A recording may run for the greatest number of whole seconds whose samples, two bytes each, fit
/// into 24 million bytes; where not even one second fits, or there is no rate, for one.
pub proof fn recordings_run_for_the_most_seconds_that_fit(sample_rate: u32, seconds: int)
    ensures
        max_seconds(sample_rate) >= 1,
        sample_rate == 0 || sample_rate * 2 > 24_000_000 ==> max_seconds(sample_rate) == 1,
        sample_rate > 0 && seconds >= 1 && seconds * (sample_rate * 2) <= 24_000_000 ==> seconds
            <= max_seconds(sample_rate),
        0 < sample_rate * 2 <= 24_000_000 ==> max_seconds(sample_rate) * (sample_rate * 2)
            <= 24_000_000,
{
    if sample_rate > 0 {
        let rate = sample_rate as int;
        let most = 12_000_000int / rate;
        assert(most * rate <= 12_000_000 < (most + 1) * rate) by (nonlinear_arith)
            requires
                rate > 0,
                most == 12_000_000int / rate,
        ;
        assert(most * (rate * 2) == 2 * (most * rate)) by (nonlinear_arith);
        assert(seconds * (rate * 2) == 2 * (seconds * rate)) by (nonlinear_arith);
        if seconds >= 1 && seconds * (rate * 2) <= 24_000_000 {
            assert(seconds <= most) by (nonlinear_arith)
                requires
                    seconds * rate <= 12_000_000,
                    12_000_000 < (most + 1) * rate,
                    rate > 0,
            ;
            assert(rate <= 12_000_000) by (nonlinear_arith)
                requires
                    seconds * rate <= 12_000_000,
                    seconds >= 1,
                    rate > 0,
            ;
        }
        if rate <= 12_000_000 {
            assert(most >= 1) by (nonlinear_arith)
                requires
                    12_000_000 < (most + 1) * rate,
                    0 < rate <= 12_000_000,
            ;
        }
    }
}

/// Whatever the reason of a failed start, it is told in full after what failed.
pub proof fn failed_starts_tell_their_reason(reason: String)
    ensures
        StartupFailure::NoDevice.words() == "No input device available"@,
        StartupFailure::Config(reason).words() == "Failed to get default input config: "@ + reason@,
        StartupFailure::Format(reason).words() == "Unsupported input sample format: "@ + reason@,
        StartupFailure::Build(reason).words() == "Failed to build input stream: "@ + reason@,
        StartupFailure::Play(reason).words() == "Failed to start recording: "@ + reason@,
        no_audio_words()
            == "No audio detected. Please check microphone permissions in System Settings → Privacy & Security → Microphone"@,
{
}

/// The frame at a position starts after as many whole frames and ends a whole frame later, or
/// where the signal ends; there are as many frames as it takes to hold the signal, and none more.
pub proof fn frames_lie_one_after_the_other(len: nat, channels: nat, i: int)
    requires
        channels > 1,
    ensures
        frame_count(len, channels) * channels >= len,
        frame_count(len, channels) > 0 ==> (frame_count(len, channels) - 1) * channels < len,
        frame(i, len as int, channels as int).0 == i * channels,
        frame(i, len as int, channels as int).1 <= len,
        i * channels + channels <= len ==> frame(i, len as int, channels as int).1 == (i + 1)
            * channels,
        i * channels + channels > len ==> frame(i, len as int, channels as int).1 == len,
{
    let n = frame_count(len, channels);
    assert(n * channels >= len && (n > 0 ==> (n - 1) * channels < len)) by (nonlinear_arith)
        requires
            n == (len + channels - 1) as nat / channels,
            channels > 1,
    ;
    assert((i + 1) * channels == i * channels + channels) by (nonlinear_arith);
}

} // verus!
