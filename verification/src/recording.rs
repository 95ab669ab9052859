//! The recording state machine: recording, pausing, and the audio that is captured.

use vstd::prelude::*;

use crate::level::{
    audible, cap_level, capped, capped_roots_are_in_range, in_range, is_audible, root_like, ZERO,
};

verus! {

/// A recording: whether it runs, whether it is paused, its latest level, and its samples. Levels
/// and samples are the bits of IEEE 754 single-precision numbers.
pub struct Recording {
    pub recording: bool,
    pub paused: bool,
    pub level: u32,
    pub samples: Seq<u32>,
    pub sample_rate: u32,
}

impl Recording {
    /// Nothing recorded, nothing running.
    pub open spec fn idle() -> Self {
        Recording {
            recording: false,
            paused: false,
            level: ZERO,
            samples: Seq::empty(),
            sample_rate: 44100,
        }
    }

    /// Whether audio is captured: the recording runs and is not paused.
    pub open spec fn capturing(self) -> bool {
        self.recording && !self.paused
    }

    /// The recording once it was started.
    pub open spec fn started(self) -> Self {
        Recording { recording: true, paused: false, samples: Seq::empty(), ..self }
    }

    /// The recording once it was stopped. The samples stay.
    pub open spec fn stopped(self) -> Self {
        Recording { recording: false, paused: false, level: ZERO, ..self }
    }

    /// The recording once it was cancelled. The samples are gone.
    pub open spec fn cancelled(self) -> Self {
        Recording { samples: Seq::empty(), ..self.stopped() }
    }

    /// The recording once it was paused, or resumed where it was paused.
    pub open spec fn toggled(self) -> Self {
        Recording {
            paused: !self.paused,
            level: if self.paused {
                self.level
            } else {
                ZERO
            },
            ..self
        }
    }

    /// The recording once samples of the given level came in.
    pub open spec fn pushed(self, data: Seq<u32>, rms: u32) -> Self {
        if self.capturing() {
            Recording { level: capped(rms), samples: self.samples + data, ..self }
        } else {
            self
        }
    }

    /// The recording at another sample rate.
    pub open spec fn at_rate(self, sample_rate: u32) -> Self {
        Recording { sample_rate, ..self }
    }

    /// Whether the level shows silence wherever no audio is captured.
    pub open spec fn quiet_unless_capturing(self) -> bool {
        !self.capturing() ==> self.level == ZERO
    }
}

/// Something that happens to a recording.
pub enum RecordingEvent {
    Start,
    Stop,
    Cancel,
    TogglePause,
    Push(Seq<u32>, u32),
}

impl Recording {
    /// The recording after something happened to it.
    pub open spec fn step(self, event: RecordingEvent) -> Self {
        match event {
            RecordingEvent::Start => self.started(),
            RecordingEvent::Stop => self.stopped(),
            RecordingEvent::Cancel => self.cancelled(),
            RecordingEvent::TogglePause => self.toggled(),
            RecordingEvent::Push(data, rms) => self.pushed(data, rms),
        }
    }

    /// The recording after all that happened to it.
    pub open spec fn run(self, events: Seq<RecordingEvent>) -> Self
        decreases events.len(),
    {
        if events.len() == 0 {
            self
        } else {
            self.run(events.drop_last()).step(events.last())
        }
    }
}

/// What is captured after a recording was started, where `running`, or cancelled: the samples that
/// come in while it runs and is not paused. Beside them, whether it then runs and is paused. This
/// is up to the next start or cancel.
pub open spec fn captured(running: bool, events: Seq<RecordingEvent>) -> (Seq<u32>, bool, bool)
    decreases events.len(),
{
    if events.len() == 0 {
        (Seq::empty(), running, false)
    } else {
        let (samples, runs, paused) = captured(running, events.drop_last());
        match events.last() {
            RecordingEvent::Stop => (samples, false, false),
            RecordingEvent::TogglePause => (samples, runs, !paused),
            RecordingEvent::Push(data, rms) => (
                if runs && !paused {
                    samples + data
                } else {
                    samples
                },
                runs,
                paused,
            ),
            _ => (samples, runs, paused),
        }
    }
}

/// Whether a recording is neither started nor cancelled.
pub open spec fn keeps_samples(events: Seq<RecordingEvent>) -> bool {
    forall|i: int|
        0 <= i < events.len() ==> !(#[trigger] events[i] is Start) && !(events[i] is Cancel)
}

/// Whether every level that comes in is that of a root, as a root mean square is.
pub open spec fn levels_are_roots(events: Seq<RecordingEvent>) -> bool {
    forall|i: int|
        0 <= i < events.len() ==> (#[trigger] events[i] matches RecordingEvent::Push(data, rms)
            ==> root_like(rms))
}

/// Whatever happens to a recording, its level shows silence wherever no audio is captured, and
/// its sample rate stays.
pub proof fn recordings_are_quiet_unless_capturing(
    recording: Recording,
    events: Seq<RecordingEvent>,
)
    requires
        recording.quiet_unless_capturing(),
    ensures
        recording.run(events).quiet_unless_capturing(),
        recording.run(events).sample_rate == recording.sample_rate,
    decreases events.len(),
{
    if events.len() > 0 {
        recordings_are_quiet_unless_capturing(recording, events.drop_last());
    }
}

/// In every state that a new recording reaches, the level lies between silence and `1.0`, and it
/// shows silence wherever no audio is captured.
pub proof fn levels_lie_between_silence_and_full(events: Seq<RecordingEvent>)
    requires
        levels_are_roots(events),
    ensures
        in_range(Recording::idle().run(events).level),
        Recording::idle().run(events).quiet_unless_capturing(),
    decreases events.len(),
{
    capped_roots_are_in_range(ZERO);
    if events.len() > 0 {
        let before = events.drop_last();
        assert forall|i: int| 0 <= i < before.len() implies (#[trigger] before[i] matches
            RecordingEvent::Push(data, rms) ==> root_like(rms)) by {
            assert(before[i] == events[i]);
        }
        levels_lie_between_silence_and_full(before);
        if let RecordingEvent::Push(data, rms) = events[events.len() - 1] {
            capped_roots_are_in_range(rms);
        }
    }
}

/// Whatever happened to a recording before it was last started or cancelled, it holds exactly the
/// samples that came in since then while it was running and not paused. After a cancel it holds
/// none.
pub proof fn recordings_hold_what_was_captured(
    recording: Recording,
    before: Seq<RecordingEvent>,
    clearing: RecordingEvent,
    later: Seq<RecordingEvent>,
)
    requires
        clearing is Start || clearing is Cancel,
        keeps_samples(later),
    ensures
        ({
            let reached = recording.run(before.push(clearing) + later);
            &&& reached.samples == captured(clearing is Start, later).0
            &&& reached.recording == captured(clearing is Start, later).1
            &&& reached.paused == captured(clearing is Start, later).2
            &&& clearing is Cancel ==> reached.samples.len() == 0 && !reached.recording
        }),
    decreases later.len(),
{
    let all = before.push(clearing) + later;
    if later.len() > 0 {
        let earlier = later.drop_last();
        assert forall|i: int| 0 <= i < earlier.len() implies !(#[trigger] earlier[i] is Start) && !(
        earlier[i] is Cancel) by {
            assert(earlier[i] == later[i]);
        }
        recordings_hold_what_was_captured(recording, before, clearing, earlier);
        assert(all.drop_last() =~= before.push(clearing) + earlier);
        let last = later[later.len() - 1];
        assert(!(last is Start) && !(last is Cancel));
        assert(all.last() == last);
    } else {
        assert(all =~= before.push(clearing));
        assert(all.drop_last() =~= before);
    }
}

/// A new recording holds nothing before it is started.
pub proof fn recordings_are_empty_before_a_start(events: Seq<RecordingEvent>)
    requires
        forall|i: int| 0 <= i < events.len() ==> !(#[trigger] events[i] is Start),
    ensures
        Recording::idle().run(events).samples.len() == 0,
        !Recording::idle().run(events).recording,
    decreases events.len(),
{
    if events.len() > 0 {
        let before = events.drop_last();
        assert forall|i: int| 0 <= i < before.len() implies !(#[trigger] before[i] is Start) by {
            assert(before[i] == events[i]);
        }
        recordings_are_empty_before_a_start(before);
        assert(!(events[events.len() - 1] is Start));
    }
}

/// Pausing and resuming, or resuming and pausing, leaves a recording as it was but for its level,
/// which then shows silence.
pub proof fn toggling_twice_restores(recording: Recording)
    ensures
        recording.toggled().toggled() == (Recording { level: ZERO, ..recording }),
{
}

/// A stopped recording is neither running nor paused, keeps its samples, and takes in no more
/// until it is started again.
pub proof fn stopped_recordings_take_in_nothing(recording: Recording, data: Seq<u32>, rms: u32)
    ensures
        !recording.stopped().recording,
        !recording.stopped().paused,
        recording.stopped().samples == recording.samples,
        recording.stopped().pushed(data, rms) == recording.stopped(),
        recording.cancelled().samples.len() == 0,
        recording.cancelled().pushed(data, rms) == recording.cancelled(),
{
}

/// The state of the recorder.
pub struct RecordingState {
    pub is_recording: bool,
    pub is_paused: bool,
    pub audio_level: u32,
    pub samples: Vec<u32>,
    pub sample_rate: u32,
}

impl View for RecordingState {
    type V = Recording;

    open spec fn view(&self) -> Recording {
        Recording {
            recording: self.is_recording,
            paused: self.is_paused,
            level: self.audio_level,
            samples: self.samples@,
            sample_rate: self.sample_rate,
        }
    }
}

impl Default for RecordingState {
    fn default() -> (state: Self)
        ensures
            state@ == Recording::idle(),
    {
        RecordingState {
            is_recording: false,
            is_paused: false,
            audio_level: ZERO,
            samples: Vec::new(),
            sample_rate: 44100,
        }
    }
}

impl RecordingState {
    /// Starts recording: clears the previous samples and the pause.
    pub fn start(&mut self)
        ensures
            final(self)@ == old(self)@.started(),
    {
        self.samples.clear();
        self.is_recording = true;
        self.is_paused = false;
    }

    /// Stops recording and hands out the samples that were captured.
    pub fn stop(&mut self) -> (samples: Vec<u32>)
        ensures
            final(self)@ == old(self)@.stopped(),
            samples@ == old(self)@.samples,
    {
        self.is_recording = false;
        self.is_paused = false;
        self.audio_level = ZERO;
        let samples = self.samples.clone();
        assert(samples@ =~= self.samples@);
        samples
    }

    /// Cancels recording and discards the samples.
    pub fn cancel(&mut self)
        ensures
            final(self)@ == old(self)@.cancelled(),
    {
        self.is_recording = false;
        self.is_paused = false;
        self.audio_level = ZERO;
        self.samples.clear();
    }

    /// Pauses, or resumes where it is paused; tells whether it is paused now.
    pub fn toggle_pause(&mut self) -> (now_paused: bool)
        ensures
            final(self)@ == old(self)@.toggled(),
            now_paused == final(self)@.paused,
    {
        let now_paused = !self.is_paused;
        self.is_paused = now_paused;
        if now_paused {
            self.audio_level = ZERO;
        }
        now_paused
    }

    /// Whether a recording is under way, paused or not.
    pub fn is_active(&self) -> (r: bool)
        ensures
            r == self@.recording,
    {
        self.is_recording
    }

    /// Whether the recording is paused.
    pub fn is_paused(&self) -> (r: bool)
        ensures
            r == self@.paused,
    {
        self.is_paused
    }

    /// Whether audio is to be captured: a recording is under way and is not paused.
    pub fn should_capture(&self) -> (r: bool)
        ensures
            r == self@.capturing(),
    {
        self.is_recording && !self.is_paused
    }

    /// Takes in samples, whose root mean square is `rms`, and shows their level. Samples that
    /// come in while no audio is to be captured are dropped.
    pub fn push_samples(&mut self, data: &[u32], rms: u32)
        ensures
            final(self)@ == old(self)@.pushed(data@, rms),
    {
        if !self.should_capture() {
            return;
        }
        self.audio_level = cap_level(rms);
        self.samples.extend_from_slice(data);
        assert(self.samples@ =~= old(self).samples@ + data@);
    }

    /// The current audio level.
    pub fn get_audio_level(&self) -> (level: u32)
        ensures
            level == self@.level,
    {
        self.audio_level
    }

    /// Whether the captured audio, whose root mean square is `rms`, is more than silence.
    pub fn has_audio_content(&self, rms: u32) -> (r: bool)
        ensures
            r == (self@.samples.len() > 0 && audible(rms)),
    {
        if self.samples.is_empty() {
            return false;
        }
        is_audible(rms)
    }
}

/// A recorder is seen as it is: no part of it stands for another.
pub proof fn recorders_are_seen_as_they_are(state: RecordingState)
    ensures
        state@.recording == state.is_recording,
        state@.paused == state.is_paused,
        state@.level == state.audio_level,
        state@.samples == state.samples@,
        state@.sample_rate == state.sample_rate,
{
}

/// A new recorder neither runs nor is paused, shows silence, holds nothing and expects 44100
/// samples a second.
pub proof fn new_recordings_are_idle()
    ensures
        !Recording::idle().recording,
        !Recording::idle().paused,
        Recording::idle().level == 0,
        Recording::idle().samples.len() == 0,
        Recording::idle().sample_rate == 44100,
{
}

/// From whatever state, a start leaves a recording that runs unpaused and empty; a stop leaves one
/// that neither runs nor is paused, shows silence and has kept every sample; a cancel leaves the
/// same without samples. None of them touches anything else.
pub proof fn starts_stops_and_cancels_from_any_state(recording: Recording)
    ensures
        recording.started().recording && !recording.started().paused,
        recording.started().samples.len() == 0,
        recording.started().level == recording.level,
        recording.started().sample_rate == recording.sample_rate,
        !recording.stopped().recording && !recording.stopped().paused,
        recording.stopped().samples == recording.samples,
        recording.stopped().level == 0,
        recording.stopped().sample_rate == recording.sample_rate,
        !recording.cancelled().recording && !recording.cancelled().paused,
        recording.cancelled().samples.len() == 0,
        recording.cancelled().level == 0,
        recording.cancelled().sample_rate == recording.sample_rate,
{
}

/// A toggle turns the pause over and leaves whether the recording runs, what it holds and its rate;
/// the level goes silent when the pause begins and stays when it ends.
pub proof fn toggles_turn_only_the_pause_over(recording: Recording)
    ensures
        recording.toggled().paused != recording.paused,
        recording.toggled().recording == recording.recording,
        recording.toggled().samples == recording.samples,
        recording.toggled().sample_rate == recording.sample_rate,
        recording.toggled().paused ==> recording.toggled().level == 0,
        recording.paused ==> recording.toggled().level == recording.level,
{
}

/// Samples that come in while a recording runs unpaused are added at the end, all of them and in
/// order, and their level is shown, capped; at any other time nothing changes at all.
pub proof fn samples_are_added_exactly_while_running_unpaused(
    recording: Recording,
    data: Seq<u32>,
    rms: u32,
    rate: u32,
)
    ensures
        recording.capturing() <==> recording.recording && !recording.paused,
        recording.recording && !recording.paused ==> recording.pushed(data, rms).samples
            == recording.samples + data && recording.pushed(data, rms).level == capped(rms),
        !recording.recording || recording.paused ==> recording.pushed(data, rms) == recording,
        recording.pushed(data, rms).recording == recording.recording,
        recording.pushed(data, rms).paused == recording.paused,
        recording.pushed(data, rms).sample_rate == recording.sample_rate,
        recording.at_rate(rate).sample_rate == rate,
        recording.at_rate(rate).at_rate(recording.sample_rate) == recording,
{
}

} // verus!
