//! Live transcription beside a recording: when it may start, how much audio was waiting for it,
//! and what comes of it.

use vstd::prelude::*;

use crate::capture::fails_with;
use crate::recording::RecordingState;
use crate::text::{concat, decimal, decimal_text};

verus! {

/// How many milliseconds a number of samples last, as far as a word can count them.
pub open spec fn milliseconds(samples: int, sample_rate: u32) -> int {
    if sample_rate == 0 {
        0
    } else if samples * 1_000 > u64::MAX {
        u64::MAX as int / sample_rate as int
    } else {
        samples * 1_000 / sample_rate as int
    }
}

/// How many milliseconds of audio were recorded before the live transcription began.
pub fn buffered_milliseconds(samples: u64, sample_rate: u32) -> (r: u64)
    ensures
        r == milliseconds(samples as int, sample_rate),
{
    if sample_rate == 0 {
        return 0;
    }
    match samples.checked_mul(1_000) {
        Some(product) => product / sample_rate as u64,
        None => u64::MAX / sample_rate as u64,
    }
}

impl RecordingState {
    /// Whether a live transcription may start: a recording has to be under way, and no other live
    /// transcription.
    pub fn check_live_start(&self, already_live: bool) -> (r: Result<(), String>)
        ensures
            if !self@.recording {
                fails_with(r, "Start recording before realtime transcription"@)
            } else if already_live {
                fails_with(r, "Realtime transcription is already active"@)
            } else {
                r is Ok
            },
    {
        if !self.is_active() {
            return Err("Start recording before realtime transcription".to_owned());
        }
        if already_live {
            return Err("Realtime transcription is already active".to_owned());
        }
        Ok(())
    }
}

/// Whether the result of a live transcription is worth waiting for: there has to be one, and it
/// must have been given all of the audio.
pub fn check_live_finish(live: bool, dropped_samples: u64) -> (r: Result<(), String>)
    ensures
        if !live {
            fails_with(r, "Realtime transcription is not active"@)
        } else if dropped_samples > 0 {
            fails_with(
                r,
                "Realtime audio stream dropped "@ + decimal(dropped_samples as nat)
                    + " samples; using saved recording"@,
            )
        } else {
            r is Ok
        },
{
    if !live {
        return Err("Realtime transcription is not active".to_owned());
    }
    if dropped_samples > 0 {
        let count = decimal_text(dropped_samples);
        let head = concat("Realtime audio stream dropped ", count.as_str());
        return Err(concat(head.as_str(), " samples; using saved recording"));
    }
    Ok(())
}

/// The place for the one live transcription whose result is still to come.
pub struct LiveSlot {
    /// Whether there is one.
    pub pending: bool,
}

impl Default for LiveSlot {
    fn default() -> (slot: Self)
        ensures
            !slot.pending,
    {
        LiveSlot { pending: false }
    }
}

impl LiveSlot {
    /// Takes the place for a live transcription beside the recording. A start that is refused
    /// leaves the place as it is.
    pub fn start(&mut self, recording: &RecordingState) -> (r: Result<(), String>)
        ensures
            final(self).pending == (old(self).pending || r is Ok),
            final(self).pending == pending_after(
                old(self).pending,
                LiveEvent::Start(recording@.recording),
            ),
            if !recording@.recording {
                fails_with(r, "Start recording before realtime transcription"@)
            } else if old(self).pending {
                fails_with(r, "Realtime transcription is already active"@)
            } else {
                r is Ok
            },
    {
        match recording.check_live_start(self.pending) {
            Ok(_) => {
                self.pending = true;
                Ok(())
            },
            Err(error) => Err(error),
        }
    }

    /// Empties the place, and tells whether the result of the live transcription that held it is
    /// worth waiting for.
    pub fn finish(&mut self, dropped_samples: u64) -> (r: Result<(), String>)
        ensures
            !final(self).pending,
            if !old(self).pending {
                fails_with(r, "Realtime transcription is not active"@)
            } else if dropped_samples > 0 {
                fails_with(
                    r,
                    "Realtime audio stream dropped "@ + decimal(dropped_samples as nat)
                        + " samples; using saved recording"@,
                )
            } else {
                r is Ok
            },
    {
        let live = self.pending;
        self.pending = false;
        check_live_finish(live, dropped_samples)
    }

    /// Empties the place, whether a live transcription holds it or not.
    pub fn cancel(&mut self)
        ensures
            !final(self).pending,
    {
        self.pending = false;
    }
}

/// Something that is asked of the place for a live transcription.
pub enum LiveEvent {
    /// A start, while a recording is under way or not.
    Start(bool),
    /// A finish, after this many samples were dropped.
    Finish(nat),
    /// A cancel.
    Cancel,
}

/// Whether the place is taken after something was asked of it, given whether it was before.
pub open spec fn pending_after(pending: bool, event: LiveEvent) -> bool {
    match event {
        LiveEvent::Start(recording) => pending || recording,
        LiveEvent::Finish(_) | LiveEvent::Cancel => false,
    }
}

/// Whether the place, empty at first, is taken after all that was asked of it.
pub open spec fn pending_run(events: Seq<LiveEvent>) -> bool
    decreases events.len(),
{
    if events.len() == 0 {
        false
    } else {
        pending_after(pending_run(events.drop_last()), events.last())
    }
}

/// Whether a start beside a recording was asked for at `i`, and neither a finish nor a cancel
/// since.
pub open spec fn started_last(events: Seq<LiveEvent>, i: int) -> bool {
    &&& 0 <= i < events.len()
    &&& events[i] == LiveEvent::Start(true)
    &&& forall|j: int| i < j < events.len() ==> #[trigger] events[j] is Start
}

/// A live transcription is pending exactly when one was started beside a recording and neither
/// finished nor cancelled since.
pub proof fn live_transcriptions_are_pending_until_finished_or_cancelled(events: Seq<LiveEvent>)
    ensures
        pending_run(events) <==> exists|i: int| started_last(events, i),
    decreases events.len(),
{
    if events.len() > 0 {
        let before = events.drop_last();
        let last = events.len() - 1;
        live_transcriptions_are_pending_until_finished_or_cancelled(before);
        if pending_run(events) {
            if events[last] == LiveEvent::Start(true) {
                assert(started_last(events, last));
            } else {
                let i = choose|i: int| started_last(before, i);
                assert forall|j: int| i < j < events.len() implies #[trigger] events[j] is Start by {
                    if j < last {
                        assert(before[j] == events[j]);
                    }
                }
                assert(started_last(events, i));
            }
        }
        if exists|i: int| started_last(events, i) {
            let i = choose|i: int| started_last(events, i);
            if i < last {
                assert(events[last] is Start);
                assert forall|j: int| i < j < before.len() implies #[trigger] before[j] is Start by {
                    assert(before[j] == events[j]);
                }
                assert(started_last(before, i));
            }
        }
    }
}

/// What became of a live transcription.
pub enum LiveOutcome {
    /// It did not end in time.
    TimedOut,
    /// It ended without a word.
    Lost,
    /// It ended with this result.
    Ended(Result<String, String>),
}

/// What comes of a live transcription.
pub fn live_result(outcome: LiveOutcome) -> (r: Result<String, String>)
    ensures
        match outcome {
            LiveOutcome::TimedOut => fails_with(
                r,
                "Timed out while finishing realtime transcription"@,
            ),
            LiveOutcome::Lost => fails_with(r, "Realtime transcription ended unexpectedly"@),
            LiveOutcome::Ended(result) => r == result,
        },
{
    match outcome {
        LiveOutcome::TimedOut => Err("Timed out while finishing realtime transcription".to_owned()),
        LiveOutcome::Lost => Err("Realtime transcription ended unexpectedly".to_owned()),
        LiveOutcome::Ended(result) => result,
    }
}

/// The milliseconds of audio are the most that the samples last, the thousandfold of which
/// saturates at the largest word. Without a rate there are none.
pub proof fn milliseconds_are_the_most_that_samples_last(samples: u64, sample_rate: u32)
    ensures
        sample_rate == 0 ==> milliseconds(samples as int, sample_rate) == 0,
        sample_rate > 0 && samples * 1_000 <= u64::MAX ==> milliseconds(samples as int, sample_rate)
            * sample_rate <= samples * 1_000 < (milliseconds(samples as int, sample_rate) + 1)
            * sample_rate,
        sample_rate > 0 && samples * 1_000 > u64::MAX ==> milliseconds(samples as int, sample_rate)
            * sample_rate <= u64::MAX < (milliseconds(samples as int, sample_rate) + 1)
            * sample_rate,
{
    if sample_rate > 0 {
        let rate = sample_rate as int;
        let product = if samples * 1_000 > u64::MAX {
            u64::MAX as int
        } else {
            samples * 1_000
        };
        let n = product / rate;
        assert(n * rate <= product < (n + 1) * rate) by (nonlinear_arith)
            requires
                rate > 0,
                n == product / rate,
        ;
    }
}

/// The place is taken by a start beside a recording, stays as it is with any other start, and is
/// emptied by every finish and cancel.
pub proof fn live_places_are_taken_by_starts_and_emptied_by_ends(pending: bool, dropped: nat)
    ensures
        pending_after(pending, LiveEvent::Start(true)),
        pending_after(pending, LiveEvent::Start(false)) == pending,
        !pending_after(pending, LiveEvent::Finish(dropped)),
        !pending_after(pending, LiveEvent::Cancel),
{
}

} // verus!
