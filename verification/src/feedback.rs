//! What the app shows in the menu bar and which system sounds it plays.

use vstd::prelude::*;

use crate::text::same_text;

verus! {

/// What the app shows and plays at the end of a recording.
#[derive(Clone, Copy, Debug, PartialEq, Eq)]
pub struct Feedback {
    /// The status to show in the menu bar.
    pub status: &'static str,
    /// The occasion whose sound to play.
    pub sound: &'static str,
}

/// The menu bar's mark for a status. Any other status has none.
pub open spec fn indicator_of(status: Seq<char>) -> Seq<char> {
    if status == "recording"@ {
        "🔴"@
    } else if status == "processing"@ {
        "⏳"@
    } else if status == "success"@ {
        "✅"@
    } else if status == "error"@ {
        "❌"@
    } else {
        ""@
    }
}

/// The menu bar's mark for a status.
pub fn tray_indicator(status: &str) -> (indicator: &'static str)
    ensures
        indicator@ == indicator_of(status@),
{
    if same_text(status, "recording") {
        "🔴"
    } else if same_text(status, "processing") {
        "⏳"
    } else if same_text(status, "success") {
        "✅"
    } else if same_text(status, "error") {
        "❌"
    } else {
        ""
    }
}

/// The menu bar's mark for a recording that was just paused or resumed.
pub fn pause_indicator(now_paused: bool) -> (indicator: &'static str)
    ensures
        indicator@ == if now_paused {
            "⏸️"@
        } else {
            "🔴"@
        },
{
    if now_paused {
        "⏸️"
    } else {
        "🔴"
    }
}

/// The file of the system sound for an occasion. Any other occasion has that of a start.
pub open spec fn sound_file_of(sound: Seq<char>) -> Seq<char> {
    if sound == "start"@ {
        "/System/Library/Sounds/Pop.aiff"@
    } else if sound == "stop"@ {
        "/System/Library/Sounds/Tink.aiff"@
    } else if sound == "success"@ {
        "/System/Library/Sounds/Glass.aiff"@
    } else if sound == "error"@ {
        "/System/Library/Sounds/Basso.aiff"@
    } else if sound == "cancel"@ {
        "/System/Library/Sounds/Funk.aiff"@
    } else if sound == "pause"@ {
        "/System/Library/Sounds/Morse.aiff"@
    } else {
        "/System/Library/Sounds/Pop.aiff"@
    }
}

/// The file of the system sound for an occasion.
pub fn sound_file(sound: &str) -> (path: &'static str)
    ensures
        path@ == sound_file_of(sound@),
{
    if same_text(sound, "start") {
        "/System/Library/Sounds/Pop.aiff"
    } else if same_text(sound, "stop") {
        "/System/Library/Sounds/Tink.aiff"
    } else if same_text(sound, "success") {
        "/System/Library/Sounds/Glass.aiff"
    } else if same_text(sound, "error") {
        "/System/Library/Sounds/Basso.aiff"
    } else if same_text(sound, "cancel") {
        "/System/Library/Sounds/Funk.aiff"
    } else if same_text(sound, "pause") {
        "/System/Library/Sounds/Morse.aiff"
    } else {
        "/System/Library/Sounds/Pop.aiff"
    }
}

/// Each status that has a mark has its own, and every other status has none.
pub proof fn statuses_have_their_own_marks(other: Seq<char>)
    ensures
        indicator_of("recording"@) == "🔴"@,
        indicator_of("processing"@) == "⏳"@,
        indicator_of("success"@) == "✅"@,
        indicator_of("error"@) == "❌"@,
        other != "recording"@ && other != "processing"@ && other != "success"@ && other != "error"@
            ==> indicator_of(other) == ""@,
{
    reveal_strlit("recording");
    reveal_strlit("processing");
    reveal_strlit("success");
    reveal_strlit("error");
    assert("recording"@.len() == 9 && "processing"@.len() == 10);
    assert("success"@.len() == 7 && "error"@.len() == 5);
}

/// Each occasion that has a sound has its own, and every other occasion has that of a start.
pub proof fn occasions_have_their_own_sounds(other: Seq<char>)
    ensures
        sound_file_of("start"@) == "/System/Library/Sounds/Pop.aiff"@,
        sound_file_of("stop"@) == "/System/Library/Sounds/Tink.aiff"@,
        sound_file_of("success"@) == "/System/Library/Sounds/Glass.aiff"@,
        sound_file_of("error"@) == "/System/Library/Sounds/Basso.aiff"@,
        sound_file_of("cancel"@) == "/System/Library/Sounds/Funk.aiff"@,
        sound_file_of("pause"@) == "/System/Library/Sounds/Morse.aiff"@,
        other != "stop"@ && other != "success"@ && other != "error"@ && other != "cancel"@ && other
            != "pause"@ ==> sound_file_of(other) == "/System/Library/Sounds/Pop.aiff"@,
{
    reveal_strlit("start");
    reveal_strlit("stop");
    reveal_strlit("success");
    reveal_strlit("error");
    reveal_strlit("cancel");
    reveal_strlit("pause");
    assert("start"@.len() == 5 && "stop"@.len() == 4 && "success"@.len() == 7);
    assert("error"@.len() == 5 && "cancel"@.len() == 6 && "pause"@.len() == 5);
    assert("start"@[0] == 's' && "error"@[0] == 'e' && "pause"@[0] == 'p');
}

} // verus!
