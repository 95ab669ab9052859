use scribe::feedback::{pause_indicator, sound_file, tray_indicator};

#[test]
fn statuses_have_marks() {
    assert_eq!(tray_indicator("recording"), "🔴");
    assert_eq!(tray_indicator("processing"), "⏳");
    assert_eq!(tray_indicator("success"), "✅");
    assert_eq!(tray_indicator("error"), "❌");
    assert_eq!(tray_indicator("idle"), "");
    assert_eq!(pause_indicator(true), "⏸️");
    assert_eq!(pause_indicator(false), "🔴");
}

#[test]
fn occasions_have_sounds() {
    assert_eq!(sound_file("start"), "/System/Library/Sounds/Pop.aiff");
    assert_eq!(sound_file("stop"), "/System/Library/Sounds/Tink.aiff");
    assert_eq!(sound_file("success"), "/System/Library/Sounds/Glass.aiff");
    assert_eq!(sound_file("error"), "/System/Library/Sounds/Basso.aiff");
    assert_eq!(sound_file("cancel"), "/System/Library/Sounds/Funk.aiff");
    assert_eq!(sound_file("pause"), "/System/Library/Sounds/Morse.aiff");
    assert_eq!(sound_file("other"), "/System/Library/Sounds/Pop.aiff");
}
