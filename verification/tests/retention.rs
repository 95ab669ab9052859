use chrono::NaiveDateTime;
use scribe::retention::{
    check_retention, expired_recordings, is_before, is_expired, prune_recordings_in, prune_result,
    recording_file_name, recording_timestamp, retention_cutoff, split_file_name, DirectoryFailure,
    Listing, Moment, RecordingPruneResult, Removal, FIRST_SECOND, FOUR_DIGIT_YEARS_FIRST_SECOND,
    FOUR_DIGIT_YEARS_LAST_SECOND, LAST_SECOND, RECORDINGS_DIRECTORY, RECORDINGS_PARENT,
};

fn moment(stamp: &str) -> Moment {
    let stamp = NaiveDateTime::parse_from_str(stamp, "%Y%m%d_%H%M%S").unwrap().and_utc();
    Moment { seconds: stamp.timestamp(), nanos: stamp.timestamp_subsec_nanos() }
}

fn named(name: &str) -> Listing {
    Listing::Named(name.to_string())
}

#[test]
fn recording_retention_deletes_only_expired_scribe_wavs() {
    let entries = vec![
        named("20240101_120000.wav"),
        named("20240201_120000.wav"),
        named("meeting.wav"),
    ];
    let now = moment("20240215_120000");

    let expired = prune_recordings_in(Ok(&entries), 30, now).expect("prune recordings");
    let result = prune_result(&entries, &vec![Removal::Deleted(0)]);

    assert_eq!(expired, vec![0]);
    assert_eq!(result.deleted_count, 1);
}

#[test]
fn zero_retention_days_keeps_recordings() {
    let entries = vec![named("20200101_120000.wav")];
    let now = moment("20240215_120000");

    let expired = prune_recordings_in(Ok(&entries), 0, now).expect("prune recordings");
    let result = prune_result(&Vec::new(), &Vec::new());

    assert!(expired.is_empty());
    assert_eq!(result.deleted_count, 0);
    assert_eq!(retention_cutoff(0, now), None);
}

#[test]
fn directories_that_cannot_be_listed_fail_the_prune() {
    let now = moment("20240215_120000");
    let unlisted = || Err("no such directory".to_string());
    assert_eq!(
        prune_recordings_in(unlisted(), 1, now),
        Err("Failed to read recordings directory: no such directory".to_string())
    );
    assert_eq!(prune_recordings_in(unlisted(), 0, now), Ok(Vec::new()));
}

#[test]
fn directory_failures_are_put_into_words() {
    let why = || "why".to_string();
    assert_eq!(
        DirectoryFailure::NoHome.words(),
        "Could not locate the macOS home directory"
    );
    assert_eq!(
        DirectoryFailure::NotMade(why()).words(),
        "Failed to create recordings directory: why"
    );
    assert_eq!(
        DirectoryFailure::NotListed(why()).words(),
        "Failed to read recordings directory: why"
    );
    assert_eq!((RECORDINGS_PARENT, RECORDINGS_DIRECTORY), ("Library", "VoiceTranscripts"));
}

#[test]
fn pruning_again_deletes_nothing() {
    let now = moment("20240215_120000");
    let before = vec![
        named("20240101_120000.wav"),
        Listing::Unnamed,
        named("20240116_120000.wav"),
        named("20240201_120000.wav"),
    ];
    assert_eq!(prune_recordings_in(Ok(&before), 30, now), Ok(vec![0]));
    let after = vec![
        named("20240201_120000.wav"),
        named("20240116_120000.wav"),
        Listing::Unnamed,
    ];
    for days in [30, 31, 3_650] {
        assert_eq!(prune_recordings_in(Ok(&after), days, now), Ok(Vec::new()));
    }
    assert_eq!(prune_recordings_in(Ok(&after), 29, now), Ok(vec![1]));
}

#[test]
fn only_what_is_named_like_a_recording_expires() {
    let cutoff = moment("20240215_120000");
    assert!(is_expired("20240215_115959.wav", cutoff));
    assert!(!is_expired("20240215_120000.wav", cutoff));
    assert!(!is_expired("20240215_115959.mp3", cutoff));
    assert!(!is_expired("20240215_115959.WAV", cutoff));
    assert!(!is_expired("20240215_115959", cutoff));
    assert!(!is_expired(".wav", cutoff));
    assert!(!is_expired("20240230_115959.wav", cutoff));
    assert!(!is_expired("20240101_120000.bak.wav", cutoff));
}

#[test]
fn names_that_are_no_text_and_unreadable_entries_are_kept() {
    let entries = vec![
        Listing::Unreadable,
        named("20200101_000000.wav"),
        Listing::Unnamed,
        named("20200101_000001.wav"),
    ];
    assert_eq!(expired_recordings(&entries, moment("20240215_120000")), vec![1, 3]);
}

#[test]
fn file_names_split_as_paths_do() {
    for name in ["a.wav", ".wav", "a", "a.b.c", "a.", "..a", "", "ä.ö"] {
        let path = std::path::Path::new(name);
        let (stem, extension) = split_file_name(name);
        assert_eq!(stem, path.file_stem().map_or("", |stem| stem.to_str().unwrap()));
        assert_eq!(extension, path.extension().map(|extension| extension.to_str().unwrap()));
    }
}

#[test]
fn names_tell_when_a_recording_was_made() {
    let mut now = moment("20240229_235959");
    now.nanos = 123;
    let name = recording_file_name(now);
    assert_eq!(name, "20240229_235959.wav");
    now.nanos = 0;
    assert_eq!(recording_timestamp(&name), Some(now));
    assert_eq!(recording_timestamp("meeting.wav"), None);
}

#[test]
fn leap_seconds_are_named_and_read() {
    let leap = Moment { seconds: moment("20161231_235959").seconds, nanos: 1_500_000_000 };
    let name = recording_file_name(leap);
    assert_eq!(name, "20161231_235960.wav");
    let whole = Moment { seconds: leap.seconds, nanos: 1_000_000_000 };
    assert_eq!(recording_timestamp(&name), Some(whole));
    assert_eq!(
        retention_cutoff(1, leap),
        Some(Moment { seconds: leap.seconds + 1 - 86_400, nanos: 500_000_000 })
    );
}

#[test]
fn years_of_four_digits_are_read_back() {
    for seconds in [FOUR_DIGIT_YEARS_FIRST_SECOND, -1, 0, 59, FOUR_DIGIT_YEARS_LAST_SECOND] {
        let moment = Moment { seconds, nanos: 0 };
        let name = recording_file_name(moment);
        assert_eq!(name.len(), 19);
        assert_eq!(recording_timestamp(&name), Some(moment));
    }
    assert_eq!(
        recording_file_name(Moment { seconds: FOUR_DIGIT_YEARS_FIRST_SECOND, nanos: 0 }),
        "00000101_000000.wav"
    );
    assert_eq!(
        recording_file_name(Moment { seconds: FOUR_DIGIT_YEARS_LAST_SECOND, nanos: 0 }),
        "99991231_235959.wav"
    );
}

#[test]
fn the_calendar_ends_where_it_is_said_to() {
    assert_eq!(NaiveDateTime::MIN.and_utc().timestamp(), FIRST_SECOND);
    assert_eq!(NaiveDateTime::MAX.and_utc().timestamp(), LAST_SECOND);
    let early = Moment { seconds: FIRST_SECOND + 86_400, nanos: 7 };
    assert_eq!(retention_cutoff(1, early), Some(Moment { seconds: FIRST_SECOND, nanos: 7 }));
}

#[test]
fn recordings_expire_with_age() {
    let made = moment("20240101_120000");
    let name = recording_file_name(made);
    let cutoff = |now: &str| retention_cutoff(30, moment(now)).unwrap();
    assert!(!is_expired(&name, cutoff("20240131_115959")));
    assert!(!is_expired(&name, cutoff("20240131_120000")));
    assert!(is_expired(&name, cutoff("20240131_120001")));
}

#[test]
fn moments_are_ordered() {
    let a = Moment { seconds: 1, nanos: 5 };
    assert!(is_before(a, Moment { seconds: 2, nanos: 0 }));
    assert!(is_before(a, Moment { seconds: 1, nanos: 6 }));
    assert!(!is_before(a, a));
    assert!(!is_before(a, Moment { seconds: 0, nanos: 9 }));
}

#[test]
fn outcomes_are_counted() {
    let entries = vec![Listing::Unreadable, named("x"), Listing::Unreadable];
    let removals = vec![Removal::Deleted(10), Removal::Failed, Removal::Deleted(u64::MAX - 5)];
    assert_eq!(
        prune_result(&entries, &removals),
        RecordingPruneResult { deleted_count: 2, freed_bytes: u64::MAX, failed_count: 3 }
    );
    assert_eq!(
        prune_result(&entries, &vec![Removal::Deleted(10), Removal::Deleted(5)]),
        RecordingPruneResult { deleted_count: 2, freed_bytes: 15, failed_count: 2 }
    );
}

#[test]
fn retention_is_limited() {
    assert_eq!(check_retention(0), Ok(()));
    assert_eq!(check_retention(3_650), Ok(()));
    assert_eq!(
        check_retention(3_651),
        Err("Recording retention must be between 0 and 3650 days".to_string())
    );
}
